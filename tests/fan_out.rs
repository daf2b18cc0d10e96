use cargo_syu::package::{FetchError, Package, UpstreamData};
use cargo_syu::plan::{resolve_all, select_packages};
use cargo_syu::record::LocalPackage;
use cargo_syu::report::{column_width, install_plan, report};
use cargo_syu::text::last_line;
use cargo_syu::version::Version;

fn reg(name: &str) -> LocalPackage {
    LocalPackage::Registry {
        name: name.to_owned(),
        vers: Version::new(1, 0, 0),
        url: "https://example.com/index".to_owned(),
    }
}

fn git(name: &str) -> LocalPackage {
    LocalPackage::Git {
        name: name.to_owned(),
        vers: Version::new(0, 1, 0),
        url: "https://example.com/x.git".to_owned(),
        commit: "ccd28e7939cf3feed230944cfc3a0498b98bddab".to_owned(),
    }
}

fn names(pkgs: &[LocalPackage]) -> Vec<String> {
    pkgs.iter().map(|p| p.name().clone()).collect()
}

#[test]
fn excluded_packages_are_not_selected() {
    let pkgs = vec![reg("a"), reg("b"), git("c"), reg("d")];
    let selected = select_packages(pkgs, &vec!["b".to_owned()], true);
    assert_eq!(names(&selected), vec!["a", "c", "d"]);
}

#[test]
fn git_packages_need_the_flag() {
    let pkgs = vec![reg("a"), git("c"), reg("d")];
    let selected = select_packages(pkgs, &vec![], false);
    assert_eq!(names(&selected), vec!["a", "d"]);
}

#[test]
fn resolution_keeps_input_order() {
    let pkgs = vec![reg("zeta"), git("alpha"), reg("mid")];
    // Data handed back per position, as a parallel fan-out collects it.
    let data = vec![
        UpstreamData::IndexBody("{\"name\":\"zeta\",\"vers\":\"1.0.0\"}\n{\"name\":\"zeta\",\"vers\":\"1.1.0\"}\n".to_owned()),
        UpstreamData::Refs(vec!["bb9f36d2fd022a089d39455d86d6c14e572628f1".to_owned()]),
        UpstreamData::IndexBody("{\"vers\":\"1.0.0\"}".to_owned()),
    ];
    let resolved = resolve_all(pkgs, data).unwrap();
    let rows = report(&resolved);
    let row_names: Vec<&str> = rows.iter().map(|r| r.name.as_str()).collect();
    assert_eq!(row_names, vec!["zeta", "alpha", "mid"]);
    assert_eq!(rows[0].status, "Update");
    assert_eq!(rows[0].installed, "1.0.0");
    assert_eq!(rows[0].available, "1.1.0");
    assert_eq!(rows[1].status, "Update");
    assert_eq!(rows[1].installed, "ccd28e793");
    assert_eq!(rows[1].available, "bb9f36d2f");
    assert_eq!(rows[2].status, "Current");
    assert!(!rows[2].update);
}

#[test]
fn resolution_reports_first_error() {
    let pkgs = vec![reg("a"), git("b"), reg("c")];
    let data = vec![
        UpstreamData::IndexBody("{\"vers\":\"1.0.0\"}".to_owned()),
        UpstreamData::Refs(vec![]),
        UpstreamData::IndexBody(String::new()),
    ];
    assert_eq!(resolve_all(pkgs, data).unwrap_err(), FetchError::NoReferences);
}

#[test]
fn each_fetch_error() {
    assert_eq!(git("a").fetch(UpstreamData::Refs(vec![])).unwrap_err(), FetchError::NoReferences);
    assert_eq!(reg("a").fetch(UpstreamData::IndexBody(String::new())).unwrap_err(), FetchError::EmptyIndex);
    assert_eq!(
        reg("a").fetch(UpstreamData::IndexBody("{\"name\":\"a\"}".to_owned())).unwrap_err(),
        FetchError::MalformedIndexEntry
    );
    assert_eq!(
        reg("a").fetch(UpstreamData::IndexBody("{\"vers\":\"1.x\"}".to_owned())).unwrap_err(),
        FetchError::MalformedIndexEntry
    );
    assert_eq!(
        reg("a").fetch(UpstreamData::IndexBody("not json".to_owned())).unwrap_err(),
        FetchError::MalformedIndexEntry
    );
    assert_eq!(reg("a").fetch(UpstreamData::Refs(vec!["x".to_owned()])).unwrap_err(), FetchError::WrongUpstream);
}

#[test]
fn index_takes_last_line_with_crlf() {
    let body = "{\"vers\":\"0.1.0\"}\r\n{\"vers\":\"0.2.0-rc.1\"}\r\n";
    match reg("a").fetch(UpstreamData::IndexBody(body.to_owned())).unwrap() {
        Package::Registry { best_vers, .. } => assert_eq!(best_vers.to_text(), "0.2.0-rc.1"),
        other => panic!("unexpected {other:?}"),
    }
}

#[test]
fn git_takes_first_reference() {
    let data = UpstreamData::Refs(vec!["first".to_owned(), "second".to_owned()]);
    match git("a").fetch(data).unwrap() {
        Package::Git { origin_commit, .. } => assert_eq!(origin_commit, "first"),
        other => panic!("unexpected {other:?}"),
    }
}

#[test]
fn column_width_has_a_minimum() {
    let short = resolve_all(vec![reg("a")], vec![UpstreamData::IndexBody("{\"vers\":\"1.0.0\"}".to_owned())]).unwrap();
    assert_eq!(column_width(&short), 7);
    assert_eq!(column_width(&Vec::new()), 7);
    let long = resolve_all(
        vec![reg("a"), reg("cargo-update-all")],
        vec![
            UpstreamData::IndexBody("{\"vers\":\"1.0.0\"}".to_owned()),
            UpstreamData::IndexBody("{\"vers\":\"1.0.0\"}".to_owned()),
        ],
    )
    .unwrap();
    assert_eq!(column_width(&long), 16);
}

#[test]
fn install_arguments() {
    let pkg = Package::Git {
        name: "bar".to_owned(),
        vers: Version::new(0, 1, 0),
        url: "https://example.com/bar.git".to_owned(),
        commit: "a".to_owned(),
        origin_commit: "b".to_owned(),
    };
    assert_eq!(
        pkg.update(Some(12), true, true).unwrap(),
        vec!["install", "--jobs", "12", "--locked", "--verbose", "--git", "https://example.com/bar.git", "bar"]
    );
    let reg_pkg = Package::Registry {
        name: "foo".to_owned(),
        vers: Version::new(1, 0, 0),
        url: String::new(),
        best_vers: Version::new(1, 0, 1),
    };
    assert_eq!(reg_pkg.update(None, false, false).unwrap(), vec!["install", "foo"]);
    let current = Package::Registry {
        name: "foo".to_owned(),
        vers: Version::new(1, 0, 1),
        url: String::new(),
        best_vers: Version::new(1, 0, 1),
    };
    assert!(current.update(None, true, false).is_none());
}

#[test]
fn install_plan_lists_outdated_packages_in_order() {
    let pkgs = resolve_all(
        vec![reg("zeta"), reg("same"), git("alpha")],
        vec![
            UpstreamData::IndexBody("{\"vers\":\"2.0.0\"}".to_owned()),
            UpstreamData::IndexBody("{\"vers\":\"1.0.0\"}".to_owned()),
            UpstreamData::Refs(vec!["bb9f36d2".to_owned()]),
        ],
    )
    .unwrap();
    let plan = install_plan(&pkgs, None, true, false);
    assert_eq!(
        plan,
        vec![
            vec!["install", "--locked", "zeta"],
            vec!["install", "--locked", "--git", "https://example.com/x.git", "alpha"],
        ]
    );
    assert!(install_plan(&Vec::new(), Some(2), true, true).is_empty());
}

#[test]
fn last_line_follows_str_lines() {
    for text in ["a\nb", "a\nb\n", "a\r\nb\r\n", "a\nb\r", "\n", "x"] {
        assert_eq!(last_line(text).as_deref(), text.lines().last());
    }
    assert_eq!(last_line(""), None);
}
