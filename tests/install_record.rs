use cargo_syu::record::{list_installed_packages, EntryError, LocalPackage, RecordError};

#[test]
fn registry_entry_parses() {
    match LocalPackage::parse_entry("foo 1.2.3 (registry+https://example.com/index)") {
        Ok(LocalPackage::Registry { name, vers, url }) => {
            assert_eq!(name, "foo");
            assert_eq!((vers.major, vers.minor, vers.patch), (1, 2, 3));
            assert_eq!(url, "https://example.com/index");
        }
        other => panic!("unexpected {other:?}"),
    }
}

#[test]
fn sparse_entry_parses() {
    match LocalPackage::parse_entry("cargo-syu 0.3.0 (sparse+https://index.crates.io/)") {
        Ok(LocalPackage::Registry { name, url, .. }) => {
            assert_eq!(name, "cargo-syu");
            assert_eq!(url, "https://index.crates.io/");
        }
        other => panic!("unexpected {other:?}"),
    }
}

#[test]
fn git_entry_parses_without_query() {
    match LocalPackage::parse_entry("bar 0.1.0 (git+https://example.com/bar.git?rev=abc#deadbeef)") {
        Ok(LocalPackage::Git { name, vers, url, commit }) => {
            assert_eq!(name, "bar");
            assert_eq!((vers.major, vers.minor, vers.patch), (0, 1, 0));
            assert_eq!(url, "https://example.com/bar.git");
            assert_eq!(commit, "deadbeef");
        }
        other => panic!("unexpected {other:?}"),
    }
}

#[test]
fn unknown_kind_is_rejected() {
    assert_eq!(
        LocalPackage::parse_entry("baz 0.0.1 (path+file:///tmp/baz)").unwrap_err(),
        EntryError::UnknownKind
    );
}

#[test]
fn each_entry_error() {
    assert_eq!(LocalPackage::parse_entry("nospace").unwrap_err(), EntryError::MissingName);
    assert_eq!(LocalPackage::parse_entry("foo 1.2.3").unwrap_err(), EntryError::MissingVersion);
    assert_eq!(
        LocalPackage::parse_entry("foo 1.2 (registry+https://example.com)").unwrap_err(),
        EntryError::InvalidVersion
    );
    assert_eq!(
        LocalPackage::parse_entry("foo 1.2.3 (https://example.com)").unwrap_err(),
        EntryError::MissingKind
    );
    assert_eq!(
        LocalPackage::parse_entry("foo 1.2.3 (git+https://example.com/foo.git)").unwrap_err(),
        EntryError::MissingCommit
    );
    assert_eq!(
        LocalPackage::parse_entry("foo 1.2.3 (git+https://example.com/foo.git#)").unwrap_err(),
        EntryError::MissingCommit
    );
}

#[test]
fn from_str_agrees_with_parse_entry() {
    let parsed: Result<LocalPackage, EntryError> = "foo 1.2.3 (registry+https://example.com/index)".parse();
    assert!(matches!(parsed, Ok(LocalPackage::Registry { .. })));
}

#[test]
fn install_record_skips_unknown_entries() {
    let data = "[v1]\n\
        \"foo 1.2.3 (registry+https://example.com/index)\" = [\"foo\"]\n\
        \"bar 0.1.0 (git+https://example.com/bar.git?rev=abc#deadbeef)\" = [\"bar\"]\n\
        \"baz 0.0.1 (path+file:///tmp/baz)\" = [\"baz\"]\n";
    let pkgs = list_installed_packages(data).unwrap();
    let names: Vec<&str> = pkgs.iter().map(|p| p.name().as_str()).collect();
    assert_eq!(names, vec!["bar", "foo"]);
}

#[test]
fn install_record_keeps_duplicate_names() {
    let data = "[v1]\n\
        \"foo 1.2.3 (registry+https://example.com/index)\" = []\n\
        \"foo 1.2.4 (git+https://example.com/foo.git#abc)\" = []\n";
    let pkgs = list_installed_packages(data).unwrap();
    assert_eq!(pkgs.len(), 2);
}

#[test]
fn install_record_errors() {
    assert_eq!(list_installed_packages("not = = toml").unwrap_err(), RecordError::Syntax);
    assert_eq!(list_installed_packages("[v2]\n").unwrap_err(), RecordError::MissingPackages);
    assert_eq!(list_installed_packages("v1 = 3\n").unwrap_err(), RecordError::MissingPackages);
    assert_eq!(list_installed_packages("[v1]\n").unwrap().len(), 0);
}
