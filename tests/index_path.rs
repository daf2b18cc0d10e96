use cargo_syu::index::{get_index_file, get_registry_package_path};
use cargo_syu::record::LocalPackage;
use cargo_syu::version::Version;

#[test]
fn package_registry_path() {
    assert_eq!(get_registry_package_path("c"), "1/c");
    assert_eq!(get_registry_package_path("ca"), "2/ca");
    assert_eq!(get_registry_package_path("car"), "3/c/car");
    assert_eq!(get_registry_package_path("cargo-syu"), "ca/rg/cargo-syu");
}

#[test]
fn index_file_matches_registry_path() {
    for name in ["c", "ca", "car", "carg", "cargo-syu"] {
        assert_eq!(get_index_file(name), get_registry_package_path(name));
    }
    assert_eq!(get_index_file("serde"), "se/rd/serde");
}

#[test]
fn index_url_rewrites_crates_io_git_index() {
    let pkg = LocalPackage::Registry {
        name: "cargo-syu".to_owned(),
        vers: Version::new(0, 1, 0),
        url: "https://github.com/rust-lang/crates.io-index".to_owned(),
    };
    assert_eq!(pkg.index_url().unwrap(), "https://index.crates.io/ca/rg/cargo-syu");
}

#[test]
fn index_url_keeps_other_registries() {
    let pkg = LocalPackage::Registry {
        name: "foo".to_owned(),
        vers: Version::new(1, 2, 3),
        url: "https://example.com/index".to_owned(),
    };
    assert_eq!(pkg.index_url().unwrap(), "https://example.com/index/3/f/foo");
}

#[test]
fn index_url_none_for_git_or_empty_name() {
    let git = LocalPackage::Git {
        name: "bar".to_owned(),
        vers: Version::new(0, 1, 0),
        url: "https://example.com/bar.git".to_owned(),
        commit: "deadbeef".to_owned(),
    };
    assert!(git.index_url().is_none());
    let empty = LocalPackage::Registry {
        name: String::new(),
        vers: Version::new(0, 1, 0),
        url: "https://example.com/index".to_owned(),
    };
    assert!(empty.index_url().is_none());
}
