use conda_share::{CondaEnv, CondaError, CondaPackage};

fn pkg(name: &str, version: Option<&str>, build: Option<&str>, channel: Option<&str>) -> CondaPackage {
    CondaPackage::new(
        name.to_string(),
        version.map(|s| s.to_string()),
        build.map(|s| s.to_string()),
        channel.map(|s| s.to_string()),
    )
}

fn env(name: &str, channels: &[&str], conda: Vec<CondaPackage>, pip: Vec<CondaPackage>) -> CondaEnv {
    CondaEnv::new(name.to_string(), channels.iter().map(|c| c.to_string()).collect(), conda, pip)
}

#[test]
fn renders_full_document() {
    let e = env(
        "myenv",
        &["conda-forge", "defaults"],
        vec![pkg("numpy", Some("1.26.0"), Some("py311"), None), pkg("python", Some("3.11.5"), None, None)],
        vec![pkg("flask", Some("2.3.0"), Some("pypi_0"), Some("pypi"))],
    );
    let text = e.to_yaml().unwrap();
    assert_eq!(
        text,
        "name: myenv\nchannels:\n  - conda-forge\n  - defaults\ndependencies:\n  - numpy=1.26.0\n  - python=3.11.5\n  - pip:\n      - flask==2.3.0\n"
    );
}

#[test]
fn renders_empty_channels_and_no_packages() {
    let e = env("bare", &[], vec![], vec![]);
    assert_eq!(e.to_yaml().unwrap(), "name: bare\nchannels:\n");
}

#[test]
fn index_only_document_has_nested_pip_list() {
    let e = env("web", &["defaults"], vec![], vec![pkg("flask", Some("2.3.0"), None, Some("pypi"))]);
    let text = e.to_yaml().unwrap();
    assert_eq!(text, "name: web\nchannels:\n  - defaults\n  - pip:\n      - flask==2.3.0\n");
    assert!(!text.contains("dependencies:"));
}

#[test]
fn missing_native_version_fails() {
    let e = env("x", &["defaults"], vec![pkg("numpy", None, None, None)], vec![]);
    assert_eq!(e.to_yaml(), Err(CondaError::MissingVersion));
}

#[test]
fn missing_index_version_fails() {
    let e = env(
        "x",
        &[],
        vec![pkg("numpy", Some("1.0"), None, None)],
        vec![pkg("flask", None, None, Some("pypi"))],
    );
    assert_eq!(e.to_yaml(), Err(CondaError::MissingVersion));
}

#[test]
fn missing_version_after_good_ones_fails() {
    let e = env(
        "x",
        &[],
        vec![pkg("a", Some("1"), None, None), pkg("b", Some("2"), None, None), pkg("c", None, None, None)],
        vec![],
    );
    assert_eq!(e.to_yaml(), Err(CondaError::MissingVersion));
}
