use conda_share::{conda_env_export, sharable_env, CondaEnv, CondaError, CondaPackage};

fn pkg(name: &str, version: Option<&str>, build: Option<&str>, channel: Option<&str>) -> CondaPackage {
    CondaPackage::new(
        name.to_string(),
        version.map(|s| s.to_string()),
        build.map(|s| s.to_string()),
        channel.map(|s| s.to_string()),
    )
}

fn export(name: &str, channels: &[&str], entries: &[&str]) -> CondaEnv {
    conda_env_export(
        name.to_string(),
        channels.iter().map(|c| c.to_string()).collect(),
        &entries.iter().map(|e| Some(e.to_string())).collect(),
    )
}

fn names(v: &[&str]) -> Vec<String> {
    v.iter().map(|s| s.to_string()).collect()
}

#[test]
fn requested_package_takes_inventory_version() {
    let history = export("sci", &[], &["numpy"]);
    let full = export("sci", &["conda-forge"], &["numpy=1.26.0=py311", "libblas=3.9"]);
    let inventory = vec![pkg("numpy", Some("1.26.0"), Some("py311"), None)];
    let d = sharable_env("sci", &names(&["base", "sci"]), &history, &full, &inventory).unwrap();
    assert_eq!(d.conda_deps, vec![pkg("numpy", Some("1.26.0"), Some("py311"), None)]);
    assert!(d.pip_deps.is_empty());
    assert!(d.to_yaml().unwrap().contains("  - numpy=1.26.0\n"));
}

#[test]
fn index_package_not_requested() {
    let history = export("web", &[], &[]);
    let full = export("web", &["defaults"], &[]);
    let inventory = vec![pkg("flask", Some("2.3.0"), None, Some("pypi"))];
    let d = sharable_env("web", &names(&["web"]), &history, &full, &inventory).unwrap();
    assert!(d.conda_deps.is_empty());
    assert_eq!(d.pip_deps, vec![pkg("flask", Some("2.3.0"), None, Some("pypi"))]);
    let text = d.to_yaml().unwrap();
    assert!(text.contains("      - flask==2.3.0\n"));
    assert!(!text.contains("numpy"));
}

#[test]
fn name_and_channels_come_from_full_export() {
    let history = export("ignored", &["other"], &["python=3.11"]);
    let full = export("proj", &["conda-forge", "bioconda", "defaults"], &[]);
    let inventory = vec![pkg("python", Some("3.11.5"), Some("h1"), Some("conda-forge"))];
    let d = sharable_env("proj", &names(&["proj"]), &history, &full, &inventory).unwrap();
    assert_eq!(d.name, "proj");
    assert_eq!(d.channels, names(&["conda-forge", "bioconda", "defaults"]));
    assert_eq!(d.conda_deps, vec![pkg("python", Some("3.11.5"), Some("h1"), Some("conda-forge"))]);
}

#[test]
fn unknown_environment_is_reported_with_listing() {
    let history = export("x", &[], &["numpy"]);
    let full = export("x", &[], &[]);
    let inventory = vec![pkg("numpy", Some("1.0"), None, None)];
    let r = sharable_env("missing", &names(&["zeta", "alpha", "zeta"]), &history, &full, &inventory);
    assert_eq!(r, Err(CondaError::EnvNotFound("missing".to_string(), names(&["zeta", "alpha", "zeta"]))));
}

#[test]
fn requested_name_missing_from_inventory_is_dropped() {
    let history = export("e", &[], &["scipy", "numpy"]);
    let full = export("e", &[], &[]);
    let inventory = vec![pkg("numpy", Some("1.26.0"), None, None), pkg("zlib", Some("1.2"), None, None)];
    let d = sharable_env("e", &names(&["e"]), &history, &full, &inventory).unwrap();
    assert_eq!(d.conda_deps, vec![pkg("numpy", Some("1.26.0"), None, None)]);
}

// Open question kept as observed: a requested package that also came from
// the package index is listed in both lists.
#[test]
fn dual_classification_appears_in_both_lists() {
    let history = export("e", &[], &["requests"]);
    let full = export("e", &[], &[]);
    let inventory = vec![pkg("requests", Some("2.31.0"), Some("pypi_0"), Some("pypi"))];
    let d = sharable_env("e", &names(&["e"]), &history, &full, &inventory).unwrap();
    assert_eq!(d.conda_deps.len(), 1);
    assert_eq!(d.pip_deps.len(), 1);
    assert_eq!(
        d.to_yaml().unwrap(),
        "name: e\nchannels:\ndependencies:\n  - requests=2.31.0\n  - pip:\n      - requests==2.31.0\n"
    );
}

#[test]
fn duplicate_inventory_names_pass_through() {
    let history = export("e", &[], &["numpy"]);
    let full = export("e", &[], &[]);
    let inventory = vec![
        pkg("numpy", Some("1.26.0"), Some("a"), None),
        pkg("numpy", Some("1.26.0"), Some("b"), None),
    ];
    let d = sharable_env("e", &names(&["e"]), &history, &full, &inventory).unwrap();
    assert_eq!(d.conda_deps, inventory);
}

#[test]
fn inventory_order_is_kept() {
    let history = export("e", &[], &["b", "a", "c"]);
    let full = export("e", &[], &[]);
    let inventory = vec![
        pkg("c", Some("3"), None, Some("pypi")),
        pkg("a", Some("1"), None, None),
        pkg("b", Some("2"), None, Some("pypi")),
    ];
    let d = sharable_env("e", &names(&["e"]), &history, &full, &inventory).unwrap();
    let native: Vec<&str> = d.conda_deps.iter().map(|p| p.name.as_str()).collect();
    let index: Vec<&str> = d.pip_deps.iter().map(|p| p.name.as_str()).collect();
    assert_eq!(native, vec!["c", "a", "b"]);
    assert_eq!(index, vec!["c", "b"]);
}

#[test]
fn building_twice_renders_identically() {
    let history = export("e", &[], &["numpy", "python=3.11"]);
    let full = export("e", &["conda-forge"], &["numpy=1.26.0"]);
    let inventory = vec![
        pkg("numpy", Some("1.26.0"), Some("py311"), None),
        pkg("python", Some("3.11.5"), None, None),
        pkg("flask", Some("2.3.0"), None, Some("pypi")),
    ];
    let a = sharable_env("e", &names(&["e"]), &history, &full, &inventory).unwrap();
    let b = sharable_env("e", &names(&["e"]), &history, &full, &inventory).unwrap();
    assert_eq!(a, b);
    assert_eq!(a.to_yaml().unwrap().into_bytes(), b.to_yaml().unwrap().into_bytes());
}

#[test]
fn index_marker_is_exact() {
    let history = export("e", &[], &[]);
    let full = export("e", &[], &[]);
    let inventory = vec![
        pkg("a", Some("1"), None, Some("PyPI")),
        pkg("b", Some("1"), None, Some("pypi-extra")),
        pkg("c", Some("1"), None, Some("pypi")),
    ];
    let d = sharable_env("e", &names(&["e"]), &history, &full, &inventory).unwrap();
    assert_eq!(d.pip_deps, vec![pkg("c", Some("1"), None, Some("pypi"))]);
}

#[test]
fn unknown_environment_needs_no_further_query() {
    assert!(conda_share::follow_up_queries("missing", &names(&["base", "sci"])).is_empty());
}

#[test]
fn known_environment_is_queried_three_times_in_order() {
    let q = conda_share::follow_up_queries("sci", &names(&["base", "sci"]));
    assert_eq!(
        q,
        vec![
            names(&["env", "export", "--from-history", "-n", "sci"]),
            names(&["env", "export", "-n", "sci"]),
            names(&["list", "-n", "sci", "--json"]),
        ]
    );
}
