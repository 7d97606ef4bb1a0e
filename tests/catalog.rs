use conda_share::{conda_env_list, env_exists, env_not_found, CondaError};

fn names(v: &[&str]) -> Vec<String> {
    v.iter().map(|s| s.to_string()).collect()
}

#[test]
fn lists_named_environments() {
    let out = "# conda environments:\n#\nbase                  *  /opt/conda\nml                       /opt/conda/envs/ml\n                         /other/prefix\n\n";
    assert_eq!(conda_env_list(out), names(&["base", "ml"]));
}

#[test]
fn listing_without_final_newline_and_with_crlf() {
    let out = "# conda environments:\r\nbase * /opt/conda\r\nweb /opt/conda/envs/web";
    assert_eq!(conda_env_list(out), names(&["base", "web"]));
}

#[test]
fn listing_keeps_order_and_duplicates() {
    let out = "zeta /z\nalpha /a\nzeta /z2\n";
    assert_eq!(conda_env_list(out), names(&["zeta", "alpha", "zeta"]));
}

#[test]
fn listing_splits_on_unicode_white_space() {
    let out = "\t  dev\u{3000}/d\nsolo\n# x y\n";
    assert_eq!(conda_env_list(out), names(&["dev"]));
}

#[test]
fn empty_listing() {
    assert_eq!(conda_env_list(""), Vec::<String>::new());
}

#[test]
fn exists_checks_membership() {
    let listed = names(&["base", "ml"]);
    assert!(env_exists("ml", &listed));
    assert!(!env_exists("m", &listed));
    assert!(!env_exists("ml", &vec![]));
}

#[test]
fn not_found_carries_listing() {
    let listed = names(&["b", "a"]);
    assert_eq!(env_not_found("c", &listed), CondaError::EnvNotFound("c".to_string(), names(&["b", "a"])));
}
