use conda_share::{check_command_status, env_export_args, env_list_args, join_args, list_args, CondaError};

fn words(v: &[&str]) -> Vec<String> {
    v.iter().map(|s| s.to_string()).collect()
}

#[test]
fn argument_lists() {
    assert_eq!(env_list_args(), words(&["env", "list"]));
    assert_eq!(env_export_args("sci", true), words(&["env", "export", "--from-history", "-n", "sci"]));
    assert_eq!(env_export_args("sci", false), words(&["env", "export", "-n", "sci"]));
    assert_eq!(list_args("sci"), words(&["list", "-n", "sci", "--json"]));
}

#[test]
fn joins_with_single_spaces() {
    assert_eq!(join_args(&words(&["env", "export", "-n", "sci"])), "env export -n sci");
    assert_eq!(join_args(&words(&["one"])), "one");
    assert_eq!(join_args(&vec![]), "");
}

#[test]
fn failed_run_is_reported() {
    let args = words(&["list", "-n", "x", "--json"]);
    assert_eq!(check_command_status(&args, true, String::new()), Ok(()));
    assert_eq!(
        check_command_status(&args, false, "EnvironmentLocationNotFound".to_string()),
        Err(CondaError::CondaCommandFailed("list -n x --json".to_string(), "EnvironmentLocationNotFound".to_string()))
    );
}
