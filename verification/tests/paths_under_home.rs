//! Paths below the configuration directory of a given home directory.
use granary::error::GranaryError;
use granary::services::global_config::{config_path_in, path_under};
use granary::services::workspace_registry::WorkspaceRegistry;

#[test]
fn path_under_home_joins_each_part() {
    let rel = vec!["daemon".to_string(), "granaryd.sock".to_string()];
    assert_eq!(path_under("/home/ann", &rel), "/home/ann/.granary/daemon/granaryd.sock");
    assert_eq!(path_under("/home/ann/", &Vec::new()), "/home/ann/.granary");
}

#[test]
fn path_in_without_home_is_an_error() {
    let rel = vec!["config.toml".to_string()];
    assert_eq!(config_path_in(Some("/root"), &rel).unwrap(), "/root/.granary/config.toml");
    match config_path_in(None, &rel) {
        Err(GranaryError::GlobalConfig(m)) => assert_eq!(m, "Could not determine home directory"),
        _ => panic!("expected the missing-home error"),
    }
}

#[test]
fn workspace_files_under_home() {
    assert_eq!(
        WorkspaceRegistry::workspace_db_path_in("/home/ann", "work"),
        "/home/ann/.granary/workspaces/work/granary.db"
    );
    assert_eq!(
        WorkspaceRegistry::registry_path_in("/home/ann"),
        "/home/ann/.granary/workspaces/registry.json"
    );
}

#[test]
fn named_workspace_lives_under_config_dir() {
    let w = granary::services::workspace::named_workspace("/src/app".to_string(), "/home/ann/.granary", "work");
    assert_eq!(w.root, "/src/app");
    assert_eq!(w.granary_dir, "/home/ann/.granary/workspaces/work");
    assert_eq!(w.db_path, "/home/ann/.granary/workspaces/work/granary.db");
    assert_eq!(w.name.as_deref(), Some("work"));
}

#[test]
fn action_file_names_are_sorted() {
    let names = vec!["deploy".to_string(), "ci/test".to_string(), "build".to_string(), "ci/lint".to_string()];
    let sorted = granary::services::global_config::sort_names(names);
    assert_eq!(sorted, vec!["build", "ci/lint", "ci/test", "deploy"]);
    let same = granary::services::global_config::sort_names(vec!["b".to_string(), "a".to_string(), "b".to_string()]);
    assert_eq!(same, vec!["a", "b", "b"]);
}
