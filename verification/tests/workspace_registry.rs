//! The workspace registry: root lookups, adding and removing roots, listing
//! workspaces, and its paths.
use granary::services::workspace_registry::{WorkspaceMetadata, WorkspaceRegistry};
use std::path::Path;

fn empty_registry() -> WorkspaceRegistry {
    WorkspaceRegistry::new()
}

fn meta(created_at: &str) -> WorkspaceMetadata {
    WorkspaceMetadata { created_at: created_at.to_string() }
}

#[test]
fn test_lookup_root_exact_match() {
    let mut registry = empty_registry();
    registry.insert_workspace("work".to_string(), meta("2026-02-08T10:00:00Z"));
    registry.insert_root("/Users/daniel/work".to_string(), "work".to_string());

    assert_eq!(registry.lookup_root("/Users/daniel/work"), Some("work"));
}

#[test]
fn test_lookup_root_ancestor_match() {
    let mut registry = empty_registry();
    registry.insert_workspace("work".to_string(), meta("2026-02-08T10:00:00Z"));
    registry.insert_root("/Users/daniel/work".to_string(), "work".to_string());

    // Subdirectory should resolve to ancestor workspace
    assert_eq!(registry.lookup_root("/Users/daniel/work/project/src"), Some("work"));
}

#[test]
fn test_lookup_root_deepest_ancestor_wins() {
    let mut registry = empty_registry();
    registry.insert_workspace("work".to_string(), meta("2026-02-08T10:00:00Z"));
    registry.insert_workspace("project".to_string(), meta("2026-02-08T11:00:00Z"));
    registry.insert_root("/Users/daniel/work".to_string(), "work".to_string());
    registry.insert_root("/Users/daniel/work/myproject".to_string(), "project".to_string());

    // The deeper root should win
    assert_eq!(registry.lookup_root("/Users/daniel/work/myproject/src"), Some("project"));
    // But a sibling resolves to the parent workspace
    assert_eq!(registry.lookup_root("/Users/daniel/work/other"), Some("work"));
}

#[test]
fn test_lookup_root_no_match() {
    let mut registry = empty_registry();
    registry.insert_workspace("work".to_string(), meta("2026-02-08T10:00:00Z"));
    registry.insert_root("/Users/daniel/work".to_string(), "work".to_string());

    assert_eq!(registry.lookup_root("/Users/daniel/personal"), None);
}

#[test]
fn test_add_root_success() {
    let mut registry = empty_registry();
    registry.insert_workspace("work".to_string(), meta("2026-02-08T10:00:00Z"));

    let result = registry.add_root("/Users/daniel/work".to_string(), "work");
    assert!(result.is_ok());
    assert_eq!(registry.get_root("/Users/daniel/work"), Some("work"));
}

#[test]
fn test_add_root_already_registered() {
    let mut registry = empty_registry();
    registry.insert_workspace("work".to_string(), meta("2026-02-08T10:00:00Z"));
    registry.insert_root("/Users/daniel/work".to_string(), "work".to_string());

    let result = registry.add_root("/Users/daniel/work".to_string(), "work");
    assert!(result.is_err());
}

#[test]
fn test_add_root_workspace_not_found() {
    let mut registry = empty_registry();

    let result = registry.add_root("/Users/daniel/work".to_string(), "nonexistent");
    assert!(result.is_err());
}

#[test]
fn test_remove_root_exists() {
    let mut registry = empty_registry();
    registry.insert_root("/Users/daniel/work".to_string(), "work".to_string());

    let removed = registry.remove_root("/Users/daniel/work").unwrap();
    assert!(removed);
    assert_eq!(registry.root_count(), 0);
}

#[test]
fn test_remove_root_not_found() {
    let mut registry = empty_registry();

    let removed = registry.remove_root("/Users/daniel/work").unwrap();
    assert!(!removed);
}

#[test]
fn test_create_workspace_duplicate() {
    let mut registry = empty_registry();
    registry.insert_workspace("work".to_string(), meta("2026-02-08T10:00:00Z"));

    let result = registry.create_workspace("work");
    assert!(result.is_err());
}

#[test]
fn test_list_workspaces() {
    let mut registry = empty_registry();
    registry.insert_workspace("work".to_string(), meta("2026-02-08T10:00:00Z"));
    registry.insert_workspace("personal".to_string(), meta("2026-02-08T11:00:00Z"));
    registry.insert_root("/Users/daniel/work".to_string(), "work".to_string());
    registry.insert_root("/Users/daniel/contracts".to_string(), "work".to_string());
    registry.insert_root("/Users/daniel/personal".to_string(), "personal".to_string());

    let list = registry.list_workspaces();
    assert_eq!(list.len(), 2);

    for (name, _meta, roots) in &list {
        match name.as_str() {
            "work" => assert_eq!(roots.len(), 2),
            "personal" => assert_eq!(roots.len(), 1),
            _ => panic!("unexpected workspace: {}", name),
        }
    }
}

#[test]
fn test_registry_path() {
    let path = WorkspaceRegistry::registry_path();
    assert!(path.is_ok());
    let path = path.unwrap();
    assert!(Path::new(&path).ends_with("workspaces/registry.json"));
}

#[test]
fn test_workspace_db_path() {
    let path = WorkspaceRegistry::workspace_db_path("work");
    assert!(path.is_ok());
    let path = path.unwrap();
    assert!(Path::new(&path).ends_with("workspaces/work/granary.db"));
}

#[test]
fn registry_lookup_matches_paths_by_components() {
    let mut registry = empty_registry();
    registry.insert_workspace("work".to_string(), meta("2026-02-08T10:00:00Z"));
    registry.insert_root("/Users/daniel/work/".to_string(), "work".to_string());

    // A trailing slash or a doubled separator names the same directory.
    assert_eq!(registry.lookup_root("/Users/daniel//work"), Some("work"));
    assert_eq!(registry.get_root("/Users/daniel/work"), Some("work"));
}

#[test]
fn registry_insert_root_replaces_workspace_of_same_path() {
    let mut registry = empty_registry();
    registry.insert_root("/a/b".to_string(), "one".to_string());
    registry.insert_root("/a/b".to_string(), "two".to_string());
    assert_eq!(registry.root_count(), 1);
    assert_eq!(registry.get_root("/a/b"), Some("two"));
}

#[test]
fn registry_add_root_errors_carry_messages() {
    let mut registry = empty_registry();
    registry.insert_workspace("work".to_string(), meta("2026-02-08T10:00:00Z"));
    registry.insert_root("/x".to_string(), "work".to_string());
    let err = registry.add_root("/x".to_string(), "work").unwrap_err();
    assert_eq!(err.message(), "Conflict: /x is already part of workspace \"work\"");
    let err = registry.add_root("/y".to_string(), "nope").unwrap_err();
    assert_eq!(err.message(), "Invalid argument: Workspace \"nope\" does not exist. Create it first.");
}

#[test]
fn find_or_create_says_when_new() {
    let (w, new) = granary::services::workspace::Workspace::find_or_create("/repo", false);
    assert!(new);
    assert_eq!(w.root, "/repo");
    assert_eq!(w.granary_dir, "/repo/.granary");
    assert_eq!(w.db_path, "/repo/.granary/granary.db");
    let (_, again) = granary::services::workspace::Workspace::find_or_create("/repo", true);
    assert!(!again);
}
