//! The catalog of actions: inline actions over action files, by name.
use granary::models::config::ActionConfig;
use granary::services::global_config::merge_actions;

fn entry(name: &str, command: &str) -> (String, ActionConfig) {
    (name.to_string(), ActionConfig::new(command))
}

fn names(v: &[(String, ActionConfig)]) -> Vec<&str> {
    v.iter().map(|(n, _)| n.as_str()).collect()
}

fn command_of<'a>(v: &'a [(String, ActionConfig)], name: &str) -> Option<&'a str> {
    v.iter().find(|(n, _)| n == name).and_then(|(_, a)| a.command.as_deref())
}

#[test]
fn inline_action_hides_file_of_same_name() {
    let inline = vec![entry("lint", "inline-lint"), entry("build", "inline-build")];
    let files = vec![entry("deploy", "file-deploy"), entry("git/sync", "file-sync"), entry("lint", "file-lint")];
    let all = merge_actions(inline, files);
    assert_eq!(names(&all), vec!["build", "deploy", "git/sync", "lint"]);
    assert_eq!(command_of(&all, "lint"), Some("inline-lint"));
    assert_eq!(command_of(&all, "deploy"), Some("file-deploy"));
}

#[test]
fn catalog_without_files_is_inline_sorted() {
    let all = merge_actions(vec![entry("zeta", "z"), entry("alpha", "a")], Vec::new());
    assert_eq!(names(&all), vec!["alpha", "zeta"]);
}

#[test]
fn catalog_without_inline_is_files_sorted() {
    let all = merge_actions(Vec::new(), vec![entry("b", "b"), entry("a/c", "c"), entry("a", "a")]);
    assert_eq!(names(&all), vec!["a", "a/c", "b"]);
}
