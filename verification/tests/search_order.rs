//! Search: what is read for the matches, and the hits back in match order.
use granary::models::search::SearchResult;
use granary::services::search_service::{ids_to_read, reassemble};

fn m(kind: &str, id: &str) -> (String, String) {
    (kind.to_string(), id.to_string())
}

fn project(id: &str) -> SearchResult {
    SearchResult::Project { id: id.to_string(), name: format!("P {}", id), description: None, status: "active".to_string() }
}

fn task(id: &str) -> SearchResult {
    SearchResult::Task {
        id: id.to_string(),
        title: format!("T {}", id),
        description: None,
        status: "todo".to_string(),
        priority: "P2".to_string(),
        project_id: "p".to_string(),
    }
}

fn key(r: &SearchResult) -> String {
    match r {
        SearchResult::Project { id, .. } => format!("project:{}", id),
        SearchResult::Task { id, .. } => format!("task:{}", id),
        SearchResult::Initiative { id, .. } => format!("initiative:{}", id),
    }
}

#[test]
fn matches_are_grouped_by_type() {
    let matches = vec![m("task", "t1"), m("project", "p1"), m("comment", "c1"), m("initiative", "i1"), m("task", "t2")];
    let (projects, tasks, initiatives) = ids_to_read(&matches);
    assert_eq!(projects, vec!["p1"]);
    assert_eq!(tasks, vec!["t1", "t2"]);
    assert_eq!(initiatives, vec!["i1"]);
}

#[test]
fn hits_follow_match_order() {
    let order = vec![m("task", "t1"), m("project", "p1"), m("task", "missing"), m("project", "p2")];
    let found = vec![project("p2"), project("p1"), task("t1")];
    let hits = reassemble(&order, found);
    let keys: Vec<String> = hits.iter().map(key).collect();
    assert_eq!(keys, vec!["task:t1", "project:p1", "project:p2"]);
}

#[test]
fn repeated_match_gives_one_hit() {
    let order = vec![m("project", "p1"), m("project", "p1")];
    let hits = reassemble(&order, vec![project("p1")]);
    assert_eq!(hits.len(), 1);
}
