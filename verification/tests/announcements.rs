//! Synthetic `task.next` and `project.next` events, gated by cooldowns.
use granary::models::project::Project;
use granary::models::task::Task;
use granary::services::polled_events::PolledEventEmitter;

fn task(id: &str) -> Task {
    Task {
        id: id.to_string(),
        project_id: "proj".to_string(),
        task_number: 1,
        parent_task_id: None,
        title: format!("Do {}", id),
        description: None,
        status: "todo".to_string(),
        priority: "P1".to_string(),
        owner: None,
        tags: None,
        worker_ids: None,
        run_ids: None,
        blocked_reason: None,
        started_at: None,
        completed_at: None,
        due_at: None,
        claim_owner: None,
        claim_claimed_at: None,
        claim_lease_expires_at: None,
        pinned: 0,
        focus_weight: 0,
        created_at: "c".to_string(),
        updated_at: "u".to_string(),
        version: 1,
        last_edited_by: None,
    }
}

fn project(id: &str) -> Project {
    Project {
        id: id.to_string(),
        slug: id.to_string(),
        name: format!("Project {}", id),
        description: None,
        owner: None,
        status: "active".to_string(),
        tags: None,
        default_session_policy: None,
        steering_refs: None,
        created_at: "c".to_string(),
        updated_at: "u".to_string(),
        version: 1,
        last_edited_by: None,
    }
}

#[test]
fn tasks_are_announced_once_per_cooldown() {
    let mut e = PolledEventEmitter::new(60);
    let events = e.task_next_events_at(&vec![task("a"), task("b"), task("a")], 1_000, "2026-01-01T00:00:00Z").unwrap();
    let ids: Vec<&str> = events.iter().map(|ev| ev.entity_id.as_str()).collect();
    assert_eq!(ids, vec!["a", "b"]);
    assert_eq!(events[0].event_type, "task.next");
    assert_eq!(events[0].entity_type, "task");
    assert_eq!(events[0].id, 0);
    assert_eq!(events[0].payload, r#"{"priority":"P1","project_id":"proj","status":"todo","title":"Do a"}"#);
    assert_eq!(events[0].created_at, "2026-01-01T00:00:00Z");

    let again = e.task_next_events_at(&vec![task("a"), task("c")], 30_000, "t").unwrap();
    assert_eq!(again.len(), 1);
    assert_eq!(again[0].entity_id, "c");

    let later = e.task_next_events_at(&vec![task("a")], 61_000, "t").unwrap();
    assert_eq!(later.len(), 1);
}

#[test]
fn zero_cooldown_announces_repeats() {
    let mut e = PolledEventEmitter::new(0);
    let events = e.task_next_events_at(&vec![task("a"), task("a")], 5, "t").unwrap();
    assert_eq!(events.len(), 2);
}

#[test]
fn projects_are_announced_with_name_and_status() {
    let mut e = PolledEventEmitter::new(60);
    let events = e.project_next_events_at(&vec![project("p1")], 0, "t").unwrap();
    assert_eq!(events.len(), 1);
    assert_eq!(events[0].event_type, "project.next");
    assert_eq!(events[0].entity_type, "project");
    assert_eq!(events[0].payload, r#"{"name":"Project p1","status":"active"}"#);
}

#[test]
fn tidying_forgets_stale_entries_after_an_announcement() {
    let mut e = PolledEventEmitter::new(10);
    e.announce_at(&vec!["x".to_string()], 0);
    e.tidy_at(0, 50_000);
    assert_eq!(e.tracked_count(), 1);
    e.tidy_at(1, 50_000);
    assert_eq!(e.tracked_count(), 0);
}

#[test]
fn polling_now_announces_each_task_once_per_cooldown() {
    let mut e = PolledEventEmitter::new(60);
    let first = e.poll_task_next(&vec![task("a"), task("b")]).unwrap();
    let ids: Vec<&str> = first.iter().map(|ev| ev.entity_id.as_str()).collect();
    assert_eq!(ids, vec!["a", "b"]);
    assert!(first[0].created_at.ends_with("+00:00"));
    assert!(e.is_in_cooldown("a"));
    let again = e.poll_task_next(&vec![task("a"), task("c")]).unwrap();
    let ids: Vec<&str> = again.iter().map(|ev| ev.entity_id.as_str()).collect();
    assert_eq!(ids, vec!["c"]);
}

#[test]
fn polling_projects_now_without_cooldown_repeats() {
    let mut e = PolledEventEmitter::new(0);
    let first = e.poll_project_next(&vec![project("p")]).unwrap();
    assert_eq!(first.len(), 1);
    assert_eq!(first[0].event_type, "project.next");
    let again = e.poll_project_next(&vec![project("p")]).unwrap();
    assert_eq!(again.len(), 1);
}
