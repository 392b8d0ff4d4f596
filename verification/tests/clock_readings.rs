//! Changes that read the clock: the time they store is an RFC 3339 reading
//! in UTC, and everything else is as with a given time.
use granary::error::GranaryError;
use granary::models::project::CreateProject;
use granary::models::session::{CreateSession, SessionMode};
use granary::models::task::Task;
use granary::services::checkpoint_service::create_checkpoint;
use granary::services::event_consumer::consumer_start_time;
use granary::services::project_service::create_project;
use granary::services::session_service::create_session;
use granary::services::task_service::{
    approve_task, claim_task, complete_task, create_task, heartbeat_task, start_task, CreateTask,
};
use granary::services::workspace_registry::{WorkspaceMetadata, WorkspaceRegistry};

fn task(status: &str) -> Task {
    Task {
        id: "proj-task-1".to_string(),
        project_id: "proj".to_string(),
        task_number: 1,
        parent_task_id: None,
        title: "Write docs".to_string(),
        description: None,
        status: status.to_string(),
        priority: "P2".to_string(),
        owner: Some("alice".to_string()),
        tags: None,
        worker_ids: None,
        run_ids: None,
        blocked_reason: None,
        started_at: None,
        completed_at: None,
        due_at: None,
        claim_owner: None,
        claim_claimed_at: None,
        claim_lease_expires_at: None,
        pinned: 0,
        focus_weight: 0,
        created_at: "2025-01-01T00:00:00Z".to_string(),
        updated_at: "2025-01-01T00:00:00Z".to_string(),
        version: 3,
        last_edited_by: None,
    }
}

/// A reading of the clock as chrono writes it: a date, `T`, a time, and the
/// UTC offset `+00:00`.
fn is_utc_reading(s: &str) -> bool {
    s.len() >= 25 && s.as_bytes()[4] == b'-' && s.as_bytes()[10] == b'T' && s.ends_with("+00:00")
}

#[test]
fn created_task_takes_one_reading_for_both_times() {
    let input = CreateTask {
        project_id: "proj".to_string(),
        title: "First".to_string(),
        status: "todo".to_string(),
        priority: "P1".to_string(),
        ..Default::default()
    };
    let t = create_task("proj-task-1".to_string(), 1, input).unwrap();
    assert!(is_utc_reading(&t.created_at));
    assert_eq!(t.created_at, t.updated_at);
    assert_eq!(t.version, 1);
}

#[test]
fn started_task_reads_clock_only_without_start_time() {
    let none: Vec<String> = Vec::new();
    let t = start_task(task("todo"), None, &none).unwrap();
    assert_eq!(t.status, "in_progress");
    assert!(is_utc_reading(t.started_at.as_deref().unwrap()));

    let mut earlier = task("todo");
    earlier.started_at = Some("2024-12-31T00:00:00Z".to_string());
    let t = start_task(earlier, Some("bob".to_string()), &none).unwrap();
    assert_eq!(t.started_at.as_deref(), Some("2024-12-31T00:00:00Z"));
    assert_eq!(t.owner.as_deref(), Some("bob"));
}

#[test]
fn completed_task_is_stamped_unless_reviewed() {
    let done = complete_task(task("in_progress"), &None);
    assert_eq!(done.status, "done");
    assert!(is_utc_reading(done.completed_at.as_deref().unwrap()));

    let reviewed = complete_task(task("in_progress"), &Some("task".to_string()));
    assert_eq!(reviewed.status, "in_review");
    assert!(reviewed.completed_at.is_none());
}

#[test]
fn claim_with_lease_ends_after_claim_time() {
    let t = claim_task(task("todo"), "agent-1", Some(30)).unwrap();
    let claimed_at = t.claim_claimed_at.clone().unwrap();
    let expires = t.claim_lease_expires_at.clone().unwrap();
    assert!(is_utc_reading(&claimed_at));
    assert!(is_utc_reading(&expires));
    assert!(expires > claimed_at);
    assert_eq!(t.claim_owner.as_deref(), Some("agent-1"));

    let unleased = claim_task(task("todo"), "agent-1", None).unwrap();
    assert!(unleased.claim_lease_expires_at.is_none());
}

#[test]
fn claim_held_by_another_is_refused_before_reading_clock() {
    let mut held = task("todo");
    held.claim_owner = Some("agent-1".to_string());
    match claim_task(held, "agent-2", Some(30)) {
        Err(GranaryError::ClaimConflict { owner, expires_at }) => {
            assert_eq!(owner, "agent-1");
            assert_eq!(expires_at, "");
        }
        _ => panic!("expected a claim conflict"),
    }
}

#[test]
fn heartbeat_moves_lease_end_forward() {
    let mut held = task("todo");
    held.claim_owner = Some("agent-1".to_string());
    held.claim_lease_expires_at = Some("2000-01-01T00:00:00+00:00".to_string());
    let t = heartbeat_task(held, 15).unwrap();
    let expires = t.claim_lease_expires_at.unwrap();
    assert!(is_utc_reading(&expires));
    assert!(expires.as_str() > "2000-01-01T00:00:00+00:00");
    assert!(matches!(heartbeat_task(task("todo"), 15), Err(GranaryError::Conflict(_))));
}

#[test]
fn approval_stamps_completion() {
    let t = approve_task(task("in_review")).unwrap();
    assert_eq!(t.status, "done");
    assert!(is_utc_reading(t.completed_at.as_deref().unwrap()));
    assert!(matches!(approve_task(task("todo")), Err(GranaryError::Conflict(_))));
}

#[test]
fn created_project_and_session_are_stamped() {
    let p = create_project(
        "proj-ab12".to_string(),
        "proj".to_string(),
        CreateProject { name: "Proj".to_string(), ..Default::default() },
    )
    .unwrap();
    assert!(is_utc_reading(&p.created_at));
    assert_eq!(p.created_at, p.updated_at);

    let s = create_session(
        "sess-1".to_string(),
        CreateSession { name: None, owner: None, mode: SessionMode::Execute },
    );
    assert!(is_utc_reading(&s.created_at));
    assert_eq!(s.created_at, s.updated_at);
    assert_eq!(s.mode.as_deref(), Some("execute"));
}

#[test]
fn checkpoint_and_consumer_start_read_clock() {
    let c = create_checkpoint("chk-1".to_string(), "sess-1", "before", "{}".to_string());
    assert!(is_utc_reading(&c.created_at));
    assert_eq!(c.name, "before");

    assert!(is_utc_reading(&consumer_start_time(None)));
    assert_eq!(consumer_start_time(Some("2025-01-01T00:00:00Z".to_string())), "2025-01-01T00:00:00Z");
}

#[test]
fn new_workspace_is_stamped() {
    let mut registry = WorkspaceRegistry::new();
    registry.create_workspace("work").unwrap();
    let meta: &WorkspaceMetadata = registry.get_workspace("work").unwrap();
    assert!(is_utc_reading(&meta.created_at));
}
