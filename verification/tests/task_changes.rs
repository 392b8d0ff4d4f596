//! Task state changes: ready, start, complete, block, claim, review, edit.
use granary::error::GranaryError;
use granary::models::task::Task;
use granary::services::task_service::{
    apply_update, approve, associate_run, block, claim, complete, completion_comment, heartbeat,
    mark_ready, reject, release, review_comment, set_pinned, start, unblock, ReviewVerdict,
    UpdateTask, CreateTask, new_task,
};

fn task(status: &str) -> Task {
    Task {
        id: "proj-task-1".to_string(),
        project_id: "proj".to_string(),
        task_number: 1,
        parent_task_id: None,
        title: "Write docs".to_string(),
        description: None,
        status: status.to_string(),
        priority: "P2".to_string(),
        owner: Some("alice".to_string()),
        tags: None,
        worker_ids: None,
        run_ids: None,
        blocked_reason: None,
        started_at: None,
        completed_at: None,
        due_at: None,
        claim_owner: None,
        claim_claimed_at: None,
        claim_lease_expires_at: None,
        pinned: 0,
        focus_weight: 0,
        created_at: "2025-01-01T00:00:00Z".to_string(),
        updated_at: "2025-01-01T00:00:00Z".to_string(),
        version: 3,
        last_edited_by: None,
    }
}

fn conflict_message(r: Result<Task, GranaryError>) -> String {
    match r {
        Err(GranaryError::Conflict(m)) => m,
        other => panic!("expected a conflict, got {:?}", other.map(|t| t.status)),
    }
}

#[test]
fn ready_turns_draft_into_todo() {
    let t = mark_ready(task("draft")).unwrap();
    assert_eq!(t.status, "todo");
    assert_eq!(t.last_edited_by.as_deref(), Some("alice"));
    assert_eq!(
        conflict_message(mark_ready(task("todo"))),
        "Task proj-task-1 is not in Draft status (current status: todo). Only draft tasks can be marked as ready."
    );
}

#[test]
fn start_refuses_draft_review_and_done() {
    let none: Vec<String> = Vec::new();
    assert_eq!(
        conflict_message(start(task("draft"), None, &none, "now")),
        "Task proj-task-1 is in Draft status. Use 'granary task proj-task-1 ready' to mark it as ready before starting."
    );
    assert_eq!(
        conflict_message(start(task("in_review"), None, &none, "now")),
        "Task proj-task-1 is in review. Use 'granary review proj-task-1 reject \"feedback\"' before restarting it."
    );
    assert_eq!(conflict_message(start(task("done"), None, &none, "now")), "Task proj-task-1 is already completed");
}

#[test]
fn start_refuses_unmet_dependencies() {
    let unmet = vec!["proj-task-2".to_string(), "proj-task-3".to_string()];
    match start(task("todo"), None, &unmet, "now") {
        Err(GranaryError::UnmetDependencies(m)) => assert_eq!(m, "proj-task-2, proj-task-3"),
        _ => panic!("expected unmet dependencies"),
    }
}

#[test]
fn start_sets_status_time_and_owner() {
    let none: Vec<String> = Vec::new();
    let t = start(task("todo"), Some("bob".to_string()), &none, "2025-02-01T00:00:00Z").unwrap();
    assert_eq!(t.status, "in_progress");
    assert_eq!(t.started_at.as_deref(), Some("2025-02-01T00:00:00Z"));
    assert_eq!(t.owner.as_deref(), Some("bob"));
    assert_eq!(t.last_edited_by.as_deref(), Some("bob"));
    let mut again = t.clone();
    again.status = "todo".to_string();
    let t2 = start(again, None, &none, "2025-03-01T00:00:00Z").unwrap();
    assert_eq!(t2.started_at.as_deref(), Some("2025-02-01T00:00:00Z"));
    assert_eq!(t2.owner.as_deref(), Some("bob"));
}

#[test]
fn complete_goes_to_review_in_task_review_mode() {
    let mut t = task("in_progress");
    t.blocked_reason = Some("old".to_string());
    let done = complete(t.clone(), &None, "2025-02-02");
    assert_eq!(done.status, "done");
    assert_eq!(done.completed_at.as_deref(), Some("2025-02-02"));
    assert!(done.blocked_reason.is_none());
    let reviewed = complete(t.clone(), &Some("task".to_string()), "2025-02-02");
    assert_eq!(reviewed.status, "in_review");
    assert!(reviewed.completed_at.is_none());
    let other_mode = complete(t, &Some("project".to_string()), "2025-02-02");
    assert_eq!(other_mode.status, "done");
}

#[test]
fn unblock_forgets_block_and_claim() {
    let mut t = task("in_progress");
    t.claim_owner = Some("bob".to_string());
    t.claim_claimed_at = Some("then".to_string());
    let b = block(t, "waiting on review");
    assert_eq!(b.status, "blocked");
    assert_eq!(b.blocked_reason.as_deref(), Some("waiting on review"));
    assert!(b.last_edited_by.is_none());
    assert_eq!(b.claim_owner.as_deref(), Some("bob"));
    let u = unblock(b);
    assert_eq!(u.status, "todo");
    assert!(u.blocked_reason.is_none());
    assert!(u.claim_owner.is_none() && u.claim_claimed_at.is_none() && u.claim_lease_expires_at.is_none());
    assert_eq!(u.owner.as_deref(), Some("alice"));
}

#[test]
fn claim_by_another_owner_conflicts() {
    let mut t = task("todo");
    t.claim_owner = Some("bob".to_string());
    t.claim_lease_expires_at = Some("2025-01-01T01:00:00Z".to_string());
    match claim(t.clone(), "carol", "now", None) {
        Err(GranaryError::ClaimConflict { owner, expires_at }) => {
            assert_eq!(owner, "bob");
            assert_eq!(expires_at, "2025-01-01T01:00:00Z");
        }
        _ => panic!("expected a claim conflict"),
    }
    let same = claim(t, "bob", "2025-01-01T00:30:00Z", Some("2025-01-01T02:00:00Z".to_string())).unwrap();
    assert_eq!(same.claim_claimed_at.as_deref(), Some("2025-01-01T00:30:00Z"));
    assert_eq!(same.claim_lease_expires_at.as_deref(), Some("2025-01-01T02:00:00Z"));
    assert_eq!(same.last_edited_by.as_deref(), Some("bob"));
}

#[test]
fn claim_of_unclaimed_task_keeps_lease_when_none_asked() {
    let c = claim(task("todo"), "carol", "t0", None).unwrap();
    assert_eq!(c.claim_owner.as_deref(), Some("carol"));
    assert!(c.claim_lease_expires_at.is_none());
}

#[test]
fn heartbeat_needs_a_claim() {
    assert_eq!(
        conflict_message(heartbeat(task("todo"), "later".to_string())),
        "Task proj-task-1 is not claimed"
    );
    let mut t = task("todo");
    t.claim_owner = Some("bob".to_string());
    let h = heartbeat(t, "later".to_string()).unwrap();
    assert_eq!(h.claim_lease_expires_at.as_deref(), Some("later"));
}

#[test]
fn release_clears_claim_and_records_holder() {
    let mut t = task("in_progress");
    t.claim_owner = Some("bob".to_string());
    t.claim_claimed_at = Some("then".to_string());
    let r = release(t);
    assert_eq!(r.status, "todo");
    assert!(r.claim_owner.is_none());
    assert_eq!(r.last_edited_by.as_deref(), Some("bob"));
}

#[test]
fn pinning_sets_flag() {
    assert_eq!(set_pinned(task("todo"), true).pinned, 1);
    assert_eq!(set_pinned(set_pinned(task("todo"), true), false).pinned, 0);
}

#[test]
fn reviews_need_a_task_in_review() {
    assert_eq!(
        conflict_message(approve(task("todo"), "now")),
        "Task proj-task-1 is not in review (current status: todo)"
    );
    let a = approve(task("in_review"), "2025-05-05").unwrap();
    assert_eq!(a.status, "done");
    assert_eq!(a.completed_at.as_deref(), Some("2025-05-05"));
    let mut t = task("in_review");
    t.claim_owner = Some("bob".to_string());
    let r = reject(t).unwrap();
    assert_eq!(r.status, "todo");
    assert!(r.claim_owner.is_none());
    assert!(reject(task("done")).is_err());
}

#[test]
fn review_comment_records_verdict() {
    let c = review_comment(
        "proj-task-1-comment-2".to_string(),
        "task",
        "proj-task-1",
        2,
        ReviewVerdict::Rejected,
        None,
        Some("alice".to_string()),
        "2025-05-05",
    );
    assert_eq!(c.kind, "review");
    assert_eq!(c.content, "");
    assert_eq!(c.meta.as_deref(), Some("{\"verdict\":\"rejected\"}"));
    assert_eq!(c.version, 1);
    let p = completion_comment("id-1".to_string(), &task("done"), 4, "all good", "2025-05-05");
    assert_eq!(p.kind, "progress");
    assert_eq!(p.parent_id, "proj-task-1");
    assert_eq!(p.author.as_deref(), Some("alice"));
}

#[test]
fn associating_runs_appends_ids_once() {
    let mut t = task("todo");
    t.owner = None;
    let a = associate_run(t, "worker-1", "run-1").unwrap();
    assert_eq!(a.worker_ids.as_deref(), Some("[\"worker-1\"]"));
    assert_eq!(a.run_ids.as_deref(), Some("[\"run-1\"]"));
    assert_eq!(a.owner.as_deref(), Some("run-1"));
    let b = associate_run(a, "worker-1", "run-2").unwrap();
    assert_eq!(b.worker_ids.as_deref(), Some("[\"worker-1\"]"));
    assert_eq!(b.run_ids.as_deref(), Some("[\"run-1\",\"run-2\"]"));
    assert_eq!(b.owner.as_deref(), Some("run-1"));
}

#[test]
fn update_replaces_given_fields() {
    let u = UpdateTask {
        title: Some("New title".to_string()),
        status: Some("in_progress".to_string()),
        owner: Some("dave".to_string()),
        tags: Some(vec!["a".to_string(), "b".to_string()]),
        pinned: Some(true),
        ..Default::default()
    };
    let t = apply_update(task("todo"), u).unwrap();
    assert_eq!(t.title, "New title");
    assert_eq!(t.status, "in_progress");
    assert_eq!(t.priority, "P2");
    assert_eq!(t.tags.as_deref(), Some("[\"a\",\"b\"]"));
    assert_eq!(t.pinned, 1);
    assert_eq!(t.last_edited_by.as_deref(), Some("dave"));
    assert_eq!(t.version, 3);
}

#[test]
fn dependency_cycle_message() {
    match granary::services::task_service::dependency_cycle("p-task-1", "p-task-2") {
        GranaryError::DependencyCycle(m) => assert_eq!(m, "Adding dependency p-task-1 -> p-task-2 would create a cycle"),
        _ => panic!("expected a cycle error"),
    }
}

#[test]
fn new_task_is_fresh() {
    let input = CreateTask {
        project_id: "proj".to_string(),
        title: "First".to_string(),
        status: "todo".to_string(),
        priority: "P1".to_string(),
        owner: Some("alice".to_string()),
        ..Default::default()
    };
    let t = new_task("proj-task-1".to_string(), 1, input, "2025-01-01").unwrap();
    assert_eq!(t.task_number, 1);
    assert!(t.tags.is_none());
    assert_eq!(t.pinned, 0);
    assert_eq!(t.version, 1);
    assert_eq!(t.last_edited_by.as_deref(), Some("alice"));
    let tagged = new_task(
        "proj-task-2".to_string(),
        2,
        CreateTask { tags: vec!["x".to_string()], ..Default::default() },
        "2025-01-01",
    )
    .unwrap();
    assert_eq!(tagged.tags.as_deref(), Some("[\"x\"]"));
}
