//! Checkpoint snapshots and restores; batch decisions and reports.
use granary::models::checkpoint::{ScopeItem, SessionSnapshot, SessionSnapshotData, TaskSnapshot};
use granary::models::project::ProjectStatus;
use granary::models::session::{Session, SessionScope};
use granary::models::task::Task;
use granary::services::batch_service::{
    apply_comment_update, batch_results, comment_parent_type, counter_scope, new_comment,
    requested_project_status, result_id, BatchOp, CommentParentType,
};
use granary::services::checkpoint_service::{
    checkpoint_name_taken, new_checkpoint, restore_session, restore_task, scope_items, scope_task_ids,
    session_snapshot, session_snapshot_data, task_snapshot,
};
use granary::error::GranaryError;

fn task() -> Task {
    Task {
        id: "proj-task-1".to_string(),
        project_id: "proj".to_string(),
        task_number: 1,
        parent_task_id: None,
        title: "Title".to_string(),
        description: None,
        status: "in_progress".to_string(),
        priority: "P1".to_string(),
        owner: Some("alice".to_string()),
        tags: None,
        worker_ids: None,
        run_ids: None,
        blocked_reason: None,
        started_at: None,
        completed_at: None,
        due_at: None,
        claim_owner: None,
        claim_claimed_at: None,
        claim_lease_expires_at: None,
        pinned: 1,
        focus_weight: 4,
        created_at: "c".to_string(),
        updated_at: "u".to_string(),
        version: 2,
        last_edited_by: None,
    }
}

fn session() -> Session {
    Session {
        id: "sess-1".to_string(),
        name: Some("main".to_string()),
        owner: None,
        mode: Some("plan".to_string()),
        focus_task_id: None,
        variables: None,
        created_at: "c".to_string(),
        updated_at: "u".to_string(),
        closed_at: None,
        last_edited_by: None,
    }
}

#[test]
fn snapshot_then_restore_gives_state_back() {
    let t = task();
    let snap = task_snapshot(&t);
    assert!(snap.pinned);
    assert_eq!(snap.focus_weight, 4);
    let mut changed = t.clone();
    changed.status = "done".to_string();
    changed.owner = None;
    changed.pinned = 0;
    let back = restore_task(changed, &snap);
    assert_eq!(back.status, "in_progress");
    assert_eq!(back.owner.as_deref(), Some("alice"));
    assert_eq!(back.pinned, 1);
    assert_eq!(back.title, "Title");
}

#[test]
fn restore_with_recorded_state() {
    let snap = TaskSnapshot {
        id: "proj-task-1".to_string(),
        status: "blocked".to_string(),
        priority: "P3".to_string(),
        owner: None,
        blocked_reason: Some("wait".to_string()),
        pinned: false,
        focus_weight: 0,
    };
    let r = restore_task(task(), &snap);
    assert_eq!(r.status, "blocked");
    assert_eq!(r.priority, "P3");
    assert_eq!(r.blocked_reason.as_deref(), Some("wait"));
    assert_eq!(r.pinned, 0);
    assert_eq!(r.version, 2);
}

#[test]
fn scope_and_task_ids() {
    let scope = vec![
        SessionScope { session_id: "s".to_string(), item_type: "project".to_string(), item_id: "p".to_string(), pinned_at: "t".to_string() },
        SessionScope { session_id: "s".to_string(), item_type: "task".to_string(), item_id: "p-task-1".to_string(), pinned_at: "t".to_string() },
        SessionScope { session_id: "s".to_string(), item_type: "task".to_string(), item_id: "p-task-2".to_string(), pinned_at: "t".to_string() },
    ];
    let items = scope_items(&scope);
    assert_eq!(items.len(), 3);
    assert_eq!(items[0].item_type, "project");
    assert_eq!(scope_task_ids(&items), vec!["p-task-1", "p-task-2"]);
}

#[test]
fn session_restore_keeps_variables_without_recorded_ones() {
    let data = session_snapshot_data(&session());
    assert_eq!(data.mode.as_deref(), Some("plan"));
    let snap = SessionSnapshot {
        session: SessionSnapshotData {
            id: "sess-1".to_string(),
            name: None,
            owner: None,
            mode: Some("execute".to_string()),
            focus_task_id: Some("proj-task-1".to_string()),
        },
        scope: Vec::<ScopeItem>::new(),
        tasks: Vec::new(),
        variables: Vec::new(),
    };
    let mut s = session();
    s.variables = Some("{\"k\":\"v\"}".to_string());
    let r = restore_session(s, &snap, "{}".to_string());
    assert_eq!(r.mode.as_deref(), Some("execute"));
    assert_eq!(r.focus_task_id.as_deref(), Some("proj-task-1"));
    assert_eq!(r.variables.as_deref(), Some("{\"k\":\"v\"}"));
    assert_eq!(r.name.as_deref(), Some("main"));
    let mut with_vars = snap.clone();
    with_vars.variables = vec![("a".to_string(), "1".to_string())];
    let r2 = restore_session(session(), &with_vars, "{\"a\":\"1\"}".to_string());
    assert_eq!(r2.variables.as_deref(), Some("{\"a\":\"1\"}"));
}

#[test]
fn duplicate_checkpoint_name_message() {
    match checkpoint_name_taken("before", "sess-1") {
        GranaryError::Conflict(m) => assert_eq!(m, "Checkpoint 'before' already exists in session sess-1"),
        _ => panic!("expected a conflict"),
    }
}

#[test]
fn comment_parent_is_read_from_the_id() {
    assert_eq!(comment_parent_type("proj-ab12-task-3"), CommentParentType::Task);
    assert_eq!(comment_parent_type("proj-ab12-task-3-comment-1"), CommentParentType::Task);
    assert_eq!(comment_parent_type("proj-ab12-comment-1"), CommentParentType::Comment);
    assert_eq!(comment_parent_type("proj-ab12"), CommentParentType::Project);
}

#[test]
fn project_status_names() {
    assert_eq!(requested_project_status(&Some("archived".to_string())), Some(ProjectStatus::Archived));
    assert_eq!(requested_project_status(&Some("nonsense".to_string())), None);
    assert_eq!(requested_project_status(&None), None);
}

#[test]
fn reported_ids_by_operation() {
    let create = BatchOp::ProjectCreate { name: "n".to_string(), description: None, owner: None, tags: vec![] };
    assert_eq!(result_id(&create, Some("proj-1".to_string())).as_deref(), Some("proj-1"));
    let start = BatchOp::TaskStart { id: "t-1".to_string(), owner: None };
    assert_eq!(result_id(&start, None).as_deref(), Some("t-1"));
    let dep = BatchOp::DependencyAdd { task_id: "a".to_string(), depends_on: "b".to_string() };
    assert_eq!(result_id(&dep, Some("x".to_string())), None);
}

#[test]
fn every_operation_is_reported() {
    let ops = vec![
        BatchOp::TaskUnblock { id: "t-1".to_string() },
        BatchOp::SessionFocus { session_id: "s".to_string(), task_id: "t-2".to_string() },
    ];
    let outcomes = vec![Ok(Some("t-1".to_string())), Err("Task not found: t-2".to_string())];
    let r = batch_results(&ops, outcomes);
    assert_eq!(r.len(), 2);
    assert_eq!(r[0].index, 0);
    assert_eq!(r[0].op, "task.unblock");
    assert!(r[0].success);
    assert_eq!(r[1].index, 1);
    assert_eq!(r[1].op, "session.focus");
    assert!(!r[1].success);
    assert_eq!(r[1].error.as_deref(), Some("Task not found: t-2"));
    assert!(r[1].id.is_none());
}

#[test]
fn comments_made_and_edited_by_batches() {
    assert_eq!(counter_scope("task", "p-task-1", "comment"), "task:p-task-1:comment");
    let c = new_comment(
        "p-task-1-comment-1".to_string(),
        comment_parent_type("p-task-1"),
        "p-task-1".to_string(),
        1,
        "note".to_string(),
        "hello".to_string(),
        None,
        "now",
    );
    assert_eq!(c.parent_type, "task");
    assert_eq!(c.version, 1);
    let e = apply_comment_update(c, None, Some("decision".to_string()));
    assert_eq!(e.content, "hello");
    assert_eq!(e.kind, "decision");
}

#[test]
fn snapshot_of_session_and_checkpoint_row() {
    let mut s = session();
    s.variables = Some(r#"{"k":"v"}"#.to_string());
    let snap = session_snapshot(&s, Vec::new(), vec![task_snapshot(&task())]);
    assert_eq!(snap.session.id, "sess-1");
    assert_eq!(snap.tasks.len(), 1);
    assert_eq!(snap.variables, vec![("k".to_string(), "v".to_string())]);
    let c = new_checkpoint("chk-1".to_string(), "sess-1", "before", "{}".to_string(), "now");
    assert_eq!(c.name, "before");
    assert_eq!(c.session_id, "sess-1");
}
