//! Sessions and projects: creation, updates, closing and archiving.
use granary::error::GranaryError;
use granary::models::project::{CreateProject, Project, ProjectStatus, UpdateProject};
use granary::models::session::{CreateSession, Session, SessionMode, UpdateSession};
use granary::services::project_service::{apply_project_update, check_can_archive, new_project};
use granary::services::session_service::{
    apply_session_update, check_can_close, clears_current, closing_summary, new_session, with_focus,
};

fn session() -> Session {
    new_session(
        "sess-1".to_string(),
        CreateSession { name: Some("main".to_string()), owner: Some("alice".to_string()), mode: SessionMode::Plan },
        "2025-01-01T00:00:00Z",
    )
}

#[test]
fn new_session_is_open_with_its_mode() {
    let s = session();
    assert_eq!(s.mode.as_deref(), Some("plan"));
    assert!(s.closed_at.is_none());
    assert!(s.focus_task_id.is_none());
    assert_eq!(s.created_at, "2025-01-01T00:00:00Z");
}

#[test]
fn session_update_writes_variables_as_object() {
    let u = UpdateSession {
        name: None,
        owner: Some("bob".to_string()),
        mode: Some(SessionMode::Execute),
        focus_task_id: None,
        variables: Some(vec![("b".to_string(), "2".to_string()), ("a".to_string(), "1".to_string())]),
    };
    let s = apply_session_update(session(), u).unwrap();
    assert_eq!(s.name.as_deref(), Some("main"));
    assert_eq!(s.owner.as_deref(), Some("bob"));
    assert_eq!(s.mode.as_deref(), Some("execute"));
    assert_eq!(s.variables.as_deref(), Some("{\"a\":\"1\",\"b\":\"2\"}"));
}

#[test]
fn closing_twice_is_refused() {
    let mut s = session();
    assert!(check_can_close(&s).is_ok());
    s.closed_at = Some("later".to_string());
    match check_can_close(&s) {
        Err(GranaryError::Conflict(m)) => assert_eq!(m, "Session sess-1 is already closed"),
        _ => panic!("expected a conflict"),
    }
}

#[test]
fn closing_summary_is_a_handoff_comment() {
    let c = closing_summary("sess-1-comment-1".to_string(), &session(), 1, "wrapped up", "now");
    assert_eq!(c.kind, "handoff");
    assert_eq!(c.parent_type, "session");
    assert_eq!(c.author.as_deref(), Some("alice"));
}

#[test]
fn current_session_cleared_only_when_closed() {
    assert!(clears_current(&Some("sess-1".to_string()), "sess-1"));
    assert!(!clears_current(&Some("sess-2".to_string()), "sess-1"));
    assert!(!clears_current(&None, "sess-1"));
}

#[test]
fn focus_is_set_and_cleared() {
    let s = with_focus(session(), Some("proj-task-1"));
    assert_eq!(s.focus_task_id.as_deref(), Some("proj-task-1"));
    assert!(with_focus(s, None).focus_task_id.is_none());
}

fn project() -> Project {
    new_project(
        "web-ab12".to_string(),
        "web".to_string(),
        CreateProject { name: "Web".to_string(), tags: vec!["ui".to_string()], ..Default::default() },
        "2025-01-01T00:00:00Z",
    )
    .unwrap()
}

#[test]
fn new_project_is_active_and_stores_tags() {
    let p = project();
    assert_eq!(p.status, "active");
    assert_eq!(p.tags.as_deref(), Some("[\"ui\"]"));
    assert!(p.steering_refs.is_none());
    assert_eq!(p.version, 1);
}

#[test]
fn project_update_and_archive() {
    let u = UpdateProject {
        description: Some("Front end".to_string()),
        status: Some(ProjectStatus::Archived),
        tags: Some(vec![]),
        ..Default::default()
    };
    let p = apply_project_update(project(), u).unwrap();
    assert_eq!(p.name, "Web");
    assert_eq!(p.description.as_deref(), Some("Front end"));
    assert_eq!(p.status, "archived");
    assert_eq!(p.tags.as_deref(), Some("[]"));
    match check_can_archive(&p) {
        Err(GranaryError::Conflict(m)) => assert_eq!(m, "Project web-ab12 is already archived"),
        _ => panic!("expected a conflict"),
    }
    assert!(check_can_archive(&project()).is_ok());
}

#[test]
fn session_variables_are_a_string_object() {
    let mut s = session();
    assert!(s.variables_map().is_empty());
    s.variables = Some(r#"{"b":"2","a":"1"}"#.to_string());
    let mut v = s.variables_map();
    v.sort();
    assert_eq!(v, vec![("a".to_string(), "1".to_string()), ("b".to_string(), "2".to_string())]);
    s.variables = Some(r#"{"a":1}"#.to_string());
    assert!(s.variables_map().is_empty());
    s.variables = Some("not json".to_string());
    assert!(s.variables_map().is_empty());
}
