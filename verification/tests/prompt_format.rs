//! Prompt output of tasks with their blockers.
use granary::models::task::Task;
use granary::output::prompt::{format_task, format_task_with_deps, format_tasks_with_deps};

fn create_test_task() -> Task {
    Task {
        id: "test-proj-task-1".to_string(),
        project_id: "test-proj".to_string(),
        task_number: 1,
        parent_task_id: None,
        title: "Test Task".to_string(),
        description: Some("A test task description".to_string()),
        status: "todo".to_string(),
        priority: "P1".to_string(),
        owner: Some("test-user".to_string()),
        tags: None,
        worker_ids: None,
        run_ids: None,
        blocked_reason: None,
        started_at: None,
        completed_at: None,
        due_at: None,
        claim_owner: None,
        claim_claimed_at: None,
        claim_lease_expires_at: None,
        pinned: 0,
        focus_weight: 0,
        created_at: "2024-01-01T00:00:00Z".to_string(),
        updated_at: "2024-01-01T00:00:00Z".to_string(),
        version: 1,
        last_edited_by: None,
    }
}

#[test]
fn test_format_task_no_dependencies() {
    let task = create_test_task();
    let output = format_task(&task);

    assert!(output.contains("id: test-proj-task-1"));
    assert!(output.contains("title: Test Task"));
    assert!(output.contains("status: todo"));
    // Should NOT contain blocked_by when empty
    assert!(!output.contains("blocked_by:"));
}

#[test]
fn test_format_task_with_dependencies() {
    let task = create_test_task();
    let blocked_by = vec!["dep-1".to_string(), "dep-2".to_string()];
    let output = format_task_with_deps(&task, &blocked_by);

    assert!(output.contains("id: test-proj-task-1"));
    assert!(output.contains("blocked_by: dep-1, dep-2"));
}

#[test]
fn test_format_tasks_with_dependencies() {
    let task1 = create_test_task();
    let mut task2 = create_test_task();
    task2.id = "test-proj-task-2".to_string();
    task2.title = "Task 2".to_string();

    let blocked_by1: &[String] = &["blocker-1".to_string()];
    let blocked_by2: &[String] = &[];

    let tasks_with_deps: Vec<(&Task, &[String])> =
        vec![(&task1, blocked_by1), (&task2, blocked_by2)];
    let output = format_tasks_with_deps(&tasks_with_deps);

    // First task should show blocked
    assert!(output.contains("test-proj-task-1"));
    assert!(output.contains("[BLOCKED]"));
    assert!(output.contains("blocked_by: blocker-1"));

    // Second task should not show blocked
    assert!(output.contains("test-proj-task-2"));
}

#[test]
fn test_format_task_with_deps_shows_blocked_by_line() {
    let task = create_test_task();
    let blocked_by = vec!["dependency-task".to_string()];
    let output = format_task_with_deps(&task, &blocked_by);

    // Verify the blocked_by line appears in the output
    assert!(output.contains("blocked_by: dependency-task"));
    // And it should be between the task tags
    assert!(output.starts_with("<task>"));
    assert!(output.ends_with("</task>\n"));
}
