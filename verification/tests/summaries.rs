//! Summaries, context packs and handoffs: what is counted, kept and cut.
use granary::models::task::{Comment, Task};
use granary::output::json::SteeringInfo;
use granary::output::prompt::format_handoff;
use granary::services::summary_service::{
    blocked_tasks, context_blockers, context_max, context_sections, handoff, merge_context_tasks,
    next_action_limit, next_actions, sort_newest_first, state_summary, summarize,
};
use granary::text::text_before;

fn task(id: &str, status: &str, priority: &str) -> Task {
    Task {
        id: id.to_string(),
        project_id: "proj".to_string(),
        task_number: 1,
        parent_task_id: None,
        title: format!("Title {}", id),
        description: None,
        status: status.to_string(),
        priority: priority.to_string(),
        owner: None,
        tags: None,
        worker_ids: None,
        run_ids: None,
        blocked_reason: None,
        started_at: None,
        completed_at: None,
        due_at: None,
        claim_owner: None,
        claim_claimed_at: None,
        claim_lease_expires_at: None,
        pinned: 0,
        focus_weight: 0,
        created_at: "2025-01-01T00:00:00Z".to_string(),
        updated_at: "2025-01-01T00:00:00Z".to_string(),
        version: 1,
        last_edited_by: None,
    }
}

fn comment(id: &str, created_at: &str) -> Comment {
    Comment {
        id: id.to_string(),
        parent_type: "task".to_string(),
        parent_id: "proj-task-1".to_string(),
        comment_number: 1,
        kind: "note".to_string(),
        content: format!("content {}", id),
        author: None,
        meta: None,
        created_at: created_at.to_string(),
        updated_at: created_at.to_string(),
        version: 1,
    }
}

fn ids(tasks: &[Task]) -> Vec<String> {
    tasks.iter().map(|t| t.id.clone()).collect()
}

#[test]
fn state_summary_counts_statuses_and_priorities() {
    let tasks = vec![
        task("a", "todo", "P0"),
        task("b", "todo", "P2"),
        task("c", "in_progress", "P2"),
        task("d", "done", "P4"),
        task("e", "blocked", "P1"),
        task("f", "draft", "P9"),
    ];
    let s = state_summary(&tasks);
    assert_eq!(s.total_tasks, 6);
    assert_eq!(s.by_status.todo, 2);
    assert_eq!(s.by_status.in_progress, 1);
    assert_eq!(s.by_status.done, 1);
    assert_eq!(s.by_status.blocked, 1);
    assert_eq!(s.by_priority.p0, 1);
    assert_eq!(s.by_priority.p1, 1);
    assert_eq!(s.by_priority.p2, 2);
    assert_eq!(s.by_priority.p3, 0);
    assert_eq!(s.by_priority.p4, 1);
}

#[test]
fn blockers_are_blocked_status_or_reason() {
    let mut with_reason = task("b", "todo", "P2");
    with_reason.blocked_reason = Some("waiting".to_string());
    let tasks = vec![task("a", "todo", "P2"), with_reason, task("c", "blocked", "P2")];
    assert_eq!(ids(&blocked_tasks(&tasks)), vec!["b", "c"]);
}

#[test]
fn next_actions_skip_blocked_and_stop_at_limit() {
    let mut with_reason = task("b", "todo", "P2");
    with_reason.blocked_reason = Some("waiting".to_string());
    let tasks = vec![
        task("a", "todo", "P2"),
        with_reason,
        task("c", "done", "P2"),
        task("d", "in_progress", "P2"),
        task("e", "todo", "P2"),
    ];
    assert_eq!(ids(&next_actions(&tasks, 2)), vec!["a", "d"]);
    assert_eq!(ids(&next_actions(&tasks, 10)), vec!["a", "d", "e"]);
    assert!(next_actions(&tasks, 0).is_empty());
}

#[test]
fn next_action_limit_follows_token_budget() {
    assert_eq!(next_action_limit(None), 5);
    assert_eq!(next_action_limit(Some(100)), 3);
    assert_eq!(next_action_limit(Some(250)), 3);
    assert_eq!(next_action_limit(Some(1000)), 10);
}

#[test]
fn summary_keeps_five_decisions_and_artifacts() {
    let tasks = vec![task("a", "todo", "P1"), task("b", "blocked", "P1")];
    let decisions: Vec<Comment> = (0..8).map(|i| comment(&format!("c{}", i), "2025-01-01")).collect();
    let out = summarize(None, tasks, None, None, decisions, Vec::new());
    assert!(out.session.is_none());
    assert_eq!(out.state.total_tasks, 2);
    assert_eq!(out.recent_decisions.len(), 5);
    assert_eq!(out.recent_decisions[4].id, "c4");
    assert_eq!(ids(&out.blockers), vec!["b"]);
    assert_eq!(ids(&out.next_actions), vec!["a"]);
}

#[test]
fn context_sections_default_to_all() {
    let all = context_sections(&None);
    assert!(all.projects && all.tasks && all.comments && all.decisions && all.blockers && all.artifacts);
    let some = context_sections(&Some(vec!["tasks".to_string(), "blockers".to_string()]));
    assert!(!some.projects && some.tasks && !some.comments && !some.decisions && some.blockers && !some.artifacts);
}

#[test]
fn context_max_defaults_to_fifty() {
    assert_eq!(context_max(None), 50);
    assert_eq!(context_max(Some(7)), 7);
}

#[test]
fn context_tasks_merge_without_duplicates() {
    let pinned = vec![task("p-1", "todo", "P1"), task("p-2", "todo", "P1")];
    let from_projects = vec![
        task("p-2", "todo", "P1"),
        task("p-3", "todo", "P1"),
        task("p-3", "todo", "P1"),
        task("p-4", "todo", "P1"),
    ];
    let merged = merge_context_tasks(pinned.clone(), &from_projects, 10);
    assert_eq!(ids(&merged), vec!["p-1", "p-2", "p-3", "p-4"]);
    let cut = merge_context_tasks(pinned, &from_projects, 3);
    assert_eq!(ids(&cut), vec!["p-1", "p-2", "p-3"]);
}

#[test]
fn context_blockers_pair_tasks_with_unmet_dependencies() {
    let mut b = task("b", "todo", "P1");
    b.blocked_reason = Some("needs a".to_string());
    let tasks = vec![task("a", "todo", "P1"), b, task("c", "blocked", "P1")];
    let unmet = vec![vec![], vec!["a".to_string()], vec!["x".to_string(), "y".to_string()]];
    let infos = context_blockers(&tasks, unmet, 10);
    assert_eq!(infos.len(), 2);
    assert_eq!(infos[0].task_id, "b");
    assert_eq!(infos[0].reason.as_deref(), Some("needs a"));
    assert_eq!(infos[0].unmet_deps, vec!["a"]);
    assert_eq!(infos[1].task_id, "c");
    assert_eq!(infos[1].unmet_deps, vec!["x", "y"]);
}

#[test]
fn text_order_is_by_characters() {
    assert!(text_before("2025-01-01", "2025-01-02"));
    assert!(!text_before("2025-01-02", "2025-01-01"));
    assert!(text_before("abc", "abcd"));
    assert!(!text_before("abc", "abc"));
}

#[test]
fn comments_sort_newest_first_keeping_ties() {
    let sorted = sort_newest_first(vec![
        comment("old", "2025-01-01"),
        comment("new", "2025-03-01"),
        comment("mid-a", "2025-02-01"),
        comment("mid-b", "2025-02-01"),
    ]);
    let order: Vec<&str> = sorted.iter().map(|c| c.id.as_str()).collect();
    assert_eq!(order, vec!["new", "mid-a", "mid-b", "old"]);
}

#[test]
fn handoff_keeps_twenty_newest_comments() {
    let comments: Vec<Comment> = (0..25)
        .map(|i| comment(&format!("c{:02}", i), &format!("2025-01-{:02}", i + 1)))
        .collect();
    let h = handoff("agent-x", vec![task("a", "todo", "P1")], comments, Some("no network"), None, None, Vec::new());
    assert_eq!(h.to, "agent-x");
    assert_eq!(h.context.len(), 20);
    assert_eq!(h.context[0].id, "c24");
    assert_eq!(h.context[19].id, "c05");
    assert_eq!(h.constraints.as_deref(), Some("no network"));
    assert!(h.acceptance_criteria.is_none());
}

#[test]
fn handoff_prompt_lists_everything_in_order() {
    let mut t = task("proj-task-1", "todo", "P1");
    t.description = Some("Do it".to_string());
    let mut c = comment("c1", "2025-01-01");
    c.author = Some("alice".to_string());
    let h = handoff(
        "agent-x",
        vec![t],
        vec![c, comment("c2", "2024-01-01")],
        Some("be quick"),
        Some("tests pass"),
        Some(r#"{"a":1}"#.to_string()),
        vec![SteeringInfo { path: "docs/style.md".to_string(), mode: "always".to_string(), content: Some("Use tabs".to_string()) }],
    );
    let text = format_handoff(&h);
    let expected = "<handoff>\nto: agent-x\n\n<tasks>\n- id: proj-task-1\n  title: Title proj-task-1\n  priority: P1\n  status: todo\n  description: Do it\n</tasks>\n\n<context>\n- [note] alice: content c1\n- [note] unknown: content c2\n</context>\n\n<constraints>\nbe quick\n</constraints>\n\n<acceptance_criteria>\ntests pass\n</acceptance_criteria>\n\n<output_schema>\n{\n  \"a\": 1\n}\n</output_schema>\n\n<steering count=\"1\">\nThe following standards and conventions must be followed:\n\n<steering_file path=\"docs/style.md\">\nUse tabs\n</steering_file>\n</steering>\n\n<instructions>\n1. Complete the assigned task(s) according to the context provided.\n2. Follow any constraints specified.\n3. Follow the steering documents for coding standards and conventions.\n4. Ensure acceptance criteria are met.\n5. Report findings using the output schema if provided.\n6. Update task status upon completion.\n</instructions>\n</handoff>\n";
    assert_eq!(text, expected);
}

#[test]
fn handoff_prompt_prints_braces_for_unparsable_schema() {
    let h = handoff("agent-x", Vec::new(), Vec::new(), None, None, Some("not json".to_string()), Vec::new());
    let text = format_handoff(&h);
    assert!(text.contains("<output_schema>\n{}\n</output_schema>\n\n"));
    assert!(!text.contains("<context>"));
    assert!(!text.contains("<steering"));
}
