//! Template substitution from events, and the outputs of pipeline steps.
use granary::models::event::Event;
use granary::services::template::{
    substitute, substitute_all, substitute_all_with_context, substitute_with_context, PipelineContext,
    StepOutput,
};

fn create_test_event(payload: &str) -> Event {
    Event {
        id: 42,
        event_type: "task.started".to_string(),
        entity_type: "task".to_string(),
        entity_id: "test-task-1".to_string(),
        actor: Some("test-actor".to_string()),
        session_id: None,
        payload: payload.to_string(),
        created_at: "2024-01-15T10:00:00Z".to_string(),
    }
}

#[test]
fn test_substitute_event_fields() {
    let event = create_test_event("{}");

    assert_eq!(substitute("{event.id}", &event).unwrap(), "42");
    assert_eq!(substitute("{event.type}", &event).unwrap(), "task.started");
    assert_eq!(
        substitute("{event.entity_id}", &event).unwrap(),
        "test-task-1"
    );
}

#[test]
fn test_substitute_task_fields() {
    let payload =
        r#"{"task": {"id": "proj-abc-task-1", "title": "Test Task", "status": "in_progress"}}"#;
    let event = create_test_event(payload);

    assert_eq!(substitute("{task.id}", &event).unwrap(), "proj-abc-task-1");
    assert_eq!(substitute("{task.title}", &event).unwrap(), "Test Task");
    assert_eq!(substitute("{task.status}", &event).unwrap(), "in_progress");
}

#[test]
fn test_substitute_project_fields() {
    let payload = r#"{"project": {"id": "proj-xyz", "name": "My Project"}}"#;
    let event = create_test_event(payload);

    assert_eq!(substitute("{project.id}", &event).unwrap(), "proj-xyz");
    assert_eq!(substitute("{project.name}", &event).unwrap(), "My Project");
}

#[test]
fn test_substitute_mixed_template() {
    let payload = r#"{"task": {"id": "task-1"}, "project": {"id": "proj-1"}}"#;
    let event = create_test_event(payload);

    let result = substitute(
        "granary execute --task {task.id} --project {project.id}",
        &event,
    )
    .unwrap();
    assert_eq!(result, "granary execute --task task-1 --project proj-1");
}

#[test]
fn test_substitute_unknown_placeholder() {
    let event = create_test_event("{}");

    // Unknown placeholders become empty strings
    assert_eq!(substitute("{unknown.field}", &event).unwrap(), "");
    assert_eq!(
        substitute("prefix-{unknown}-suffix", &event).unwrap(),
        "prefix--suffix"
    );
}

#[test]
fn template_test_substitute_no_placeholders() {
    let event = create_test_event("{}");

    assert_eq!(
        substitute("no placeholders here", &event).unwrap(),
        "no placeholders here"
    );
}

#[test]
fn test_substitute_all() {
    let payload = r#"{"task": {"id": "task-1"}}"#;
    let event = create_test_event(payload);

    let templates = vec![
        "arg1".to_string(),
        "{task.id}".to_string(),
        "--event={event.id}".to_string(),
    ];

    let result = substitute_all(&templates, &event).unwrap();
    assert_eq!(result, vec!["arg1", "task-1", "--event=42"]);
}

#[test]
fn test_substitute_numeric_values() {
    let payload = r#"{"count": 42, "enabled": true}"#;
    let event = create_test_event(payload);

    assert_eq!(substitute("{count}", &event).unwrap(), "42");
    assert_eq!(substitute("{enabled}", &event).unwrap(), "true");
}

// --- PipelineContext unit tests ---

#[test]
fn test_pipeline_context_resolve_steps_stdout() {
    let mut ctx = PipelineContext::new();
    ctx.add_step(
        "git/worktree-create".to_string(),
        StepOutput {
            stdout: "/tmp/granary-proj-abc1-task-3".to_string(),
            exit_code: 0,
        },
    );

    assert_eq!(
        ctx.resolve("steps.git/worktree-create.stdout"),
        Some("/tmp/granary-proj-abc1-task-3".to_string())
    );
}

#[test]
fn test_pipeline_context_resolve_steps_exit_code() {
    let mut ctx = PipelineContext::new();
    ctx.add_step(
        "git/worktree-create".to_string(),
        StepOutput {
            stdout: "/tmp/path".to_string(),
            exit_code: 0,
        },
    );

    assert_eq!(
        ctx.resolve("steps.git/worktree-create.exit_code"),
        Some("0".to_string())
    );
}

#[test]
fn test_pipeline_context_resolve_steps_nonzero_exit() {
    let mut ctx = PipelineContext::new();
    ctx.add_step(
        "build".to_string(),
        StepOutput {
            stdout: "".to_string(),
            exit_code: 1,
        },
    );

    assert_eq!(ctx.resolve("steps.build.exit_code"), Some("1".to_string()));
}

#[test]
fn test_pipeline_context_resolve_prev_stdout() {
    let mut ctx = PipelineContext::new();
    ctx.add_step(
        "step-a".to_string(),
        StepOutput {
            stdout: "output-a".to_string(),
            exit_code: 0,
        },
    );
    ctx.add_step(
        "step-b".to_string(),
        StepOutput {
            stdout: "output-b".to_string(),
            exit_code: 0,
        },
    );

    assert_eq!(ctx.resolve("prev.stdout"), Some("output-b".to_string()));
}

#[test]
fn test_pipeline_context_resolve_prev_exit_code() {
    let mut ctx = PipelineContext::new();
    ctx.add_step(
        "first".to_string(),
        StepOutput {
            stdout: "".to_string(),
            exit_code: 42,
        },
    );

    assert_eq!(ctx.resolve("prev.exit_code"), Some("42".to_string()));
}

#[test]
fn test_pipeline_context_resolve_prev_tracks_last_added() {
    let mut ctx = PipelineContext::new();
    ctx.add_step(
        "first".to_string(),
        StepOutput {
            stdout: "first-out".to_string(),
            exit_code: 0,
        },
    );
    assert_eq!(ctx.resolve("prev.stdout"), Some("first-out".to_string()));

    ctx.add_step(
        "second".to_string(),
        StepOutput {
            stdout: "second-out".to_string(),
            exit_code: 0,
        },
    );
    assert_eq!(ctx.resolve("prev.stdout"), Some("second-out".to_string()));
}

#[test]
fn test_pipeline_context_resolve_unknown_step() {
    let ctx = PipelineContext::new();

    assert_eq!(ctx.resolve("steps.nonexistent.stdout"), None);
}

#[test]
fn test_pipeline_context_resolve_prev_empty_context() {
    let ctx = PipelineContext::new();

    assert_eq!(ctx.resolve("prev.stdout"), None);
    assert_eq!(ctx.resolve("prev.exit_code"), None);
}

#[test]
fn test_pipeline_context_resolve_unknown_field() {
    let mut ctx = PipelineContext::new();
    ctx.add_step(
        "test".to_string(),
        StepOutput {
            stdout: "out".to_string(),
            exit_code: 0,
        },
    );

    // Unknown suffix - neither .stdout nor .exit_code
    assert_eq!(ctx.resolve("steps.test.stderr"), None);
    assert_eq!(ctx.resolve("prev.stderr"), None);
}

#[test]
fn test_pipeline_context_resolve_no_prefix_match() {
    let mut ctx = PipelineContext::new();
    ctx.add_step(
        "test".to_string(),
        StepOutput {
            stdout: "out".to_string(),
            exit_code: 0,
        },
    );

    // Not a pipeline path at all
    assert_eq!(ctx.resolve("task.id"), None);
    assert_eq!(ctx.resolve("event.type"), None);
}

#[test]
fn test_pipeline_context_namespaced_step_with_dashes() {
    let mut ctx = PipelineContext::new();
    ctx.add_step(
        "agents/coder-work".to_string(),
        StepOutput {
            stdout: "coder output".to_string(),
            exit_code: 0,
        },
    );

    assert_eq!(
        ctx.resolve("steps.agents/coder-work.stdout"),
        Some("coder output".to_string())
    );
    assert_eq!(
        ctx.resolve("steps.agents/coder-work.exit_code"),
        Some("0".to_string())
    );
}

// --- substitute_with_context tests ---

#[test]
fn test_substitute_with_context_pipeline_templates() {
    let event = create_test_event(r#"{"id": "task-1"}"#);
    let mut ctx = PipelineContext::new();
    ctx.add_step(
        "git/worktree-create".to_string(),
        StepOutput {
            stdout: "/tmp/worktree".to_string(),
            exit_code: 0,
        },
    );

    let result = substitute_with_context(
        "cd {steps.git/worktree-create.stdout} && run {id}",
        &event,
        Some(&ctx),
    )
    .unwrap();
    assert_eq!(result, "cd /tmp/worktree && run task-1");
}

#[test]
fn test_substitute_with_context_prev_templates() {
    let event = create_test_event(r#"{}"#);
    let mut ctx = PipelineContext::new();
    ctx.add_step(
        "step1".to_string(),
        StepOutput {
            stdout: "hello world".to_string(),
            exit_code: 0,
        },
    );

    assert_eq!(
        substitute_with_context("{prev.stdout}", &event, Some(&ctx)).unwrap(),
        "hello world"
    );
    assert_eq!(
        substitute_with_context("{prev.exit_code}", &event, Some(&ctx)).unwrap(),
        "0"
    );
}

#[test]
fn test_substitute_with_context_pipeline_takes_priority() {
    // If there's a pipeline context, it's checked first
    let event = create_test_event(r#"{"steps": "event-value"}"#);
    let mut ctx = PipelineContext::new();
    ctx.add_step(
        "x".to_string(),
        StepOutput {
            stdout: "pipeline-value".to_string(),
            exit_code: 0,
        },
    );

    // {steps.x.stdout} resolves from pipeline, not event payload
    let result = substitute_with_context("{steps.x.stdout}", &event, Some(&ctx)).unwrap();
    assert_eq!(result, "pipeline-value");
}

#[test]
fn test_substitute_with_context_none_falls_through() {
    // With None pipeline context, behaves exactly like substitute
    let event = create_test_event(r#"{"id": "task-1"}"#);

    let result = substitute_with_context("{id}", &event, None).unwrap();
    assert_eq!(result, "task-1");

    // Pipeline templates resolve to empty with no context
    let result = substitute_with_context("{steps.x.stdout}", &event, None).unwrap();
    assert_eq!(result, "");
}

#[test]
fn test_substitute_with_context_mixed_pipeline_and_event() {
    let event = create_test_event(r#"{"id": "task-5"}"#);
    let mut ctx = PipelineContext::new();
    ctx.add_step(
        "notify/macos".to_string(),
        StepOutput {
            stdout: "notified".to_string(),
            exit_code: 0,
        },
    );

    let result = substitute_with_context(
        "Task {id}: prev={prev.stdout}, exit={steps.notify/macos.exit_code}",
        &event,
        Some(&ctx),
    )
    .unwrap();
    assert_eq!(result, "Task task-5: prev=notified, exit=0");
}

#[test]
fn test_substitute_all_with_context() {
    let event = create_test_event(r#"{"id": "task-1"}"#);
    let mut ctx = PipelineContext::new();
    ctx.add_step(
        "build".to_string(),
        StepOutput {
            stdout: "ok".to_string(),
            exit_code: 0,
        },
    );

    let templates = vec![
        "{id}".to_string(),
        "{prev.stdout}".to_string(),
        "--exit={steps.build.exit_code}".to_string(),
    ];

    let result = substitute_all_with_context(&templates, &event, Some(&ctx)).unwrap();
    assert_eq!(result, vec!["task-1", "ok", "--exit=0"]);
}

#[test]
fn recording_a_step_again_replaces_only_its_paths() {
    let mut ctx = PipelineContext::new();
    ctx.add_step("a".to_string(), StepOutput { stdout: "one".to_string(), exit_code: 1 });
    ctx.add_step("b".to_string(), StepOutput { stdout: "two".to_string(), exit_code: 2 });
    ctx.add_step("a".to_string(), StepOutput { stdout: "three".to_string(), exit_code: 3 });
    assert_eq!(ctx.resolve("steps.a.stdout"), Some("three".to_string()));
    assert_eq!(ctx.resolve("steps.a.exit_code"), Some("3".to_string()));
    assert_eq!(ctx.resolve("steps.b.stdout"), Some("two".to_string()));
    assert_eq!(ctx.resolve("steps.b.exit_code"), Some("2".to_string()));
    assert_eq!(ctx.resolve("prev.stdout"), Some("three".to_string()));
    assert_eq!(ctx.resolve("prev.stderr"), None);
    assert_eq!(ctx.resolve("steps.a.stderr"), None);
    assert_eq!(ctx.resolve("task.id"), None);
}
