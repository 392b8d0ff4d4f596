//! The worker runtime's decisions: configuration, backoff, pipeline steps and
//! the completion of runs.
use granary::json::parse_value;
use granary::models::config::{ActionConfig, OnError, StepConfig};
use granary::models::event::Event;
use granary::models::run::{Run, RunStatus};
use granary::services::runner::log_path;
use granary::services::template::PipelineContext;
use granary::services::worker_runtime::{
    backoff_with_jitter, calculate_backoff, decide_completion, finish_step, pipeline_command, resolve_pipeline_steps,
    step_env, step_footer, step_launch, Completion, ResolvedStep, WorkerRuntimeConfig, DEFAULT_BASE_DELAY_SECS,
    DEFAULT_MAX_ATTEMPTS, DEFAULT_POLL_INTERVAL_MS,
};
use std::path::Path;

#[test]
fn worker_runtime_test_calculate_backoff_first_attempt() {
    let delay = calculate_backoff(1, 5);
    // First attempt: 5 seconds + 0-1.25 seconds jitter
    assert!(delay.as_secs() >= 5 && delay.as_secs() <= 7);
}

#[test]
fn worker_runtime_test_calculate_backoff_second_attempt() {
    let delay = calculate_backoff(2, 5);
    // Second attempt: 10 seconds + 0-2.5 seconds jitter
    assert!(delay.as_secs() >= 10 && delay.as_secs() <= 13);
}

#[test]
fn test_calculate_backoff_exponential() {
    // Verify exponential growth (ignoring jitter)
    for attempt in 1..=5 {
        let delay = calculate_backoff(attempt, 5);
        let expected_base = 5 * 2u64.pow((attempt - 1) as u32);
        assert!(
            delay.as_secs() >= expected_base,
            "Attempt {}: expected >= {}, got {}",
            attempt,
            expected_base,
            delay.as_secs()
        );
    }
}

#[test]
fn test_calculate_backoff_capped() {
    // Very high attempt number should not overflow
    let delay = calculate_backoff(100, 5);
    // Should be capped at 2^10 = 1024 * 5 = 5120 seconds max base
    assert!(delay.as_secs() <= 6400); // 5120 + 25% jitter
}

#[test]
fn worker_runtime_test_default_config() {
    let config = WorkerRuntimeConfig::default();
    assert_eq!(config.base_delay_secs, DEFAULT_BASE_DELAY_SECS);
    assert_eq!(config.max_attempts, DEFAULT_MAX_ATTEMPTS);
    assert_eq!(config.poll_interval.as_millis(), DEFAULT_POLL_INTERVAL_MS as u128);
    assert!(config.log_dir.is_none());
}

#[test]
fn test_resolve_pipeline_steps_inline_command() {
    let steps = vec![
        StepConfig {
            name: Some("greet".to_string()),
            action: None,
            command: Some("echo".to_string()),
            args: Some(vec!["hello".to_string()]),
            env: None,
            cwd: None,
            on_error: None,
        },
        StepConfig {
            name: None,
            action: None,
            command: Some("ls".to_string()),
            args: None,
            env: Some(vec![("FOO".to_string(), "bar".to_string())]),
            cwd: Some("/tmp".to_string()),
            on_error: Some(OnError::Continue),
        },
    ];

    let pipeline_env = vec![("GLOBAL".to_string(), "val".to_string())];
    let resolved = resolve_pipeline_steps(&steps, &pipeline_env, &[]).unwrap();

    assert_eq!(resolved.len(), 2);

    // First step: explicit name, explicit args
    assert_eq!(resolved[0].name, "greet");
    assert_eq!(resolved[0].command, "echo");
    assert_eq!(resolved[0].args, vec!["hello"]);
    // Pipeline env inherited
    assert!(resolved[0].env.iter().any(|(k, v)| k == "GLOBAL" && v == "val"));

    // Second step: auto-generated name (step_2), no explicit args -> empty
    assert_eq!(resolved[1].name, "step_2");
    assert_eq!(resolved[1].command, "ls");
    assert!(resolved[1].args.is_empty());
    assert_eq!(resolved[1].cwd, Some("/tmp".to_string()));
    // Step env overrides pipeline env
    assert!(resolved[1].env.iter().any(|(k, v)| k == "FOO" && v == "bar"));
    // Pipeline env also present
    assert!(resolved[1].env.iter().any(|(k, v)| k == "GLOBAL" && v == "val"));
    // on_error propagated
    assert!(matches!(resolved[1].on_error, OnError::Continue));
}

#[test]
fn test_resolve_pipeline_steps_missing_command_and_action() {
    let steps = vec![StepConfig {
        name: Some("bad".to_string()),
        action: None,
        command: None,
        args: None,
        env: None,
        cwd: None,
        on_error: None,
    }];

    let result = resolve_pipeline_steps(&steps, &vec![], &[]);
    assert!(result.is_err());
    assert!(result.unwrap_err().message().contains("bad"));
}

#[test]
fn test_resolve_pipeline_steps_action_reference_unknown() {
    let steps = vec![StepConfig {
        name: None,
        action: Some("nonexistent/action".to_string()),
        command: None,
        args: None,
        env: None,
        cwd: None,
        on_error: None,
    }];

    let result = resolve_pipeline_steps(&steps, &vec![], &[]);
    assert!(result.is_err());
    let err = result.unwrap_err().message();
    assert!(err.contains("nonexistent/action"), "Error should mention the missing action: {}", err);
}

#[test]
fn test_log_path() {
    let path = log_path("run-abc123", "/var/logs");
    assert_eq!(Path::new(&path), Path::new("/var/logs/run-abc123.log"));
}

#[test]
fn resolve_steps_from_actions_with_overrides() {
    let mut action = ActionConfig::new("git");
    action.args = vec!["worktree".to_string(), "add".to_string()];
    action.env = vec![("A".to_string(), "from-action".to_string()), ("B".to_string(), "b".to_string())];
    let actions = vec![("git/worktree-create".to_string(), action)];
    let steps = vec![StepConfig {
        name: None,
        action: Some("git/worktree-create".to_string()),
        command: None,
        args: None,
        env: Some(vec![("B".to_string(), "from-step".to_string())]),
        cwd: None,
        on_error: None,
    }];
    let pipeline_env = vec![("A".to_string(), "from-pipeline".to_string()), ("C".to_string(), "c".to_string())];
    let resolved = resolve_pipeline_steps(&steps, &pipeline_env, &actions).unwrap();
    let s = &resolved[0];
    assert_eq!(s.name, "step_1");
    assert_eq!(s.command, "git");
    assert_eq!(s.args, vec!["worktree", "add"]);
    assert!(matches!(s.on_error, OnError::Stop));
    let mut env = s.env.clone();
    env.sort();
    assert_eq!(
        env,
        vec![
            ("A".to_string(), "from-action".to_string()),
            ("B".to_string(), "from-step".to_string()),
            ("C".to_string(), "c".to_string()),
        ]
    );
}

#[test]
fn resolve_steps_action_without_command() {
    let mut action = ActionConfig::new("x");
    action.command = None;
    let actions = vec![("pipe".to_string(), action)];
    let steps = vec![StepConfig {
        name: Some("s".to_string()),
        action: Some("pipe".to_string()),
        command: None,
        args: None,
        env: None,
        cwd: None,
        on_error: None,
    }];
    let err = resolve_pipeline_steps(&steps, &vec![], &actions).unwrap_err();
    assert_eq!(
        err.message(),
        "Conflict: Step 's' references action 'pipe' which has no command defined (it may be a pipeline action)"
    );
}

#[test]
fn backoff_without_jitter_range_is_exact() {
    // base 1, attempt 1: delay 1, a quarter of it is 0, so no jitter
    assert_eq!(backoff_with_jitter(1, 1, 12345).as_secs(), 1);
    // base 8, attempt 2: delay 16, jitter is the draw modulo 4
    assert_eq!(backoff_with_jitter(2, 8, 7).as_secs(), 19);
    // from the eleventh attempt on the exponent stays at 10
    assert_eq!(backoff_with_jitter(50, 1, 0).as_secs(), 1024);
}

fn event(payload: &str) -> Event {
    Event {
        id: 1,
        event_type: "task.next".to_string(),
        entity_type: "task".to_string(),
        entity_id: "test-task-1".to_string(),
        actor: Some("test".to_string()),
        session_id: None,
        payload: payload.to_string(),
        created_at: "2026-02-15T10:00:00Z".to_string(),
    }
}

fn step(name: &str, args: Vec<&str>, cwd: Option<&str>, on_error: OnError) -> ResolvedStep {
    ResolvedStep {
        name: name.to_string(),
        command: "echo".to_string(),
        args: args.into_iter().map(|s| s.to_string()).collect(),
        env: vec![],
        cwd: cwd.map(|s| s.to_string()),
        on_error,
    }
}

#[test]
fn pipeline_steps_pass_outputs_forward() {
    let ev = event(r#"{"id": "task-42"}"#);
    let mut ctx = PipelineContext::new();
    let first = step("step1", vec!["hello-from-step1"], None, OnError::Stop);
    let launch = step_launch(&first, &ev, &ctx, "/work").unwrap();
    assert_eq!(launch.args, vec!["hello-from-step1"]);
    assert_eq!(launch.cwd, "/work");
    assert_eq!(launch.header, "=== [step:step1] started ===\n");
    assert!(finish_step(&mut ctx, &first, "hello-from-step1".to_string(), 0).is_ok());
    assert_eq!(step_footer("step1", 0), "=== [step:step1] exit_code=0 ===\n\n");

    let second = step("step2", vec!["got:{prev.stdout}", "task={id}"], Some("{prev.stdout}-dir"), OnError::Stop);
    let launch = step_launch(&second, &ev, &ctx, "/work").unwrap();
    assert_eq!(launch.args, vec!["got:hello-from-step1", "task=task-42"]);
    assert_eq!(launch.cwd, "hello-from-step1-dir");
    assert_eq!(launch.header, "=== [step:step2] started cwd=hello-from-step1-dir ===\n");
}

#[test]
fn pipeline_stops_on_failure_unless_told_to_continue() {
    let mut ctx = PipelineContext::new();
    let failing = step("fail-step", vec![], None, OnError::Stop);
    let err = finish_step(&mut ctx, &failing, String::new(), 1).unwrap_err();
    assert_eq!(err.message(), "Conflict: Pipeline step 'fail-step' failed with exit code 1 (on_error=stop)");
    let lenient = step("soft", vec![], None, OnError::Continue);
    assert!(finish_step(&mut ctx, &lenient, "partial-output".to_string(), 42).is_ok());
    assert_eq!(ctx.resolve("prev.exit_code"), Some("42".to_string()));
    assert_eq!(ctx.resolve("prev.stdout"), Some("partial-output".to_string()));
}

#[test]
fn step_env_substitutes_values_and_adds_ids() {
    let ev = event(r#"{"id": "proj-abc-task-5"}"#);
    let mut ctx = PipelineContext::new();
    let produce = step("produce", vec![], None, OnError::Stop);
    finish_step(&mut ctx, &produce, "/tmp/worktree-path".to_string(), 0).unwrap();
    let mut consume = step("consume", vec![], None, OnError::Stop);
    consume.env = vec![
        ("STEP_OUTPUT".to_string(), "{steps.produce.stdout}".to_string()),
        ("TASK_ID".to_string(), "{id}".to_string()),
    ];
    let env = step_env(&consume, &ev, &ctx, "w-1", "r-1").unwrap();
    assert_eq!(
        env,
        vec![
            ("STEP_OUTPUT".to_string(), "/tmp/worktree-path".to_string()),
            ("TASK_ID".to_string(), "proj-abc-task-5".to_string()),
            ("GRANARY_WORKER_ID".to_string(), "w-1".to_string()),
            ("GRANARY_RUN_ID".to_string(), "r-1".to_string()),
        ]
    );
}

#[test]
fn step_launch_reads_the_payload_only_when_needed() {
    let bad = event("not json");
    let ctx = PipelineContext::new();
    let plain = step("plain", vec![], None, OnError::Stop);
    assert!(step_launch(&plain, &bad, &ctx, "/w").is_ok());
    let templated = step("t", vec!["{id}"], None, OnError::Stop);
    assert!(step_launch(&templated, &bad, &ctx, "/w").is_err());
    assert!(parse_value("not json").is_err());
}

#[test]
fn pipeline_command_names_its_step_count() {
    assert_eq!(pipeline_command(3), "pipeline(3 steps)");
}

fn run(status: &str, attempt: i32, max_attempts: i32) -> Run {
    Run {
        id: "run-1".to_string(),
        worker_id: "worker-1".to_string(),
        event_id: 1,
        event_type: "task.created".to_string(),
        entity_id: "task-1".to_string(),
        command: "test".to_string(),
        args: "[]".to_string(),
        status: status.to_string(),
        exit_code: None,
        error_message: None,
        attempt,
        max_attempts,
        next_retry_at: None,
        pid: None,
        log_path: None,
        started_at: None,
        completed_at: None,
        created_at: "2025-01-01T00:00:00Z".to_string(),
        updated_at: "2025-01-01T00:00:00Z".to_string(),
    }
}

#[test]
fn completion_decisions() {
    match decide_completion(&run("running", 1, 3), 0, None, 5) {
        Completion::Succeeded(u) => {
            assert_eq!(u.status, RunStatus::Completed);
            assert_eq!(u.exit_code, Some(0));
        }
        other => panic!("unexpected: {:?}", other),
    }
    match decide_completion(&run("failed", 1, 3), 2, Some("boom".to_string()), 5) {
        Completion::Retry { attempt, delay } => {
            assert_eq!(attempt, 2);
            assert!(delay.as_secs() >= 5 && delay.as_secs() <= 6);
        }
        other => panic!("unexpected: {:?}", other),
    }
    match decide_completion(&run("running", 1, 3), 2, Some("boom".to_string()), 5) {
        Completion::Failed(u) => {
            assert_eq!(u.status, RunStatus::Failed);
            assert_eq!(u.exit_code, Some(2));
            assert_eq!(u.error_message, Some("boom".to_string()));
        }
        other => panic!("unexpected: {:?}", other),
    }
}
