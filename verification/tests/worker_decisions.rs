//! What a worker decides between its runs: retries to start, shutdown.
use granary::error::GranaryError;
use granary::models::run::{Run, RunStatus};
use granary::services::worker_runtime::{
    missing_pipeline_steps, missing_retry_event, retries_to_start, shutdown_cancellation, shutdown_step,
    ShutdownStep, SHUTDOWN_TIMEOUT_SECS,
};

fn run(id: &str, worker_id: &str) -> Run {
    Run {
        id: id.to_string(),
        worker_id: worker_id.to_string(),
        event_id: 1,
        event_type: "task.next".to_string(),
        entity_id: "p-task-1".to_string(),
        command: "echo".to_string(),
        args: "[]".to_string(),
        status: "pending".to_string(),
        exit_code: None,
        error_message: None,
        attempt: 2,
        max_attempts: 3,
        next_retry_at: Some("2026-01-01T00:00:00Z".to_string()),
        pid: None,
        log_path: None,
        started_at: None,
        completed_at: None,
        created_at: "2026-01-01T00:00:00Z".to_string(),
        updated_at: "2026-01-01T00:00:00Z".to_string(),
    }
}

#[test]
fn retries_fill_free_slots_in_order() {
    let pending = vec![run("r1", "w1"), run("r2", "w2"), run("r3", "w1"), run("r4", "w1")];
    assert_eq!(retries_to_start(&pending, "w1", 3, 0), vec![0, 2]);
    assert_eq!(retries_to_start(&pending, "w1", 4, 0), vec![0, 2, 3]);
    assert_eq!(retries_to_start(&pending, "w1", 3, 2), vec![0]);
    assert!(retries_to_start(&pending, "w1", 2, 2).is_empty());
    assert_eq!(retries_to_start(&pending, "w2", 10, 0), vec![1]);
}

#[test]
fn shutdown_waits_then_kills() {
    assert_eq!(SHUTDOWN_TIMEOUT_SECS, 30);
    assert_eq!(shutdown_step(0, false), ShutdownStep::Finished);
    assert_eq!(shutdown_step(0, true), ShutdownStep::Finished);
    assert_eq!(shutdown_step(2, false), ShutdownStep::Wait);
    assert_eq!(shutdown_step(2, true), ShutdownStep::KillRemaining);
    let c = shutdown_cancellation();
    assert_eq!(c.status, RunStatus::Cancelled);
    assert_eq!(c.error_message.as_deref(), Some("Killed during worker shutdown"));
}

#[test]
fn pipeline_errors_name_what_is_missing() {
    match missing_pipeline_steps("worker-1") {
        GranaryError::Conflict(m) => assert_eq!(m, "Worker worker-1 is marked as pipeline but has no pipeline_steps"),
        _ => panic!("expected a conflict"),
    }
    match missing_retry_event("run-1", 42) {
        GranaryError::Conflict(m) => {
            assert_eq!(m, "Cannot retry pipeline run run-1: original event 42 not found in workspace DB")
        }
        _ => panic!("expected a conflict"),
    }
}
