//! Runs: single executions of a runner process spawned by a worker.
use vstd::prelude::*;
use crate::text::{views, is_lower_ascii, lowercase, owned, text_eq, to_lowercase};
use crate::json::{strings_from_json, strings_or_empty};

verus! {

/// Lifecycle state of a runner execution.
#[derive(Debug, Clone, Copy, PartialEq, Eq, Structural)]
pub enum RunStatus {
    /// Queued, waiting to start.
    Pending,
    /// Currently executing.
    Running,
    /// Finished successfully (exit code 0).
    Completed,
    /// Finished with an error (exit code other than 0).
    Failed,
    /// Paused by hand.
    Paused,
    /// Cancelled by hand.
    Cancelled,
}

impl RunStatus {
    /// The stored name.
    pub open spec fn name(self) -> Seq<char> {
        match self {
            RunStatus::Pending => "pending"@,
            RunStatus::Running => "running"@,
            RunStatus::Completed => "completed"@,
            RunStatus::Failed => "failed"@,
            RunStatus::Paused => "paused"@,
            RunStatus::Cancelled => "cancelled"@,
        }
    }

    /// The value a lower-cased name stands for.
    pub open spec fn from_name(s: Seq<char>) -> Option<RunStatus> {
        if s == "pending"@ {
            Some(RunStatus::Pending)
        } else if s == "running"@ {
            Some(RunStatus::Running)
        } else if s == "completed"@ {
            Some(RunStatus::Completed)
        } else if s == "failed"@ {
            Some(RunStatus::Failed)
        } else if s == "paused"@ {
            Some(RunStatus::Paused)
        } else if s == "cancelled"@ {
            Some(RunStatus::Cancelled)
        } else {
            None
        }
    }

    pub fn as_str(&self) -> (r: &'static str)
        ensures
            r@ == self.name(),
    {
        match self {
            RunStatus::Pending => "pending",
            RunStatus::Running => "running",
            RunStatus::Completed => "completed",
            RunStatus::Failed => "failed",
            RunStatus::Paused => "paused",
            RunStatus::Cancelled => "cancelled",
        }
    }

    /// Parses a name case-insensitively.
    pub fn parse_name(s: &str) -> (r: Result<RunStatus, ()>)
        ensures
            r == (match Self::from_name(lowercase(s@)) {
                Some(t) => Ok(t),
                None => Err::<RunStatus, ()>(()),
            }),
            is_lower_ascii(s@) ==> r == (match Self::from_name(s@) {
                Some(t) => Ok(t),
                None => Err::<RunStatus, ()>(()),
            }),
    {
        let l = to_lowercase(s);
        let l = l.as_str();
        if text_eq(l, "pending") {
            Ok(RunStatus::Pending)
        } else if text_eq(l, "running") {
            Ok(RunStatus::Running)
        } else if text_eq(l, "completed") {
            Ok(RunStatus::Completed)
        } else if text_eq(l, "failed") {
            Ok(RunStatus::Failed)
        } else if text_eq(l, "paused") {
            Ok(RunStatus::Paused)
        } else if text_eq(l, "cancelled") {
            Ok(RunStatus::Cancelled)
        } else {
            Err(())
        }
    }

    /// The stored name as an owned string (what the type displays as).
    pub fn to_string(&self) -> (r: String)
        ensures
            r@ == self.name(),
    {
        owned(self.as_str())
    }
}

impl Default for RunStatus {
    fn default() -> (r: Self)
        ensures
            r == RunStatus::Pending,
    {
        RunStatus::Pending
    }
}

impl std::str::FromStr for RunStatus {
    type Err = ();

    fn from_str(s: &str) -> Result<Self, Self::Err> {
        RunStatus::parse_name(s)
    }
}

/// Parsing the stored name of a `RunStatus` gives the value back, and the
/// stored names are lower-case ASCII, so parsing them ignores case.
pub proof fn law_run_status_round_trip(t: RunStatus)
    ensures
        RunStatus::from_name(t.name()) == Some(t),
        is_lower_ascii(t.name()),
{
    reveal_strlit("cancelled");
    reveal_strlit("completed");
    reveal_strlit("failed");
    reveal_strlit("paused");
    reveal_strlit("pending");
    reveal_strlit("running");
    assert("cancelled"@.len() == 9 && "completed"@.len() == 9 && "failed"@.len() == 6 && "paused"@.len() == 6 && "pending"@.len() == 7 && "running"@.len() == 7);
    assert("cancelled"@[1] != "completed"@[1]);
    assert("failed"@[0] != "paused"@[0]);
    assert("pending"@[0] != "running"@[0]);
}

/// The status a stored status name stands for, `Pending` when it is not
/// recognised.
pub open spec fn run_status_of(s: Seq<char>) -> RunStatus {
    match RunStatus::from_name(lowercase(s)) {
        Some(t) => t,
        None => RunStatus::Pending,
    }
}

/// One execution of a runner process, spawned by a worker for an event.
///
/// Runs retry with exponential backoff.
#[derive(Debug, Clone)]
pub struct Run {
    /// Identifier: run-<8 characters>
    pub id: String,
    /// The worker that spawned the run
    pub worker_id: String,
    /// The event that triggered the run
    pub event_id: i64,
    /// Event type, such as "task.unblocked"
    pub event_type: String,
    /// Entity that triggered the event, such as a task id
    pub entity_id: String,
    /// Resolved command
    pub command: String,
    /// Resolved arguments, as a JSON array
    pub args: String,
    /// Status name: pending, running, completed, failed, paused, cancelled
    pub status: String,
    /// Exit code once completed or failed
    pub exit_code: Option<i32>,
    /// Error message when failed
    pub error_message: Option<String>,
    /// Attempt number, from 1
    pub attempt: i32,
    /// Attempts allowed before giving up
    pub max_attempts: i32,
    /// When to retry, RFC 3339
    pub next_retry_at: Option<String>,
    /// Process id while running
    pub pid: Option<i64>,
    /// Log file of the process output
    pub log_path: Option<String>,
    pub started_at: Option<String>,
    pub completed_at: Option<String>,
    pub created_at: String,
    pub updated_at: String,
}

impl Run {
    /// The run's status, `Pending` when the stored name is not recognised.
    pub fn status_enum(&self) -> (r: RunStatus)
        ensures
            r == run_status_of(self.status@),
    {
        match RunStatus::parse_name(self.status.as_str()) {
            Ok(t) => t,
            Err(_) => RunStatus::Pending,
        }
    }

    /// The arguments, empty when the stored text is not a JSON list of strings.
    pub fn args_vec(&self) -> (r: Vec<String>)
        ensures
            views(r@) == strings_or_empty(self.args@),
    {
        strings_from_json(self.args.as_str())
    }

    /// The run is executing.
    pub fn is_running(&self) -> (r: bool)
        ensures
            r == (run_status_of(self.status@) == RunStatus::Running),
    {
        self.status_enum() == RunStatus::Running
    }

    /// The run has finished: completed, failed or cancelled.
    pub fn is_finished(&self) -> (r: bool)
        ensures
            r == (run_status_of(self.status@) == RunStatus::Completed
                || run_status_of(self.status@) == RunStatus::Failed
                || run_status_of(self.status@) == RunStatus::Cancelled),
    {
        let s = self.status_enum();
        s == RunStatus::Completed || s == RunStatus::Failed || s == RunStatus::Cancelled
    }

    /// The run failed and has attempts left.
    pub fn can_retry(&self) -> (r: bool)
        ensures
            r == (run_status_of(self.status@) == RunStatus::Failed && self.attempt < self.max_attempts),
    {
        self.status_enum() == RunStatus::Failed && self.attempt < self.max_attempts
    }

    /// The run waits for a retry: pending after a first attempt.
    pub fn is_pending_retry(&self) -> (r: bool)
        ensures
            r == (run_status_of(self.status@) == RunStatus::Pending && self.attempt > 1),
    {
        self.status_enum() == RunStatus::Pending && self.attempt > 1
    }
}

/// Input for creating a run.
#[derive(Debug, Clone)]
pub struct CreateRun {
    pub worker_id: String,
    pub event_id: i64,
    pub event_type: String,
    pub entity_id: String,
    pub command: String,
    pub args: Vec<String>,
    pub max_attempts: i32,
    pub log_path: Option<String>,
}

impl Default for CreateRun {
    fn default() -> (r: Self)
        ensures
            r.worker_id@.len() == 0,
            r.event_id == 0,
            r.event_type@.len() == 0,
            r.entity_id@.len() == 0,
            r.command@.len() == 0,
            r.args@.len() == 0,
            r.max_attempts == 3,
            r.log_path is None,
    {
        CreateRun {
            worker_id: String::new(),
            event_id: 0,
            event_type: String::new(),
            entity_id: String::new(),
            command: String::new(),
            args: Vec::new(),
            max_attempts: 3,
            log_path: None,
        }
    }
}

/// Input for updating a run's status.
#[derive(Debug, Clone)]
pub struct UpdateRunStatus {
    pub status: RunStatus,
    pub exit_code: Option<i32>,
    pub error_message: Option<String>,
    pub pid: Option<i64>,
}

/// Input for scheduling a retry.
#[derive(Debug, Clone)]
pub struct ScheduleRetry {
    pub next_retry_at: String,
    pub attempt: i32,
}

} // verus!
