//! Workers: processes that subscribe to events and spawn runners.
use vstd::prelude::*;
use crate::text::{views, is_lower_ascii, lowercase, owned, text_eq, to_lowercase};
use crate::json::{strings_from_json, strings_or_empty};

verus! {

/// Lifecycle state of a worker.
#[derive(Debug, Clone, Copy, PartialEq, Eq, Structural)]
pub enum WorkerStatus {
    Pending,
    Running,
    Stopped,
    Error,
}

impl WorkerStatus {
    /// The stored name.
    pub open spec fn name(self) -> Seq<char> {
        match self {
            WorkerStatus::Pending => "pending"@,
            WorkerStatus::Running => "running"@,
            WorkerStatus::Stopped => "stopped"@,
            WorkerStatus::Error => "error"@,
        }
    }

    /// The value a lower-cased name stands for.
    pub open spec fn from_name(s: Seq<char>) -> Option<WorkerStatus> {
        if s == "pending"@ {
            Some(WorkerStatus::Pending)
        } else if s == "running"@ {
            Some(WorkerStatus::Running)
        } else if s == "stopped"@ {
            Some(WorkerStatus::Stopped)
        } else if s == "error"@ {
            Some(WorkerStatus::Error)
        } else {
            None
        }
    }

    pub fn as_str(&self) -> (r: &'static str)
        ensures
            r@ == self.name(),
    {
        match self {
            WorkerStatus::Pending => "pending",
            WorkerStatus::Running => "running",
            WorkerStatus::Stopped => "stopped",
            WorkerStatus::Error => "error",
        }
    }

    /// Parses a name case-insensitively.
    pub fn parse_name(s: &str) -> (r: Result<WorkerStatus, ()>)
        ensures
            r == (match Self::from_name(lowercase(s@)) {
                Some(t) => Ok(t),
                None => Err::<WorkerStatus, ()>(()),
            }),
            is_lower_ascii(s@) ==> r == (match Self::from_name(s@) {
                Some(t) => Ok(t),
                None => Err::<WorkerStatus, ()>(()),
            }),
    {
        let l = to_lowercase(s);
        let l = l.as_str();
        if text_eq(l, "pending") {
            Ok(WorkerStatus::Pending)
        } else if text_eq(l, "running") {
            Ok(WorkerStatus::Running)
        } else if text_eq(l, "stopped") {
            Ok(WorkerStatus::Stopped)
        } else if text_eq(l, "error") {
            Ok(WorkerStatus::Error)
        } else {
            Err(())
        }
    }

    /// The stored name as an owned string (what the type displays as).
    pub fn to_string(&self) -> (r: String)
        ensures
            r@ == self.name(),
    {
        owned(self.as_str())
    }
}

impl Default for WorkerStatus {
    fn default() -> (r: Self)
        ensures
            r == WorkerStatus::Pending,
    {
        WorkerStatus::Pending
    }
}

impl std::str::FromStr for WorkerStatus {
    type Err = ();

    fn from_str(s: &str) -> Result<Self, Self::Err> {
        WorkerStatus::parse_name(s)
    }
}

/// Parsing the stored name of a `WorkerStatus` gives the value back, and the
/// stored names are lower-case ASCII, so parsing them ignores case.
pub proof fn law_worker_status_round_trip(t: WorkerStatus)
    ensures
        WorkerStatus::from_name(t.name()) == Some(t),
        is_lower_ascii(t.name()),
{
    reveal_strlit("error");
    reveal_strlit("pending");
    reveal_strlit("running");
    reveal_strlit("stopped");
    assert("error"@.len() == 5 && "pending"@.len() == 7 && "running"@.len() == 7 && "stopped"@.len() == 7);
    assert("pending"@[0] != "running"@[0]);
    assert("pending"@[0] != "stopped"@[0]);
    assert("running"@[0] != "stopped"@[0]);
}

/// The status a stored status name stands for, `Pending` when it is not
/// recognised.
pub open spec fn worker_status_of(s: Seq<char>) -> WorkerStatus {
    match WorkerStatus::from_name(lowercase(s)) {
        Some(t) => t,
        None => WorkerStatus::Pending,
    }
}

/// A worker row.
#[derive(Debug, Clone)]
pub struct Worker {
    pub id: String,
    pub runner_name: Option<String>,
    pub command: String,
    /// Arguments, as a JSON array
    pub args: String,
    pub event_type: String,
    /// Filter expressions, as a JSON array
    pub filters: String,
    pub concurrency: i32,
    pub instance_path: String,
    pub status: String,
    pub error_message: Option<String>,
    pub pid: Option<i64>,
    pub detached: bool,
    pub created_at: String,
    pub updated_at: String,
    pub stopped_at: Option<String>,
    pub last_event_id: i64,
}

impl Worker {
    /// The worker's status, `Pending` when the stored name is not recognised.
    pub fn status_enum(&self) -> (r: WorkerStatus)
        ensures
            r == worker_status_of(self.status@),
    {
        match WorkerStatus::parse_name(self.status.as_str()) {
            Ok(t) => t,
            Err(_) => WorkerStatus::Pending,
        }
    }

    /// The arguments, empty when the stored text is not a JSON list of strings.
    pub fn args_vec(&self) -> (r: Vec<String>)
        ensures
            views(r@) == strings_or_empty(self.args@),
    {
        strings_from_json(self.args.as_str())
    }

    /// The filters, empty when the stored text is not a JSON list of strings.
    pub fn filters_vec(&self) -> (r: Vec<String>)
        ensures
            views(r@) == strings_or_empty(self.filters@),
    {
        strings_from_json(self.filters.as_str())
    }

    /// The worker is running.
    pub fn is_running(&self) -> (r: bool)
        ensures
            r == (worker_status_of(self.status@) == WorkerStatus::Running),
    {
        self.status_enum() == WorkerStatus::Running
    }

    /// The worker has stopped, normally or with an error.
    pub fn is_stopped(&self) -> (r: bool)
        ensures
            r == (worker_status_of(self.status@) == WorkerStatus::Stopped
                || worker_status_of(self.status@) == WorkerStatus::Error),
    {
        let s = self.status_enum();
        s == WorkerStatus::Stopped || s == WorkerStatus::Error
    }
}

/// Input for creating a worker.
#[derive(Debug, Clone)]
pub struct CreateWorker {
    pub runner_name: Option<String>,
    pub command: String,
    pub args: Vec<String>,
    pub event_type: String,
    pub filters: Vec<String>,
    pub concurrency: i32,
    pub instance_path: String,
    pub detached: bool,
    pub since: Option<String>,
}

impl Default for CreateWorker {
    fn default() -> (r: Self)
        ensures
            r.runner_name is None,
            r.command@.len() == 0,
            r.args@.len() == 0,
            r.event_type@.len() == 0,
            r.filters@.len() == 0,
            r.concurrency == 1,
            r.instance_path@.len() == 0,
            !r.detached,
            r.since is None,
    {
        CreateWorker {
            runner_name: None,
            command: String::new(),
            args: Vec::new(),
            event_type: String::new(),
            filters: Vec::new(),
            concurrency: 1,
            instance_path: String::new(),
            detached: false,
            since: None,
        }
    }
}

/// Input for updating a worker's status.
#[derive(Debug, Clone)]
pub struct UpdateWorkerStatus {
    pub status: WorkerStatus,
    pub error_message: Option<String>,
    pub pid: Option<i64>,
}

} // verus!
