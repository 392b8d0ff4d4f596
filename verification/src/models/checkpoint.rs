//! Checkpoints: named snapshots of a session's state.
use vstd::prelude::*;

verus! {

/// A checkpoint row (the snapshot as JSON text).
#[derive(Debug, Clone)]
pub struct Checkpoint {
    pub id: String,
    pub session_id: String,
    pub name: String,
    pub snapshot: String,
    pub created_at: String,
}

/// The session's own properties at checkpoint time.
#[derive(Debug, Clone)]
pub struct SessionSnapshotData {
    pub id: String,
    pub name: Option<String>,
    pub owner: Option<String>,
    pub mode: Option<String>,
    pub focus_task_id: Option<String>,
}

/// An item of the session's scope at checkpoint time.
#[derive(Debug, Clone)]
pub struct ScopeItem {
    pub item_type: String,
    pub item_id: String,
}

/// A task's state at checkpoint time.
#[derive(Debug)]
pub struct TaskSnapshot {
    pub id: String,
    pub status: String,
    pub priority: String,
    pub owner: Option<String>,
    pub blocked_reason: Option<String>,
    pub pinned: bool,
    pub focus_weight: i64,
}

impl Clone for TaskSnapshot {
    fn clone(&self) -> (r: Self)
        ensures
            r == *self,
    {
        TaskSnapshot {
            id: self.id.clone(),
            status: self.status.clone(),
            priority: self.priority.clone(),
            owner: match &self.owner {
                Some(o) => Some(o.clone()),
                None => None,
            },
            blocked_reason: match &self.blocked_reason {
                Some(b) => Some(b.clone()),
                None => None,
            },
            pinned: self.pinned,
            focus_weight: self.focus_weight,
        }
    }
}

/// Snapshot of a session's state (variables as key/value pairs).
#[derive(Debug, Clone)]
pub struct SessionSnapshot {
    pub session: SessionSnapshotData,
    pub scope: Vec<ScopeItem>,
    pub tasks: Vec<TaskSnapshot>,
    pub variables: Vec<(String, String)>,
}

/// Input for creating a checkpoint.
#[derive(Debug)]
pub struct CreateCheckpoint {
    pub session_id: String,
    pub name: String,
}

} // verus!
