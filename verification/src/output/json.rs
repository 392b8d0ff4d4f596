//! The records that command outputs are built from: a task with its
//! blockers, work summaries, context packs and handoffs. Their JSON form is
//! written by the application around the library.
use vstd::prelude::*;
use crate::models::artifact::Artifact;
use crate::models::project::Project;
use crate::models::task::{Comment, Task};

verus! {

/// A task with the ids of the tasks that block it (unmet dependencies).
#[derive(Debug, Clone)]
pub struct TaskOutput {
    pub task: Task,
    /// Ids of the unfinished tasks it depends on
    pub blocked_by: Vec<String>,
}

impl TaskOutput {
    pub fn new(task: Task, blocked_by: Vec<String>) -> (r: TaskOutput)
        ensures
            r.task == task,
            r.blocked_by == blocked_by,
    {
        TaskOutput { task, blocked_by }
    }

    /// A task with no blockers.
    pub fn from_task(task: Task) -> (r: TaskOutput)
        ensures
            r.task == task,
            r.blocked_by@.len() == 0,
    {
        TaskOutput { task, blocked_by: Vec::new() }
    }
}

/// The session part of a summary or context pack.
#[derive(Debug, Clone)]
pub struct SessionSummary {
    pub id: String,
    pub name: Option<String>,
    pub mode: Option<String>,
    pub owner: Option<String>,
    pub focus_task_id: Option<String>,
}

/// Task counts by status.
#[derive(Debug, Clone, Default)]
pub struct StatusCounts {
    pub todo: usize,
    pub in_progress: usize,
    pub done: usize,
    pub blocked: usize,
}

/// Task counts by priority.
#[derive(Debug, Clone, Default)]
pub struct PriorityCounts {
    pub p0: usize,
    pub p1: usize,
    pub p2: usize,
    pub p3: usize,
    pub p4: usize,
}

/// The state of work: task counts.
#[derive(Debug, Clone)]
pub struct StateSummary {
    pub total_tasks: usize,
    pub by_status: StatusCounts,
    pub by_priority: PriorityCounts,
}

/// A work summary.
#[derive(Debug, Clone)]
pub struct SummaryOutput {
    pub session: Option<SessionSummary>,
    pub state: StateSummary,
    pub focus_task: Option<Task>,
    pub blockers: Vec<Task>,
    pub next_actions: Vec<Task>,
    pub recent_decisions: Vec<Comment>,
    pub recent_artifacts: Vec<Artifact>,
}

/// A steering file for a context pack: its path, mode and content when read.
#[derive(Debug, Clone)]
pub struct SteeringInfo {
    pub path: String,
    pub mode: String,
    pub content: Option<String>,
}

/// A blocked task in a context pack.
#[derive(Debug, Clone)]
pub struct BlockerInfo {
    pub task_id: String,
    pub task_title: String,
    pub reason: Option<String>,
    pub unmet_deps: Vec<String>,
}

/// A context pack.
#[derive(Debug, Clone)]
pub struct ContextOutput {
    pub session: Option<SessionSummary>,
    pub projects: Vec<Project>,
    pub tasks: Vec<Task>,
    pub comments: Vec<Comment>,
    pub artifacts: Vec<Artifact>,
    pub decisions: Vec<Comment>,
    pub blockers: Vec<BlockerInfo>,
    pub steering: Vec<SteeringInfo>,
}

/// A handoff of tasks to another agent.
#[derive(Debug)]
pub struct HandoffOutput {
    pub to: String,
    pub tasks: Vec<Task>,
    pub context: Vec<Comment>,
    pub constraints: Option<String>,
    pub acceptance_criteria: Option<String>,
    /// The schema the answer should follow, as JSON text
    pub output_schema: Option<String>,
    pub steering: Vec<SteeringInfo>,
}

} // verus!
