//! Initiatives: groups of projects, and their progress summaries.
use vstd::prelude::*;
use crate::text::views;
use crate::models::project::{optional_strings, optional_strings_vec};

verus! {

/// An initiative row.
#[derive(Debug, Clone)]
pub struct Initiative {
    pub id: String,
    pub slug: String,
    pub name: String,
    pub description: Option<String>,
    pub owner: Option<String>,
    pub status: String,
    /// Tags, as a JSON array
    pub tags: Option<String>,
    pub created_at: String,
    pub updated_at: String,
    pub version: i64,
}

impl Initiative {
    /// The tags, empty when absent or not a JSON list of strings.
    pub fn tags_vec(&self) -> (r: Vec<String>)
        ensures
            views(r@) == optional_strings(self.tags),
    {
        optional_strings_vec(&self.tags)
    }
}

/// Identity of the summarised initiative.
#[derive(Debug, Clone)]
pub struct InitiativeInfo {
    pub id: String,
    pub name: String,
    pub description: Option<String>,
}

/// Counts over an initiative's projects and tasks. The completion percentage,
/// a float, travels beside it as text.
#[derive(Debug, Clone)]
pub struct InitiativeStatusSummary {
    pub total_projects: usize,
    pub completed_projects: usize,
    pub blocked_projects: usize,
    pub total_tasks: usize,
    pub tasks_done: usize,
    pub tasks_in_progress: usize,
    pub tasks_blocked: usize,
    pub tasks_todo: usize,
}

/// Progress of one project of an initiative.
#[derive(Debug, Clone)]
pub struct ProjectSummary {
    pub id: String,
    pub name: String,
    pub task_count: usize,
    pub done_count: usize,
    pub blocked: bool,
    pub blocked_by: Vec<String>,
}

/// Something that blocks an initiative's project.
#[derive(Debug, Clone)]
pub struct InitiativeBlockerInfo {
    pub project_id: String,
    pub project_name: String,
    pub blocker_type: String,
    pub description: String,
}

/// A task that can be worked on next.
#[derive(Debug, Clone)]
pub struct NextAction {
    pub task_id: String,
    pub task_title: String,
    pub project_id: String,
    pub project_name: String,
    pub priority: String,
}

/// The progress summary of an initiative.
#[derive(Debug, Clone)]
pub struct InitiativeSummary {
    pub initiative: InitiativeInfo,
    pub status: InitiativeStatusSummary,
    pub projects: Vec<ProjectSummary>,
    pub blockers: Vec<InitiativeBlockerInfo>,
    pub next_actions: Vec<NextAction>,
}

} // verus!
