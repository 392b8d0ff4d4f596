//! Tasks and comments.
use vstd::prelude::*;
use crate::text::views;
use crate::models::project::{optional_strings, optional_strings_vec};
use crate::text::copy_opt;

verus! {

/// A task row.
#[derive(Debug)]
pub struct Task {
    pub id: String,
    pub project_id: String,
    pub task_number: i64,
    pub parent_task_id: Option<String>,
    pub title: String,
    pub description: Option<String>,
    pub status: String,
    pub priority: String,
    pub owner: Option<String>,
    /// Tags, as a JSON array
    pub tags: Option<String>,
    /// Ids of the workers that ran for the task, as a JSON array
    pub worker_ids: Option<String>,
    /// Ids of the runs made for the task, as a JSON array
    pub run_ids: Option<String>,
    pub blocked_reason: Option<String>,
    pub started_at: Option<String>,
    pub completed_at: Option<String>,
    pub due_at: Option<String>,
    pub claim_owner: Option<String>,
    pub claim_claimed_at: Option<String>,
    pub claim_lease_expires_at: Option<String>,
    pub pinned: i64,
    pub focus_weight: i64,
    pub created_at: String,
    pub updated_at: String,
    pub version: i64,
    pub last_edited_by: Option<String>,
}

impl Clone for Task {
    fn clone(&self) -> (r: Self)
        ensures
            r == *self,
    {
        Task {
            id: self.id.clone(),
            project_id: self.project_id.clone(),
            task_number: self.task_number,
            parent_task_id: copy_opt(&self.parent_task_id),
            title: self.title.clone(),
            description: copy_opt(&self.description),
            status: self.status.clone(),
            priority: self.priority.clone(),
            owner: copy_opt(&self.owner),
            tags: copy_opt(&self.tags),
            worker_ids: copy_opt(&self.worker_ids),
            run_ids: copy_opt(&self.run_ids),
            blocked_reason: copy_opt(&self.blocked_reason),
            started_at: copy_opt(&self.started_at),
            completed_at: copy_opt(&self.completed_at),
            due_at: copy_opt(&self.due_at),
            claim_owner: copy_opt(&self.claim_owner),
            claim_claimed_at: copy_opt(&self.claim_claimed_at),
            claim_lease_expires_at: copy_opt(&self.claim_lease_expires_at),
            pinned: self.pinned,
            focus_weight: self.focus_weight,
            created_at: self.created_at.clone(),
            updated_at: self.updated_at.clone(),
            version: self.version,
            last_edited_by: copy_opt(&self.last_edited_by),
        }
    }
}

/// Who holds a task's claim, and until when.
#[derive(Debug, Clone)]
pub struct ClaimInfo {
    pub owner: String,
    pub claimed_at: Option<String>,
    pub lease_expires_at: Option<String>,
}

impl Task {
    /// The tags, empty when absent or not a JSON list of strings.
    pub fn tags_vec(&self) -> (r: Vec<String>)
        ensures
            views(r@) == optional_strings(self.tags),
    {
        optional_strings_vec(&self.tags)
    }

    /// The ids of the workers that ran for the task, empty when absent or
    /// not a JSON list of strings.
    pub fn worker_ids_vec(&self) -> (r: Vec<String>)
        ensures
            views(r@) == optional_strings(self.worker_ids),
    {
        optional_strings_vec(&self.worker_ids)
    }

    /// The ids of the runs made for the task, empty when absent or not a JSON
    /// list of strings.
    pub fn run_ids_vec(&self) -> (r: Vec<String>)
        ensures
            views(r@) == optional_strings(self.run_ids),
    {
        optional_strings_vec(&self.run_ids)
    }

    /// The claim on the task, present when it has a claim owner.
    pub fn claim_info(&self) -> (r: Option<ClaimInfo>)
        ensures
            r is Some <==> self.claim_owner is Some,
            r matches Some(c) ==> c.owner@ == self.claim_owner->0@
                && c.claimed_at == self.claim_claimed_at
                && c.lease_expires_at == self.claim_lease_expires_at,
    {
        match &self.claim_owner {
            Some(o) => Some(ClaimInfo {
                owner: o.clone(),
                claimed_at: self.claim_claimed_at.clone(),
                lease_expires_at: self.claim_lease_expires_at.clone(),
            }),
            None => None,
        }
    }
}

/// A comment row (notes, decisions, progress reports on projects and tasks).
#[derive(Debug, Clone)]
pub struct Comment {
    pub id: String,
    pub parent_type: String,
    pub parent_id: String,
    pub comment_number: i64,
    pub kind: String,
    pub content: String,
    pub author: Option<String>,
    /// Metadata, as JSON text
    pub meta: Option<String>,
    pub created_at: String,
    pub updated_at: String,
    pub version: i64,
}

} // verus!
