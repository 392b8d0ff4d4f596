//! Search results over initiatives, projects and tasks.
use vstd::prelude::*;

verus! {

/// One search hit.
#[derive(Debug, Clone)]
pub enum SearchResult {
    Initiative { id: String, name: String, description: Option<String>, status: String },
    Project { id: String, name: String, description: Option<String>, status: String },
    Task {
        id: String,
        title: String,
        description: Option<String>,
        status: String,
        priority: String,
        project_id: String,
    },
}

} // verus!
