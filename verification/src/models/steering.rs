//! Steering files: documents that guide agents, globally or for a scope.
use vstd::prelude::*;
use crate::text::{owned, push_str};

verus! {

/// A steering file row.
#[derive(Debug, Clone)]
pub struct SteeringFile {
    pub id: i64,
    pub path: String,
    pub mode: String,
    pub scope_type: Option<String>,
    pub scope_id: Option<String>,
    pub created_at: String,
}

/// How a steering file's scope is shown.
pub open spec fn scope_text(scope_type: Option<String>, scope_id: Option<String>) -> Seq<char> {
    match scope_type {
        None => "global"@,
        Some(t) => match scope_id {
            Some(id) => t@ + ": "@ + id@,
            None => t@,
        },
    }
}

impl SteeringFile {
    /// The scope for display: `global`, `<type>: <id>`, or the type alone.
    pub fn scope_display(&self) -> (r: String)
        ensures
            r@ == scope_text(self.scope_type, self.scope_id),
    {
        match &self.scope_type {
            None => owned("global"),
            Some(t) => match &self.scope_id {
                Some(id) => {
                    let mut s = owned(t.as_str());
                    push_str(&mut s, ": ");
                    push_str(&mut s, id.as_str());
                    s
                },
                None => owned(t.as_str()),
            },
        }
    }
}

} // verus!
