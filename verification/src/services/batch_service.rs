//! Batches of operations: what each operation is, and what the batch reports
//! for it.
use vstd::prelude::*;
use crate::error::GranaryError;
use crate::models::project::ProjectStatus;
use crate::models::session::ScopeItemType;
use crate::models::task::Comment;
use crate::text::{contains, contains_exec, lowercase, owned, push_str};

verus! {

/// One operation of a batch.
#[derive(Debug, Clone)]
pub enum BatchOp {
    ProjectCreate { name: String, description: Option<String>, owner: Option<String>, tags: Vec<String> },
    ProjectUpdate {
        id: String,
        name: Option<String>,
        description: Option<String>,
        owner: Option<String>,
        status: Option<String>,
        tags: Option<Vec<String>>,
    },
    ProjectArchive { id: String },
    TaskCreate {
        project_id: String,
        title: String,
        description: Option<String>,
        priority: Option<String>,
        owner: Option<String>,
        parent_task_id: Option<String>,
        tags: Vec<String>,
    },
    TaskUpdate {
        id: String,
        title: Option<String>,
        description: Option<String>,
        status: Option<String>,
        priority: Option<String>,
        owner: Option<String>,
        tags: Option<Vec<String>>,
    },
    TaskStart { id: String, owner: Option<String> },
    TaskDone { id: String, comment: Option<String> },
    TaskBlock { id: String, reason: String },
    TaskUnblock { id: String },
    DependencyAdd { task_id: String, depends_on: String },
    DependencyRemove { task_id: String, depends_on: String },
    CommentCreate { parent: String, content: String, kind: Option<String>, author: Option<String> },
    CommentUpdate { id: String, content: Option<String>, kind: Option<String> },
    SessionScopeAdd { session_id: String, item_type: String, item_id: String },
    SessionScopeRemove { session_id: String, item_type: String, item_id: String },
    SessionFocus { session_id: String, task_id: String },
}

/// The name of an operation, as batches write it.
pub open spec fn op_name_spec(op: BatchOp) -> Seq<char> {
    match op {
        BatchOp::ProjectCreate { .. } => "project.create"@,
        BatchOp::ProjectUpdate { .. } => "project.update"@,
        BatchOp::ProjectArchive { .. } => "project.archive"@,
        BatchOp::TaskCreate { .. } => "task.create"@,
        BatchOp::TaskUpdate { .. } => "task.update"@,
        BatchOp::TaskStart { .. } => "task.start"@,
        BatchOp::TaskDone { .. } => "task.done"@,
        BatchOp::TaskBlock { .. } => "task.block"@,
        BatchOp::TaskUnblock { .. } => "task.unblock"@,
        BatchOp::DependencyAdd { .. } => "dependency.add"@,
        BatchOp::DependencyRemove { .. } => "dependency.remove"@,
        BatchOp::CommentCreate { .. } => "comment.create"@,
        BatchOp::CommentUpdate { .. } => "comment.update"@,
        BatchOp::SessionScopeAdd { .. } => "session.scope.add"@,
        BatchOp::SessionScopeRemove { .. } => "session.scope.remove"@,
        BatchOp::SessionFocus { .. } => "session.focus"@,
    }
}

/// The name of an operation.
pub fn op_name(op: &BatchOp) -> (r: String)
    ensures
        r@ == op_name_spec(*op),
{
    let s = match op {
        BatchOp::ProjectCreate { .. } => "project.create",
        BatchOp::ProjectUpdate { .. } => "project.update",
        BatchOp::ProjectArchive { .. } => "project.archive",
        BatchOp::TaskCreate { .. } => "task.create",
        BatchOp::TaskUpdate { .. } => "task.update",
        BatchOp::TaskStart { .. } => "task.start",
        BatchOp::TaskDone { .. } => "task.done",
        BatchOp::TaskBlock { .. } => "task.block",
        BatchOp::TaskUnblock { .. } => "task.unblock",
        BatchOp::DependencyAdd { .. } => "dependency.add",
        BatchOp::DependencyRemove { .. } => "dependency.remove",
        BatchOp::CommentCreate { .. } => "comment.create",
        BatchOp::CommentUpdate { .. } => "comment.update",
        BatchOp::SessionScopeAdd { .. } => "session.scope.add",
        BatchOp::SessionScopeRemove { .. } => "session.scope.remove",
        BatchOp::SessionFocus { .. } => "session.focus",
    };
    owned(s)
}

/// What a batch reports for one operation.
#[derive(Debug, Clone)]
pub struct BatchResult {
    pub index: usize,
    pub op: String,
    pub success: bool,
    pub id: Option<String>,
    pub error: Option<String>,
}

/// A batch of operations.
#[derive(Debug, Clone)]
pub struct BatchRequest {
    pub ops: Vec<BatchOp>,
}

/// The report of the operation at `index`, from its outcome: the id it
/// produced, or its error's message.
pub fn batch_result(index: usize, op: &BatchOp, outcome: Result<Option<String>, String>) -> (r: BatchResult)
    ensures
        r.index == index,
        r.op@ == op_name_spec(*op),
        match outcome {
            Ok(id) => r.success && r.id == id && r.error is None,
            Err(m) => !r.success && r.id is None && r.error == Some(m),
        },
{
    let name = op_name(op);
    match outcome {
        Ok(id) => BatchResult { index, op: name, success: true, id, error: None },
        Err(m) => BatchResult { index, op: name, success: false, id: None, error: Some(m) },
    }
}

/// The scope item type an operation names; an unknown name gives
/// [`GranaryError::InvalidArgument`].
pub fn scope_item_type(item_type: &str) -> (r: Result<ScopeItemType, GranaryError>)
    ensures
        match ScopeItemType::from_name(lowercase(item_type@)) {
            Some(t) => r == Ok::<ScopeItemType, GranaryError>(t),
            None => r matches Err(GranaryError::InvalidArgument(m)) && m@ == "Invalid item type: "@ + item_type@,
        },
{
    match ScopeItemType::parse_name(item_type) {
        Ok(t) => Ok(t),
        Err(_) => {
            let mut m = owned("Invalid item type: ");
            push_str(&mut m, item_type);
            Err(GranaryError::InvalidArgument(m))
        },
    }
}

/// What a comment of a batch is attached to.
#[derive(Debug, Clone, Copy, PartialEq, Eq, Structural)]
pub enum CommentParentType {
    Project,
    Task,
    Comment,
}

impl CommentParentType {
    /// The name of the parent's kind.
    pub open spec fn name(self) -> Seq<char> {
        match self {
            CommentParentType::Project => "project"@,
            CommentParentType::Task => "task"@,
            CommentParentType::Comment => "comment"@,
        }
    }

    /// The name of the parent's kind.
    pub fn as_str(&self) -> (r: &'static str)
        ensures
            r@ == self.name(),
    {
        match self {
            CommentParentType::Project => "project",
            CommentParentType::Task => "task",
            CommentParentType::Comment => "comment",
        }
    }
}

/// The kind of record a parent id names, read from its shape: a task id
/// holds `-task-`, a comment id holds `-comment-`, anything else is taken
/// for a project.
pub open spec fn parent_type_of(parent: Seq<char>) -> CommentParentType {
    if contains(parent, "-task-"@) {
        CommentParentType::Task
    } else if contains(parent, "-comment-"@) {
        CommentParentType::Comment
    } else {
        CommentParentType::Project
    }
}

/// The kind of record the parent id of a new comment names (see
/// [`parent_type_of`]).
pub fn comment_parent_type(parent: &str) -> (r: CommentParentType)
    ensures
        r == parent_type_of(parent@),
{
    if contains_exec(parent, "-task-") {
        CommentParentType::Task
    } else if contains_exec(parent, "-comment-") {
        CommentParentType::Comment
    } else {
        CommentParentType::Project
    }
}

/// The status a project update asks for: the named status when the name is
/// known, and no change otherwise.
pub fn requested_project_status(status: &Option<String>) -> (r: Option<ProjectStatus>)
    ensures
        r == (match status {
            Some(s) => ProjectStatus::from_name(lowercase(s@)),
            None => None,
        }),
{
    match status {
        Some(s) => match ProjectStatus::parse_name(s.as_str()) {
            Ok(t) => Some(t),
            Err(_) => None,
        },
        None => None,
    }
}

/// The id a batch reports for an operation that succeeded: the new record's
/// for a creation, the target's for a change of one record, and none for a
/// dependency, a scope or a focus change.
pub open spec fn reported_id(op: BatchOp, created: Option<String>) -> Option<String> {
    match op {
        BatchOp::ProjectCreate { .. } => created,
        BatchOp::TaskCreate { .. } => created,
        BatchOp::CommentCreate { .. } => created,
        BatchOp::ProjectUpdate { id, .. } => Some(id),
        BatchOp::ProjectArchive { id } => Some(id),
        BatchOp::TaskUpdate { id, .. } => Some(id),
        BatchOp::TaskStart { id, .. } => Some(id),
        BatchOp::TaskDone { id, .. } => Some(id),
        BatchOp::TaskBlock { id, .. } => Some(id),
        BatchOp::TaskUnblock { id } => Some(id),
        BatchOp::CommentUpdate { id, .. } => Some(id),
        BatchOp::DependencyAdd { .. } => None,
        BatchOp::DependencyRemove { .. } => None,
        BatchOp::SessionScopeAdd { .. } => None,
        BatchOp::SessionScopeRemove { .. } => None,
        BatchOp::SessionFocus { .. } => None,
    }
}

/// The id to report for `op` once it succeeded; `created` is the id of the
/// record a creation made.
pub fn result_id(op: &BatchOp, created: Option<String>) -> (r: Option<String>)
    ensures
        r == reported_id(*op, created),
{
    match op {
        BatchOp::ProjectCreate { .. } => created,
        BatchOp::TaskCreate { .. } => created,
        BatchOp::CommentCreate { .. } => created,
        BatchOp::ProjectUpdate { id, .. } => Some(id.clone()),
        BatchOp::ProjectArchive { id } => Some(id.clone()),
        BatchOp::TaskUpdate { id, .. } => Some(id.clone()),
        BatchOp::TaskStart { id, .. } => Some(id.clone()),
        BatchOp::TaskDone { id, .. } => Some(id.clone()),
        BatchOp::TaskBlock { id, .. } => Some(id.clone()),
        BatchOp::TaskUnblock { id } => Some(id.clone()),
        BatchOp::CommentUpdate { id, .. } => Some(id.clone()),
        BatchOp::DependencyAdd { .. } => None,
        BatchOp::DependencyRemove { .. } => None,
        BatchOp::SessionScopeAdd { .. } => None,
        BatchOp::SessionScopeRemove { .. } => None,
        BatchOp::SessionFocus { .. } => None,
    }
}

/// The report of a whole batch: for the `i`-th operation, its index, its
/// name, and its outcome `outcomes[i]` (an id, or the message of its error).
/// Every operation is reported, whatever happened to the others.
pub fn batch_results(ops: &Vec<BatchOp>, outcomes: Vec<Result<Option<String>, String>>) -> (r: Vec<BatchResult>)
    requires
        outcomes.len() == ops.len(),
    ensures
        r.len() == ops.len(),
        forall|i: int| 0 <= i < ops.len() ==> {
            let x = #[trigger] r@[i];
            &&& x.index == i
            &&& x.op@ == op_name_spec(ops@[i])
            &&& match outcomes@[i] {
                Ok(id) => x.success && x.id == id && x.error is None,
                Err(m) => !x.success && x.id is None && x.error == Some(m),
            }
        },
{
    let ghost all = outcomes@;
    let mut rest = outcomes;
    let mut out: Vec<BatchResult> = Vec::new();
    let mut i: usize = 0;
    while i < ops.len()
        invariant
            i <= ops.len(),
            all.len() == ops.len(),
            rest@ == all.skip(i as int),
            out.len() == i,
            forall|k: int| 0 <= k < i ==> {
                let x = #[trigger] out@[k];
                &&& x.index == k
                &&& x.op@ == op_name_spec(ops@[k])
                &&& match all[k] {
                    Ok(id) => x.success && x.id == id && x.error is None,
                    Err(m) => !x.success && x.id is None && x.error == Some(m),
                }
            },
        decreases ops.len() - i,
    {
        let outcome = rest.remove(0);
        assert(outcome == all[i as int]);
        assert(rest@ =~= all.skip(i as int + 1));
        let res = batch_result(i, &ops[i], outcome);
        let ghost before = out@;
        out.push(res);
        assert forall|k: int| 0 <= k < i + 1 implies {
            let x = #[trigger] out@[k];
            &&& x.index == k
            &&& x.op@ == op_name_spec(ops@[k])
            &&& match all[k] {
                Ok(id) => x.success && x.id == id && x.error is None,
                Err(m) => !x.success && x.id is None && x.error == Some(m),
            }
        } by {
            if k < i {
                assert(out@[k] == before[k]);
            }
        }
        i = i + 1;
    }
    out
}

/// The counter that numbers the records of kind `kind` under a parent:
/// `parent_type:parent_id:kind`.
pub fn counter_scope(parent_type: &str, parent_id: &str, kind: &str) -> (r: String)
    ensures
        r@ == parent_type@ + ":"@ + parent_id@ + ":"@ + kind@,
{
    let mut r = owned(parent_type);
    push_str(&mut r, ":");
    push_str(&mut r, parent_id);
    push_str(&mut r, ":");
    push_str(&mut r, kind);
    r
}

/// A new comment of kind `kind` on `parent_id`, with the id `id` and the
/// number `number`, written at `now`, with no metadata.
pub fn new_comment(
    id: String,
    parent_type: CommentParentType,
    parent_id: String,
    number: i64,
    kind: String,
    content: String,
    author: Option<String>,
    now: &str,
) -> (r: Comment)
    ensures
        r.id == id,
        r.parent_type@ == parent_type.name(),
        r.parent_id == parent_id,
        r.comment_number == number,
        r.kind == kind,
        r.content == content,
        r.author == author,
        r.meta is None,
        r.created_at@ == now@,
        r.updated_at@ == now@,
        r.version == 1,
{
    Comment {
        id,
        parent_type: owned(parent_type.as_str()),
        parent_id,
        comment_number: number,
        kind,
        content,
        author,
        meta: None,
        created_at: owned(now),
        updated_at: owned(now),
        version: 1,
    }
}

/// A comment with its content and kind replaced where given.
pub fn apply_comment_update(comment: Comment, content: Option<String>, kind: Option<String>) -> (r: Comment)
    ensures
        r == (Comment {
            content: match content {
                Some(c) => c,
                None => comment.content,
            },
            kind: match kind {
                Some(k) => k,
                None => comment.kind,
            },
            ..comment
        }),
{
    let mut r = comment;
    if let Some(c) = content {
        r.content = c;
    }
    if let Some(k) = kind {
        r.kind = k;
    }
    r
}

} // verus!
