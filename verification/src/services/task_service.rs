//! What a task becomes when it is made ready, started, completed, blocked,
//! unblocked, claimed, released, reviewed or edited.
//!
//! The caller reads the task from the store, hands it here with what the
//! change needs (the current time as text, the ids of its unmet
//! dependencies, the review mode), and writes back what comes out.
use vstd::prelude::*;
use crate::error::GranaryError;
use crate::json::{string_list_json, strings_to_json};
use crate::services::project_service::{stored_list, opt_chars as stored_chars};
use crate::models::project::optional_strings;
use crate::models::task::{Comment, Task};
use crate::text::{copy_opt, join, joined, owned, push_str, views};

verus! {

/// The status a task is in when it has not been made ready yet.
pub open spec fn is_draft(t: Task) -> bool {
    t.status@ == "draft"@
}

/// The status a task is in while its work is reviewed.
pub open spec fn is_in_review(t: Task) -> bool {
    t.status@ == "in_review"@
}

/// The status a finished task is in.
pub open spec fn is_done(t: Task) -> bool {
    t.status@ == "done"@
}

/// `r` is `t` with only its status, blocked reason, claim, start and finish
/// times and last editor possibly changed.
pub open spec fn same_but_state(r: Task, t: Task) -> bool {
    r == (Task {
        status: r.status,
        blocked_reason: r.blocked_reason,
        claim_owner: r.claim_owner,
        claim_claimed_at: r.claim_claimed_at,
        claim_lease_expires_at: r.claim_lease_expires_at,
        started_at: r.started_at,
        completed_at: r.completed_at,
        owner: r.owner,
        last_edited_by: r.last_edited_by,
        ..t
    })
}

/// The message for a task that is not a draft and is made ready.
pub open spec fn not_draft_message(t: Task) -> Seq<char> {
    "Task "@ + t.id@ + " is not in Draft status (current status: "@ + t.status@
        + "). Only draft tasks can be marked as ready."@
}

/// `r` is the draft `t` made ready: `todo`, last edited by its owner.
pub open spec fn made_ready(r: Task, t: Task) -> bool {
    &&& same_but_state(r, t)
    &&& r.status@ == "todo"@
    &&& r.blocked_reason == t.blocked_reason
    &&& r.claim_owner == t.claim_owner
    &&& r.claim_claimed_at == t.claim_claimed_at
    &&& r.claim_lease_expires_at == t.claim_lease_expires_at
    &&& r.started_at == t.started_at
    &&& r.completed_at == t.completed_at
    &&& r.owner == t.owner
    &&& r.last_edited_by == t.owner
}

fn with_status(t: Task, status: &str) -> (r: Task)
    ensures
        r == (Task { status: r.status, ..t }),
        r.status@ == status@,
{
    let mut r = t;
    r.status = owned(status);
    r
}

/// Makes a draft task ready to be worked on. A task that is not a draft
/// gives [`GranaryError::Conflict`].
pub fn mark_ready(task: Task) -> (r: Result<Task, GranaryError>)
    ensures
        is_draft(task) ==> (r matches Ok(x) && made_ready(x, task)),
        !is_draft(task) ==> (r matches Err(GranaryError::Conflict(m)) && m@ == not_draft_message(task)),
{
    if !crate::text::text_eq(task.status.as_str(), "draft") {
        let mut m = owned("Task ");
        push_str(&mut m, task.id.as_str());
        push_str(&mut m, " is not in Draft status (current status: ");
        push_str(&mut m, task.status.as_str());
        push_str(&mut m, "). Only draft tasks can be marked as ready.");
        return Err(GranaryError::Conflict(m));
    }
    let mut r = with_status(task, "todo");
    r.last_edited_by = copy_opt(&r.owner);
    Ok(r)
}

/// A task that cannot be started whatever its dependencies: a draft, a
/// task in review, or a done task.
pub open spec fn start_conflict(t: Task) -> bool {
    is_draft(t) || is_in_review(t) || is_done(t)
}

/// The message of the refusal to start `t`, if it is refused.
pub open spec fn start_message(t: Task, unmet: Seq<Seq<char>>) -> Seq<char> {
    if is_draft(t) {
        "Task "@ + t.id@ + " is in Draft status. Use 'granary task "@ + t.id@
            + " ready' to mark it as ready before starting."@
    } else if is_in_review(t) {
        "Task "@ + t.id@ + " is in review. Use 'granary review "@ + t.id@
            + " reject \"feedback\"' before restarting it."@
    } else if is_done(t) {
        "Task "@ + t.id@ + " is already completed"@
    } else {
        join(unmet, ", "@)
    }
}

/// `r` is `t` started at `now` by `owner`: `in_progress`, the start time
/// kept when it had one, the owner replaced when one is given, last edited
/// by the (new) owner.
pub open spec fn started(r: Task, t: Task, owner: Option<String>, now: Seq<char>) -> bool {
    &&& same_but_state(r, t)
    &&& r.status@ == "in_progress"@
    &&& r.blocked_reason == t.blocked_reason
    &&& r.claim_owner == t.claim_owner
    &&& r.claim_claimed_at == t.claim_claimed_at
    &&& r.claim_lease_expires_at == t.claim_lease_expires_at
    &&& r.completed_at == t.completed_at
    &&& (match t.started_at {
        Some(s) => r.started_at == Some(s),
        None => r.started_at matches Some(s) && s@ == now,
    })
    &&& r.owner == (match owner {
        Some(o) => Some(o),
        None => t.owner,
    })
    &&& r.last_edited_by == r.owner
}

/// Starts a task at the time `now` (as text), for `owner` when given;
/// `unmet` are the ids of the dependencies it still waits for.
///
/// A draft, a task in review and a done task give
/// [`GranaryError::Conflict`]; unmet dependencies give
/// [`GranaryError::UnmetDependencies`] with their ids joined by `, `.
pub fn start(task: Task, owner: Option<String>, unmet: &Vec<String>, now: &str) -> (r: Result<Task, GranaryError>)
    ensures
        start_conflict(task) ==> (r matches Err(GranaryError::Conflict(m)) && m@ == start_message(
            task,
            views(unmet@),
        )),
        !start_conflict(task) && unmet.len() > 0 ==> (r matches Err(GranaryError::UnmetDependencies(m))
            && m@ == join(views(unmet@), ", "@)),
        !start_conflict(task) && unmet.len() == 0 ==> (r matches Ok(x) && started(x, task, owner, now@)),
{
    if crate::text::text_eq(task.status.as_str(), "draft") {
        let mut m = owned("Task ");
        push_str(&mut m, task.id.as_str());
        push_str(&mut m, " is in Draft status. Use 'granary task ");
        push_str(&mut m, task.id.as_str());
        push_str(&mut m, " ready' to mark it as ready before starting.");
        return Err(GranaryError::Conflict(m));
    }
    if crate::text::text_eq(task.status.as_str(), "in_review") {
        let mut m = owned("Task ");
        push_str(&mut m, task.id.as_str());
        push_str(&mut m, " is in review. Use 'granary review ");
        push_str(&mut m, task.id.as_str());
        push_str(&mut m, " reject \"feedback\"' before restarting it.");
        return Err(GranaryError::Conflict(m));
    }
    if crate::text::text_eq(task.status.as_str(), "done") {
        let mut m = owned("Task ");
        push_str(&mut m, task.id.as_str());
        push_str(&mut m, " is already completed");
        return Err(GranaryError::Conflict(m));
    }
    if unmet.len() > 0 {
        return Err(GranaryError::UnmetDependencies(joined(unmet.as_slice(), ", ")));
    }
    let mut r = with_status(task, "in_progress");
    if r.started_at.is_none() {
        r.started_at = Some(owned(now));
    }
    match owner {
        Some(o) => {
            r.owner = Some(o);
        },
        None => {},
    }
    r.last_edited_by = copy_opt(&r.owner);
    Ok(r)
}

/// Whether the workspace reviews each task before it is done.
pub open spec fn reviews_tasks(review_mode: Option<String>) -> bool {
    review_mode matches Some(m) && m@ == "task"@
}

/// Starts a task now, as [`start`] does; a task that has no start time
/// takes the time the clock reads.
pub fn start_task(task: Task, owner: Option<String>, unmet: &Vec<String>) -> (r: Result<Task, GranaryError>)
    ensures
        start_conflict(task) ==> (r matches Err(GranaryError::Conflict(m)) && m@ == start_message(
            task,
            views(unmet@),
        )),
        !start_conflict(task) && unmet.len() > 0 ==> (r matches Err(GranaryError::UnmetDependencies(m))
            && m@ == join(views(unmet@), ", "@)),
        !start_conflict(task) && unmet.len() == 0 ==> (r matches Ok(x) && x.started_at is Some && started(
            x,
            task,
            owner,
            x.started_at->0@,
        )),
{
    let now = crate::clock::now_rfc3339();
    start(task, owner, unmet, &now)
}

/// `r` is `t` completed at `now`: in review when tasks are reviewed, else
/// done with its finish time; never blocked; last edited by its owner.
pub open spec fn completed(r: Task, t: Task, review_mode: Option<String>, now: Seq<char>) -> bool {
    &&& same_but_state(r, t)
    &&& (if reviews_tasks(review_mode) {
        r.status@ == "in_review"@ && r.completed_at == t.completed_at
    } else {
        r.status@ == "done"@ && (r.completed_at matches Some(c) && c@ == now)
    })
    &&& r.blocked_reason is None
    &&& r.claim_owner == t.claim_owner
    &&& r.claim_claimed_at == t.claim_claimed_at
    &&& r.claim_lease_expires_at == t.claim_lease_expires_at
    &&& r.started_at == t.started_at
    &&& r.owner == t.owner
    &&& r.last_edited_by == t.owner
}

/// Completes a task at the time `now`: with the review mode `task` it goes
/// to review, otherwise it is done.
pub fn complete(task: Task, review_mode: &Option<String>, now: &str) -> (r: Task)
    ensures
        completed(r, task, *review_mode, now@),
{
    let review = match review_mode {
        Some(m) => crate::text::text_eq(m.as_str(), "task"),
        None => false,
    };
    let mut r = if review {
        with_status(task, "in_review")
    } else {
        let mut d = with_status(task, "done");
        d.completed_at = Some(owned(now));
        d
    };
    r.blocked_reason = None;
    r.last_edited_by = copy_opt(&r.owner);
    r
}

/// Completes a task now, as [`complete`] does; a task that is done takes
/// the time the clock reads as its completion time.
pub fn complete_task(task: Task, review_mode: &Option<String>) -> (r: Task)
    ensures
        completed(
            r,
            task,
            *review_mode,
            match r.completed_at {
                Some(c) => c@,
                None => Seq::empty(),
            },
        ),
{
    let now = crate::clock::now_rfc3339();
    complete(task, review_mode, &now)
}

/// `r` is `t` blocked for `reason`, by the system (no last editor).
pub open spec fn blocked(r: Task, t: Task, reason: Seq<char>) -> bool {
    &&& same_but_state(r, t)
    &&& r.status@ == "blocked"@
    &&& r.blocked_reason matches Some(b) && b@ == reason
    &&& r.claim_owner == t.claim_owner
    &&& r.claim_claimed_at == t.claim_claimed_at
    &&& r.claim_lease_expires_at == t.claim_lease_expires_at
    &&& r.started_at == t.started_at
    &&& r.completed_at == t.completed_at
    &&& r.owner == t.owner
    &&& r.last_edited_by is None
}

/// Blocks a task for `reason`.
pub fn block(task: Task, reason: &str) -> (r: Task)
    ensures
        blocked(r, task, reason@),
{
    let mut r = with_status(task, "blocked");
    r.blocked_reason = Some(owned(reason));
    r.last_edited_by = None;
    r
}

/// `r` is `t` unblocked: `todo`, with no blocked reason and no claim, by
/// the system (no last editor).
pub open spec fn unblocked(r: Task, t: Task) -> bool {
    &&& same_but_state(r, t)
    &&& r.status@ == "todo"@
    &&& r.blocked_reason is None
    &&& r.claim_owner is None
    &&& r.claim_claimed_at is None
    &&& r.claim_lease_expires_at is None
    &&& r.started_at == t.started_at
    &&& r.completed_at == t.completed_at
    &&& r.owner == t.owner
    &&& r.last_edited_by is None
}

/// Unblocks a task; its claim is dropped too, so that it can be picked up
/// again.
pub fn unblock(task: Task) -> (r: Task)
    ensures
        unblocked(r, task),
{
    let mut r = with_status(task, "todo");
    r.blocked_reason = None;
    r.claim_owner = None;
    r.claim_claimed_at = None;
    r.claim_lease_expires_at = None;
    r.last_edited_by = None;
    r
}

/// Unblocking a task forgets that it was blocked: blocking and then
/// unblocking gives what unblocking alone gives.
pub proof fn law_unblock_forgets_block(t: Task, b: Task, u: Task, reason: Seq<char>)
    requires
        blocked(b, t, reason),
        unblocked(u, b),
    ensures
        unblocked(u, t),
{
}

/// `r` is `t` claimed by `owner` at `now`, with the lease's end when one is
/// given (the lease end is otherwise left as it was).
pub open spec fn claimed(r: Task, t: Task, owner: Seq<char>, now: Seq<char>, lease_expires_at: Option<String>) -> bool {
    &&& same_but_state(r, t)
    &&& r.status == t.status
    &&& r.blocked_reason == t.blocked_reason
    &&& r.claim_owner matches Some(o) && o@ == owner
    &&& r.claim_claimed_at matches Some(c) && c@ == now
    &&& r.claim_lease_expires_at == (match lease_expires_at {
        Some(e) => Some(e),
        None => t.claim_lease_expires_at,
    })
    &&& r.started_at == t.started_at
    &&& r.completed_at == t.completed_at
    &&& r.owner == t.owner
    &&& r.last_edited_by matches Some(o) && o@ == owner
}

/// Claims a task for `owner` at `now`; `lease_expires_at` is the end of the
/// lease when one was asked for. A task claimed by someone else gives
/// [`GranaryError::ClaimConflict`] with that owner and the end of their
/// lease (empty when they have none).
pub fn claim(task: Task, owner: &str, now: &str, lease_expires_at: Option<String>) -> (r: Result<Task, GranaryError>)
    ensures
        (task.claim_owner matches Some(o) && o@ != owner@) ==> (r matches Err(
            GranaryError::ClaimConflict { owner: co, expires_at: e },
        ) && co == task.claim_owner->0 && e@ == (match task.claim_lease_expires_at {
            Some(x) => x@,
            None => Seq::empty(),
        })),
        !(task.claim_owner matches Some(o) && o@ != owner@) ==> (r matches Ok(x) && claimed(
            x,
            task,
            owner@,
            now@,
            lease_expires_at,
        )),
{
    match &task.claim_owner {
        Some(o) => {
            if !crate::text::text_eq(o.as_str(), owner) {
                let expires = match &task.claim_lease_expires_at {
                    Some(e) => e.clone(),
                    None => String::new(),
                };
                return Err(GranaryError::ClaimConflict { owner: o.clone(), expires_at: expires });
            }
        },
        None => {},
    }
    let mut r = task;
    r.claim_owner = Some(owned(owner));
    r.claim_claimed_at = Some(owned(now));
    match lease_expires_at {
        Some(e) => {
            r.claim_lease_expires_at = Some(e);
        },
        None => {},
    }
    r.last_edited_by = Some(owned(owner));
    Ok(r)
}

/// A claim keeps other agents off a task: once `a` holds it, a claim by
/// anyone else is refused, naming `a` as the holder, until the task is
/// released.
pub proof fn law_claim_excludes_others(
    t: Task,
    c: Task,
    a: Seq<char>,
    b: Seq<char>,
    now: Seq<char>,
    lease_expires_at: Option<String>,
)
    requires
        claimed(c, t, a, now, lease_expires_at),
        a != b,
    ensures
        c.claim_owner matches Some(o) && o@ == a && o@ != b,
{
}

/// Claims a task for `owner` now, as [`claim`] does: the claim time is the
/// time the clock reads, and with `lease_minutes` the lease ends that many
/// minutes later.
pub fn claim_task(task: Task, owner: &str, lease_minutes: Option<u32>) -> (r: Result<Task, GranaryError>)
    ensures
        (task.claim_owner matches Some(o) && o@ != owner@) ==> (r matches Err(
            GranaryError::ClaimConflict { owner: co, expires_at: e },
        ) && co == task.claim_owner->0 && e@ == (match task.claim_lease_expires_at {
            Some(x) => x@,
            None => Seq::empty(),
        })),
        !(task.claim_owner matches Some(o) && o@ != owner@) ==> (r matches Ok(x) && x.claim_claimed_at is Some
            && claimed(
            x,
            task,
            owner@,
            x.claim_claimed_at->0@,
            if lease_minutes is Some {
                x.claim_lease_expires_at
            } else {
                None
            },
        ) && (lease_minutes is Some ==> x.claim_lease_expires_at is Some)),
{
    let (now, lease) = match lease_minutes {
        Some(m) => {
            let (n, later) = crate::clock::now_and_minutes_later(m);
            (n, Some(later))
        },
        None => (crate::clock::now_rfc3339(), None),
    };
    claim(task, owner, &now, lease)
}

/// Extends the lease of a claimed task to `lease_expires_at`. A task with no
/// claim gives [`GranaryError::Conflict`].
pub fn heartbeat(task: Task, lease_expires_at: String) -> (r: Result<Task, GranaryError>)
    ensures
        task.claim_owner is None ==> (r matches Err(GranaryError::Conflict(m)) && m@ == "Task "@ + task.id@
            + " is not claimed"@),
        task.claim_owner is Some ==> (r matches Ok(x) && x == (Task {
            claim_lease_expires_at: Some(lease_expires_at),
            ..task
        })),
{
    if task.claim_owner.is_none() {
        let mut m = owned("Task ");
        push_str(&mut m, task.id.as_str());
        push_str(&mut m, " is not claimed");
        return Err(GranaryError::Conflict(m));
    }
    let mut r = task;
    r.claim_lease_expires_at = Some(lease_expires_at);
    Ok(r)
}

/// Extends the lease of a claimed task to `lease_minutes` minutes after the
/// time the clock reads, as [`heartbeat`] does.
pub fn heartbeat_task(task: Task, lease_minutes: u32) -> (r: Result<Task, GranaryError>)
    ensures
        task.claim_owner is None ==> (r matches Err(GranaryError::Conflict(m)) && m@ == "Task "@ + task.id@
            + " is not claimed"@),
        task.claim_owner is Some ==> (r matches Ok(x) && x.claim_lease_expires_at is Some && x == (Task {
            claim_lease_expires_at: x.claim_lease_expires_at,
            ..task
        })),
{
    let (_now, later) = crate::clock::now_and_minutes_later(lease_minutes);
    heartbeat(task, later)
}

/// `r` is `t` released: `todo`, no claim, last edited by whoever held it.
pub open spec fn released(r: Task, t: Task) -> bool {
    &&& same_but_state(r, t)
    &&& r.status@ == "todo"@
    &&& r.blocked_reason == t.blocked_reason
    &&& r.claim_owner is None
    &&& r.claim_claimed_at is None
    &&& r.claim_lease_expires_at is None
    &&& r.started_at == t.started_at
    &&& r.completed_at == t.completed_at
    &&& r.owner == t.owner
    &&& r.last_edited_by == t.claim_owner
}

/// Releases the claim on a task, which goes back to `todo`.
pub fn release(task: Task) -> (r: Task)
    ensures
        released(r, task),
{
    let holder = copy_opt(&task.claim_owner);
    let mut r = with_status(task, "todo");
    r.claim_owner = None;
    r.claim_claimed_at = None;
    r.claim_lease_expires_at = None;
    r.last_edited_by = holder;
    r
}

/// Releasing a task someone else has claimed gives it back to the pool: it
/// can then be claimed by anyone.
pub proof fn law_released_task_can_be_claimed(t: Task, r: Task, owner: Seq<char>)
    requires
        released(r, t),
    ensures
        !(r.claim_owner matches Some(o) && o@ != owner),
{
}

/// Pins or unpins a task.
pub fn set_pinned(task: Task, pinned: bool) -> (r: Task)
    ensures
        r == (Task { pinned: if pinned { 1 } else { 0 }, ..task }),
{
    let mut r = task;
    r.pinned = if pinned { 1 } else { 0 };
    r
}

/// The message for a review of a task that is not in review.
pub open spec fn not_in_review_message(t: Task) -> Seq<char> {
    "Task "@ + t.id@ + " is not in review (current status: "@ + t.status@ + ")"@
}

fn not_in_review(t: &Task) -> (r: GranaryError)
    ensures
        r matches GranaryError::Conflict(m) && m@ == not_in_review_message(*t),
{
    let mut m = owned("Task ");
    push_str(&mut m, t.id.as_str());
    push_str(&mut m, " is not in review (current status: ");
    push_str(&mut m, t.status.as_str());
    push_str(&mut m, ")");
    GranaryError::Conflict(m)
}

/// Approves the review of a task at `now`: it is done. A task not in review
/// gives [`GranaryError::Conflict`].
pub fn approve(task: Task, now: &str) -> (r: Result<Task, GranaryError>)
    ensures
        !is_in_review(task) ==> (r matches Err(GranaryError::Conflict(m)) && m@ == not_in_review_message(task)),
        is_in_review(task) ==> (r matches Ok(x) && same_but_state(x, task) && x.status@ == "done"@
            && (x.completed_at matches Some(c) && c@ == now@) && x.blocked_reason == task.blocked_reason
            && x.claim_owner == task.claim_owner && x.claim_claimed_at == task.claim_claimed_at
            && x.claim_lease_expires_at == task.claim_lease_expires_at && x.started_at == task.started_at
            && x.owner == task.owner && x.last_edited_by == task.owner),
{
    if !crate::text::text_eq(task.status.as_str(), "in_review") {
        return Err(not_in_review(&task));
    }
    let mut r = with_status(task, "done");
    r.completed_at = Some(owned(now));
    r.last_edited_by = copy_opt(&r.owner);
    Ok(r)
}

/// Approves the review of a task now, as [`approve`] does, with the time the
/// clock reads as its completion time.
pub fn approve_task(task: Task) -> (r: Result<Task, GranaryError>)
    ensures
        !is_in_review(task) ==> (r matches Err(GranaryError::Conflict(m)) && m@ == not_in_review_message(task)),
        is_in_review(task) ==> (r matches Ok(x) && same_but_state(x, task) && x.status@ == "done"@
            && x.completed_at is Some && x.blocked_reason == task.blocked_reason
            && x.claim_owner == task.claim_owner && x.claim_claimed_at == task.claim_claimed_at
            && x.claim_lease_expires_at == task.claim_lease_expires_at && x.started_at == task.started_at
            && x.owner == task.owner && x.last_edited_by == task.owner),
{
    let now = crate::clock::now_rfc3339();
    approve(task, &now)
}

/// Rejects the review of a task: it goes back to `todo`, unblocked and
/// unclaimed. A task not in review gives [`GranaryError::Conflict`].
pub fn reject(task: Task) -> (r: Result<Task, GranaryError>)
    ensures
        !is_in_review(task) ==> (r matches Err(GranaryError::Conflict(m)) && m@ == not_in_review_message(task)),
        is_in_review(task) ==> (r matches Ok(x) && same_but_state(x, task) && x.status@ == "todo"@
            && x.blocked_reason is None && x.claim_owner is None && x.claim_claimed_at is None
            && x.claim_lease_expires_at is None && x.started_at == task.started_at
            && x.completed_at == task.completed_at && x.owner == task.owner
            && x.last_edited_by == task.owner),
{
    if !crate::text::text_eq(task.status.as_str(), "in_review") {
        return Err(not_in_review(&task));
    }
    let mut r = with_status(task, "todo");
    r.blocked_reason = None;
    r.claim_owner = None;
    r.claim_claimed_at = None;
    r.claim_lease_expires_at = None;
    r.last_edited_by = copy_opt(&r.owner);
    Ok(r)
}

/// The verdict of a review.
#[derive(Debug, Clone, Copy, PartialEq, Eq, Structural)]
pub enum ReviewVerdict {
    Approved,
    Rejected,
}

/// The metadata of a review comment: `{"verdict":"approved"}` or
/// `{"verdict":"rejected"}`.
pub open spec fn verdict_meta(v: ReviewVerdict) -> Seq<char> {
    match v {
        ReviewVerdict::Approved => "{\"verdict\":\"approved\"}"@,
        ReviewVerdict::Rejected => "{\"verdict\":\"rejected\"}"@,
    }
}

/// The comment that records a review of the task or project `parent_id`:
/// kind `review`, its verdict in the metadata, the given content (empty when
/// none), written at `now` under the id `id` with the number `number`.
pub fn review_comment(
    id: String,
    parent_type: &str,
    parent_id: &str,
    number: i64,
    verdict: ReviewVerdict,
    content: Option<&str>,
    author: Option<String>,
    now: &str,
) -> (r: Comment)
    ensures
        r.id == id,
        r.parent_type@ == parent_type@,
        r.parent_id@ == parent_id@,
        r.comment_number == number,
        r.kind@ == "review"@,
        r.content@ == (match content {
            Some(c) => c@,
            None => Seq::empty(),
        }),
        r.author == author,
        r.meta matches Some(m) && m@ == verdict_meta(verdict),
        r.created_at@ == now@,
        r.updated_at@ == now@,
        r.version == 1,
{
    let meta = match verdict {
        ReviewVerdict::Approved => owned("{\"verdict\":\"approved\"}"),
        ReviewVerdict::Rejected => owned("{\"verdict\":\"rejected\"}"),
    };
    Comment {
        id,
        parent_type: owned(parent_type),
        parent_id: owned(parent_id),
        comment_number: number,
        kind: owned("review"),
        content: match content {
            Some(c) => owned(c),
            None => String::new(),
        },
        author,
        meta: Some(meta),
        created_at: owned(now),
        updated_at: owned(now),
        version: 1,
    }
}

/// The progress comment left on a task completed with a note: kind
/// `progress`, by the task's owner, written at `now`.
pub fn completion_comment(id: String, task: &Task, number: i64, content: &str, now: &str) -> (r: Comment)
    ensures
        r.id == id,
        r.parent_type@ == "task"@,
        r.parent_id == task.id,
        r.comment_number == number,
        r.kind@ == "progress"@,
        r.content@ == content@,
        r.author == task.owner,
        r.meta is None,
        r.created_at@ == now@,
        r.updated_at@ == now@,
        r.version == 1,
{
    Comment {
        id,
        parent_type: owned("task"),
        parent_id: task.id.clone(),
        comment_number: number,
        kind: owned("progress"),
        content: owned(content),
        author: copy_opt(&task.owner),
        meta: None,
        created_at: owned(now),
        updated_at: owned(now),
        version: 1,
    }
}

/// `xs` with `x` added at the end unless it is already there.
pub open spec fn with_member(xs: Seq<Seq<char>>, x: Seq<char>) -> Seq<Seq<char>> {
    if xs.contains(x) { xs } else { xs.push(x) }
}

fn push_unique(v: &mut Vec<String>, x: &str)
    ensures
        views(final(v)@) == with_member(views(old(v)@), x@),
{
    let ghost vs = views(v@);
    let mut i: usize = 0;
    while i < v.len()
        invariant
            i <= v.len(),
            vs == views(v@),
            forall|k: int| 0 <= k < i ==> #[trigger] vs[k] != x@,
        decreases v.len() - i,
    {
        if crate::text::text_eq(v[i].as_str(), x) {
            assert(vs[i as int] == x@);
            return;
        }
        i = i + 1;
    }
    assert(!vs.contains(x@));
    v.push(owned(x));
    assert(views(v@) =~= vs.push(x@));
}

/// `r` is `t` tied to a run it started: the worker's id among the task's
/// workers (once), the run's id at the end of its runs, and the run as its
/// owner when it had none (or an empty one).
pub open spec fn associated(r: Task, t: Task, worker_id: Seq<char>, run_id: Seq<char>) -> bool {
    &&& r == (Task { worker_ids: r.worker_ids, run_ids: r.run_ids, owner: r.owner, ..t })
    &&& r.worker_ids matches Some(w) && w@ == string_list_json(with_member(optional_strings(t.worker_ids), worker_id))
    &&& r.run_ids matches Some(x) && x@ == string_list_json(optional_strings(t.run_ids).push(run_id))
    &&& r.owner == (match t.owner {
        Some(o) => if o@.len() == 0 { r.owner } else { Some(o) },
        None => r.owner,
    })
    &&& ((t.owner is None || t.owner->0@.len() == 0) ==> (r.owner matches Some(o) && o@ == run_id))
}

/// Ties a task to the run `run_id` that the worker `worker_id` started for
/// it (see [`associated`]). It always succeeds.
pub fn associate_run(task: Task, worker_id: &str, run_id: &str) -> (r: Result<Task, GranaryError>)
    ensures
        r matches Ok(x) ==> associated(x, task, worker_id@, run_id@),
        r is Ok,
{
    let mut workers = task.worker_ids_vec();
    push_unique(&mut workers, worker_id);
    let mut runs = task.run_ids_vec();
    runs.push(owned(run_id));
    assert(views(runs@) =~= optional_strings(task.run_ids).push(run_id@));
    let worker_text = match strings_to_json(&workers) {
        Ok(t) => t,
        Err(e) => return Err(GranaryError::Json(e)),
    };
    let run_text = match strings_to_json(&runs) {
        Ok(t) => t,
        Err(e) => return Err(GranaryError::Json(e)),
    };
    let unowned = match &task.owner {
        Some(o) => crate::text::chars_of(o.as_str()).len() == 0,
        None => true,
    };
    let mut r = task;
    r.worker_ids = Some(worker_text);
    r.run_ids = Some(run_text);
    if unowned {
        r.owner = Some(owned(run_id));
    }
    Ok(r)
}

/// Changes asked of a task; a field left `None` is kept as it is. Status and
/// priority are given by name.
#[derive(Debug, Default)]
pub struct UpdateTask {
    pub title: Option<String>,
    pub description: Option<String>,
    pub status: Option<String>,
    pub priority: Option<String>,
    pub owner: Option<String>,
    pub tags: Option<Vec<String>>,
    pub worker_ids: Option<Vec<String>>,
    pub run_ids: Option<Vec<String>>,
    pub blocked_reason: Option<String>,
    pub due_at: Option<String>,
    pub pinned: Option<bool>,
    pub focus_weight: Option<i64>,
}

/// The new value of a field: the given one, or the old one.
pub open spec fn updated<A>(new: Option<A>, old: A) -> A {
    match new {
        Some(v) => v,
        None => old,
    }
}

/// The new value of an optional field: the given one, or the old one.
pub open spec fn updated_opt<A>(new: Option<A>, old: Option<A>) -> Option<A> {
    match new {
        Some(v) => Some(v),
        None => old,
    }
}

/// The new value of a list field held as JSON text.
pub open spec fn updated_list(new: Option<Vec<String>>, old: Option<String>) -> Option<Seq<char>> {
    match new {
        Some(v) => Some(string_list_json(views(v@))),
        None => match old {
            Some(t) => Some(t@),
            None => None,
        },
    }
}

/// The view of an optional string.
pub open spec fn opt_chars(o: Option<String>) -> Option<Seq<char>> {
    match o {
        Some(s) => Some(s@),
        None => None,
    }
}

fn list_field(new: Option<Vec<String>>, old: Option<String>) -> (r: Result<Option<String>, GranaryError>)
    ensures
        r matches Ok(x) ==> opt_chars(x) == updated_list(new, old),
        r is Ok,
{
    match new {
        Some(v) => match strings_to_json(&v) {
            Ok(t) => Ok(Some(t)),
            Err(e) => Err(GranaryError::Json(e)),
        },
        None => Ok(old),
    }
}

/// Applies the changes `u` to a task: each given field replaces the old
/// one, lists are written as JSON text, and the task is last edited by its
/// (new) owner. It always succeeds.
pub fn apply_update(task: Task, u: UpdateTask) -> (r: Result<Task, GranaryError>)
    ensures
        r matches Ok(x) ==> {
            &&& x.id == task.id
            &&& x.project_id == task.project_id
            &&& x.task_number == task.task_number
            &&& x.parent_task_id == task.parent_task_id
            &&& x.title == updated(u.title, task.title)
            &&& x.description == updated_opt(u.description, task.description)
            &&& x.status == updated(u.status, task.status)
            &&& x.priority == updated(u.priority, task.priority)
            &&& x.owner == updated_opt(u.owner, task.owner)
            &&& opt_chars(x.tags) == updated_list(u.tags, task.tags)
            &&& opt_chars(x.worker_ids) == updated_list(u.worker_ids, task.worker_ids)
            &&& opt_chars(x.run_ids) == updated_list(u.run_ids, task.run_ids)
            &&& x.blocked_reason == updated_opt(u.blocked_reason, task.blocked_reason)
            &&& x.started_at == task.started_at
            &&& x.completed_at == task.completed_at
            &&& x.due_at == updated_opt(u.due_at, task.due_at)
            &&& x.claim_owner == task.claim_owner
            &&& x.claim_claimed_at == task.claim_claimed_at
            &&& x.claim_lease_expires_at == task.claim_lease_expires_at
            &&& x.pinned == (match u.pinned {
                Some(p) => if p { 1i64 } else { 0i64 },
                None => task.pinned,
            })
            &&& x.focus_weight == updated(u.focus_weight, task.focus_weight)
            &&& x.created_at == task.created_at
            &&& x.updated_at == task.updated_at
            &&& x.version == task.version
            &&& x.last_edited_by == x.owner
        },
        r is Ok,
{
    let mut t = task;
    let tags = list_field(u.tags, copy_opt(&t.tags))?;
    let worker_ids = list_field(u.worker_ids, copy_opt(&t.worker_ids))?;
    let run_ids = list_field(u.run_ids, copy_opt(&t.run_ids))?;
    if let Some(v) = u.title {
        t.title = v;
    }
    if let Some(v) = u.description {
        t.description = Some(v);
    }
    if let Some(v) = u.status {
        t.status = v;
    }
    if let Some(v) = u.priority {
        t.priority = v;
    }
    if let Some(v) = u.owner {
        t.owner = Some(v);
    }
    t.tags = tags;
    t.worker_ids = worker_ids;
    t.run_ids = run_ids;
    if let Some(v) = u.blocked_reason {
        t.blocked_reason = Some(v);
    }
    if let Some(v) = u.due_at {
        t.due_at = Some(v);
    }
    if let Some(p) = u.pinned {
        t.pinned = if p { 1 } else { 0 };
    }
    if let Some(w) = u.focus_weight {
        t.focus_weight = w;
    }
    t.last_edited_by = copy_opt(&t.owner);
    Ok(t)
}

/// The error of a dependency that would close a cycle.
pub fn dependency_cycle(task_id: &str, depends_on: &str) -> (r: GranaryError)
    ensures
        r matches GranaryError::DependencyCycle(m) && m@ == "Adding dependency "@ + task_id@ + " -> "@
            + depends_on@ + " would create a cycle"@,
{
    let mut m = owned("Adding dependency ");
    push_str(&mut m, task_id);
    push_str(&mut m, " -> ");
    push_str(&mut m, depends_on);
    push_str(&mut m, " would create a cycle");
    GranaryError::DependencyCycle(m)
}

/// What a new task is made from; status and priority are given by name.
#[derive(Debug, Default)]
pub struct CreateTask {
    pub project_id: String,
    pub title: String,
    pub description: Option<String>,
    pub status: String,
    pub priority: String,
    pub owner: Option<String>,
    pub parent_task_id: Option<String>,
    pub tags: Vec<String>,
    pub due_at: Option<String>,
}

/// `t` is the new task with the id `id` and the number `number` in its
/// project, made from `input` at `now`: not blocked, claimed, started or
/// finished, not pinned, version 1, last edited by its owner; an empty tag
/// list is not stored.
pub open spec fn created_task(t: Task, id: String, number: i64, input: CreateTask, now: Seq<char>) -> bool {
    &&& t.id == id
    &&& t.project_id == input.project_id
    &&& t.task_number == number
    &&& t.parent_task_id == input.parent_task_id
    &&& t.title == input.title
    &&& t.description == input.description
    &&& t.status == input.status
    &&& t.priority == input.priority
    &&& t.owner == input.owner
    &&& stored_chars(t.tags) == stored_list(input.tags@)
    &&& t.worker_ids is None
    &&& t.run_ids is None
    &&& t.blocked_reason is None
    &&& t.started_at is None
    &&& t.completed_at is None
    &&& t.due_at == input.due_at
    &&& t.claim_owner is None
    &&& t.claim_claimed_at is None
    &&& t.claim_lease_expires_at is None
    &&& t.pinned == 0
    &&& t.focus_weight == 0
    &&& t.created_at@ == now
    &&& t.updated_at@ == now
    &&& t.version == 1
    &&& t.last_edited_by == input.owner
}

/// A new task with the id `id` and the number `number` in its project,
/// created at `now`. It always succeeds.
pub fn new_task(id: String, number: i64, input: CreateTask, now: &str) -> (r: Result<Task, GranaryError>)
    ensures
        r matches Ok(t) ==> created_task(t, id, number, input, now@),
        r is Ok,
{
    let tags = if input.tags.len() == 0 {
        None
    } else {
        match strings_to_json(&input.tags) {
            Ok(t) => Some(t),
            Err(e) => {
                return Err(GranaryError::Json(e));
            },
        }
    };
    let last_edited_by = copy_opt(&input.owner);
    Ok(Task {
        id,
        project_id: input.project_id,
        task_number: number,
        parent_task_id: input.parent_task_id,
        title: input.title,
        description: input.description,
        status: input.status,
        priority: input.priority,
        owner: input.owner,
        tags,
        worker_ids: None,
        run_ids: None,
        blocked_reason: None,
        started_at: None,
        completed_at: None,
        due_at: input.due_at,
        claim_owner: None,
        claim_claimed_at: None,
        claim_lease_expires_at: None,
        pinned: 0,
        focus_weight: 0,
        created_at: owned(now),
        updated_at: owned(now),
        version: 1,
        last_edited_by,
    })
}

/// Creates a task now: [`new_task`] at the time the clock reads, which
/// becomes its creation and update time.
pub fn create_task(id: String, number: i64, input: CreateTask) -> (r: Result<Task, GranaryError>)
    ensures
        r matches Ok(t) ==> created_task(t, id, number, input, t.created_at@),
        r is Ok,
{
    let now = crate::clock::now_rfc3339();
    new_task(id, number, input, &now)
}

} // verus!
