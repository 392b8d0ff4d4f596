//! Sessions: a new session, what an update or a close writes, the focus
//! task, the shell export of a session, and the session pointer file.
use vstd::prelude::*;
use crate::error::GranaryError;
use crate::json::{pair_views, pairs_object_json, pairs_to_json};
use crate::models::session::{CreateSession, Session, UpdateSession};
use crate::models::task::Comment;
use crate::text::copy_opt;
use crate::path::{join_path, path_join};
use crate::services::workspace::{SESSION_FILE, Workspace};
use crate::text::{owned, push_str};

verus! {

/// The shell lines that export a session and its workspace.
pub open spec fn session_env_text(session_id: Seq<char>, workspace_path: Seq<char>) -> Seq<char> {
    "export GRANARY_SESSION="@ + session_id + "\n"@ + "export GRANARY_HOME="@ + workspace_path + "\n"@
}

/// The shell lines that export a session and its workspace.
pub fn get_session_env(session_id: &str, workspace_path: &str) -> (r: String)
    ensures
        r@ == session_env_text(session_id@, workspace_path@),
{
    let mut out = owned("export GRANARY_SESSION=");
    push_str(&mut out, session_id);
    push_str(&mut out, "\n");
    push_str(&mut out, "export GRANARY_HOME=");
    push_str(&mut out, workspace_path);
    push_str(&mut out, "\n");
    out
}

/// The write that makes `session_id` the current session of a workspace: the
/// session file in the workspace's directory, and its content.
pub fn set_current_session(workspace: &Workspace, session_id: &str) -> (r: (String, String))
    ensures
        r.0@ == path_join(workspace.granary_dir@, "session"@),
        r.1@ == session_id@,
{
    (join_path(workspace.granary_dir.as_str(), SESSION_FILE), owned(session_id))
}

/// `r` is the new session with the id `id` made from `input` at `now`: no
/// focus task, no variables, open.
pub open spec fn created_session(r: Session, id: String, input: CreateSession, now: Seq<char>) -> bool {
    &&& r.id == id
    &&& r.name == input.name
    &&& r.owner == input.owner
    &&& r.mode matches Some(m) && m@ == input.mode.name()
    &&& r.focus_task_id is None
    &&& r.variables is None
    &&& r.created_at@ == now
    &&& r.updated_at@ == now
    &&& r.closed_at is None
    &&& r.last_edited_by is None
}

/// A new session with the id `id`, started at `now`.
pub fn new_session(id: String, input: CreateSession, now: &str) -> (r: Session)
    ensures
        created_session(r, id, input, now@),
{
    Session {
        id,
        name: input.name,
        owner: input.owner,
        mode: Some(owned(input.mode.as_str())),
        focus_task_id: None,
        variables: None,
        created_at: owned(now),
        updated_at: owned(now),
        closed_at: None,
        last_edited_by: None,
    }
}

/// Creates a session now: [`new_session`] at the time the clock reads,
/// which becomes its creation and update time.
pub fn create_session(id: String, input: CreateSession) -> (r: Session)
    ensures
        created_session(r, id, input, r.created_at@),
{
    let now = crate::clock::now_rfc3339();
    new_session(id, input, &now)
}

/// Applies the changes `u` to a session: each given field replaces the old
/// one; variables are written as a JSON object. It always succeeds.
pub fn apply_session_update(session: Session, u: UpdateSession) -> (r: Result<Session, GranaryError>)
    ensures
        r matches Ok(x) ==> {
            &&& x.id == session.id
            &&& x.name == (match u.name {
                Some(n) => Some(n),
                None => session.name,
            })
            &&& x.owner == (match u.owner {
                Some(o) => Some(o),
                None => session.owner,
            })
            &&& (match u.mode {
                Some(m) => x.mode matches Some(t) && t@ == m.name(),
                None => x.mode == session.mode,
            })
            &&& x.focus_task_id == (match u.focus_task_id {
                Some(f) => Some(f),
                None => session.focus_task_id,
            })
            &&& (match u.variables {
                Some(v) => x.variables matches Some(t) && t@ == pairs_object_json(pair_views(v@)),
                None => x.variables == session.variables,
            })
            &&& x.created_at == session.created_at
            &&& x.updated_at == session.updated_at
            &&& x.closed_at == session.closed_at
            &&& x.last_edited_by == session.last_edited_by
        },
        r is Ok,
{
    let mut r = session;
    if let Some(v) = u.variables {
        match pairs_to_json(&v) {
            Ok(t) => {
                r.variables = Some(t);
            },
            Err(e) => {
                return Err(GranaryError::Json(e));
            },
        }
    }
    if let Some(n) = u.name {
        r.name = Some(n);
    }
    if let Some(o) = u.owner {
        r.owner = Some(o);
    }
    if let Some(m) = u.mode {
        r.mode = Some(owned(m.as_str()));
    }
    if let Some(f) = u.focus_task_id {
        r.focus_task_id = Some(f);
    }
    Ok(r)
}

/// Refuses to close a session that is already closed, with
/// [`GranaryError::Conflict`].
pub fn check_can_close(session: &Session) -> (r: Result<(), GranaryError>)
    ensures
        session.closed_at is None <==> r is Ok,
        r matches Err(e) ==> (e matches GranaryError::Conflict(m) && m@ == "Session "@ + session.id@
            + " is already closed"@),
{
    if session.is_closed() {
        let mut m = owned("Session ");
        push_str(&mut m, session.id.as_str());
        push_str(&mut m, " is already closed");
        return Err(GranaryError::Conflict(m));
    }
    Ok(())
}

/// The comment that keeps the summary a session was closed with: kind
/// `handoff`, by the session's owner, written at `now`.
pub fn closing_summary(id: String, session: &Session, number: i64, content: &str, now: &str) -> (r: Comment)
    ensures
        r.id == id,
        r.parent_type@ == "session"@,
        r.parent_id == session.id,
        r.comment_number == number,
        r.kind@ == "handoff"@,
        r.content@ == content@,
        r.author == session.owner,
        r.meta is None,
        r.created_at@ == now@,
        r.updated_at@ == now@,
        r.version == 1,
{
    Comment {
        id,
        parent_type: owned("session"),
        parent_id: session.id.clone(),
        comment_number: number,
        kind: owned("handoff"),
        content: owned(content),
        author: copy_opt(&session.owner),
        meta: None,
        created_at: owned(now),
        updated_at: owned(now),
        version: 1,
    }
}

/// Whether closing the session `id` also clears the workspace's current
/// session: when it is that session.
pub fn clears_current(current: &Option<String>, id: &str) -> (r: bool)
    ensures
        r == (current matches Some(c) && c@ == id@),
{
    match current {
        Some(c) => crate::text::text_eq(c.as_str(), id),
        None => false,
    }
}

/// The session with its focus on the task `task_id`, or with no focus.
pub fn with_focus(session: Session, task_id: Option<&str>) -> (r: Session)
    ensures
        r == (Session { focus_task_id: r.focus_task_id, ..session }),
        match task_id {
            Some(t) => r.focus_task_id matches Some(f) && f@ == t@,
            None => r.focus_task_id is None,
        },
{
    let mut r = session;
    r.focus_task_id = match task_id {
        Some(t) => Some(owned(t)),
        None => None,
    };
    r
}

} // verus!
