//! Text output for people: a card for one item, a table for a list.
//!
//! Tables are drawn by `tabled`, from the header and the rows built here.
use vstd::prelude::*;
use crate::json::strings_or_empty;
use crate::models::artifact::Artifact;
use crate::models::checkpoint::Checkpoint;
use crate::models::initiative::{Initiative, InitiativeBlockerInfo, InitiativeSummary, NextAction, ProjectSummary};
use crate::text::concat;
use crate::models::project::{Project, optional_strings};
use crate::models::run::Run;
use crate::models::session::Session;
use crate::models::task::{Comment, Task};
use crate::models::worker::Worker;
use crate::models::search::SearchResult;
use vstd::string::StringSliceAdditionalSpecFns;
use crate::text::{
    can_truncate, dec, int_text, join, line, list_line, opt_line, owned, push_int, push_line, push_list_line,
    push_nat, push_opt_line, push_str, truncate, truncated, views,
};

verus! {

/// The value, or `default` when there is none.
pub open spec fn or_default(o: Option<String>, default: Seq<char>) -> Seq<char> {
    match o {
        Some(s) => s@,
        None => default,
    }
}

/// The value, or `default` when there is none.
fn value_or<'a>(o: &'a Option<String>, default: &'a str) -> (r: &'a str)
    ensures
        r@ == or_default(*o, default@),
{
    match o {
        Some(s) => s.as_str(),
        None => default,
    }
}

/// The card of a project.
pub open spec fn project_card(p: Project) -> Seq<char> {
    line("Project: "@, p.name@) + line("  ID:          "@, p.id@) + line("  Status:      "@, p.status@) + line(
        "  Owner:       "@,
        or_default(p.owner, "-"@),
    ) + opt_line("  Description: "@, p.description) + list_line(
        "  Tags:        "@,
        optional_strings(p.tags),
        ", "@,
    ) + line("  Created:     "@, p.created_at@) + line("  Updated:     "@, p.updated_at@)
}

/// Formats a project as a card.
pub fn format_project(project: &Project) -> (r: String)
    ensures
        r@ == project_card(*project),
{
    let mut out = String::new();
    push_line(&mut out, "Project: ", project.name.as_str());
    push_line(&mut out, "  ID:          ", project.id.as_str());
    push_line(&mut out, "  Status:      ", project.status.as_str());
    push_line(&mut out, "  Owner:       ", value_or(&project.owner, "-"));
    push_opt_line(&mut out, "  Description: ", &project.description);
    let tags = project.tags_vec();
    push_list_line(&mut out, "  Tags:        ", tags.as_slice(), ", ");
    push_line(&mut out, "  Created:     ", project.created_at.as_str());
    push_line(&mut out, "  Updated:     ", project.updated_at.as_str());
    out
}

/// The lines of a task's card about its claim.
pub open spec fn claim_lines(t: Task) -> Seq<char> {
    match t.claim_owner {
        Some(o) => line("  Claimed by:  "@, o@) + opt_line("  Lease until: "@, t.claim_lease_expires_at),
        None => Seq::empty(),
    }
}

/// The first lines of a task's card.
pub open spec fn task_card_head(t: Task) -> Seq<char> {
    line("Task: "@, t.title@) + line("  ID:          "@, t.id@) + line("  Project:     "@, t.project_id@) + line(
        "  Status:      "@,
        t.status@,
    ) + line("  Priority:    "@, t.priority@) + line("  Owner:       "@, or_default(t.owner, "-"@)) + opt_line(
        "  Parent:      "@,
        t.parent_task_id,
    ) + opt_line("  Description: "@, t.description) + opt_line("  Blocked:     "@, t.blocked_reason)
}

/// The card of a task, listing the tasks that block it.
pub open spec fn task_card(t: Task, blocked_by: Seq<Seq<char>>) -> Seq<char> {
    task_card_head(t) + list_line("  Blocked by:  "@, blocked_by, ", "@) + opt_line("  Due:         "@, t.due_at) + (
    if t.pinned != 0 {
        "  Pinned:      yes\n"@
    } else {
        Seq::empty()
    }) + claim_lines(t) + line("  Created:     "@, t.created_at@) + line("  Updated:     "@, t.updated_at@)
}

/// Appends the first lines of a task's card.
fn push_task_head(out: &mut String, task: &Task)
    ensures
        final(out)@ == old(out)@ + task_card_head(*task),
{
    let ghost start = out@;
    push_line(out, "Task: ", task.title.as_str());
    push_line(out, "  ID:          ", task.id.as_str());
    push_line(out, "  Project:     ", task.project_id.as_str());
    push_line(out, "  Status:      ", task.status.as_str());
    push_line(out, "  Priority:    ", task.priority.as_str());
    push_line(out, "  Owner:       ", value_or(&task.owner, "-"));
    push_opt_line(out, "  Parent:      ", &task.parent_task_id);
    push_opt_line(out, "  Description: ", &task.description);
    push_opt_line(out, "  Blocked:     ", &task.blocked_reason);
    assert(out@ =~= start + task_card_head(*task));
}

/// Formats a task as a card.
pub fn format_task(task: &Task) -> (r: String)
    ensures
        r@ == task_card(*task, Seq::empty()),
{
    let none: Vec<String> = Vec::new();
    assert(views(none@) =~= Seq::<Seq<char>>::empty());
    format_task_with_deps(task, none.as_slice())
}

/// Formats a task as a card, listing the tasks that block it.
pub fn format_task_with_deps(task: &Task, blocked_by: &[String]) -> (r: String)
    ensures
        r@ == task_card(*task, views(blocked_by@)),
{
    let mut out = String::new();
    push_task_head(&mut out, task);
    push_list_line(&mut out, "  Blocked by:  ", blocked_by, ", ");
    push_opt_line(&mut out, "  Due:         ", &task.due_at);
    let ghost before_pin = out@;
    if task.pinned != 0 {
        push_str(&mut out, "  Pinned:      yes\n");
    }
    let ghost before_claim = out@;
    match task.claim_info() {
        Some(claim) => {
            push_line(&mut out, "  Claimed by:  ", claim.owner.as_str());
            push_opt_line(&mut out, "  Lease until: ", &claim.lease_expires_at);
        },
        None => {},
    }
    assert(out@ =~= before_claim + claim_lines(*task));
    push_line(&mut out, "  Created:     ", task.created_at.as_str());
    push_line(&mut out, "  Updated:     ", task.updated_at.as_str());
    assert(out@ =~= task_card(*task, views(blocked_by@)));
    out
}

/// The card of a comment.
pub open spec fn comment_card(c: Comment) -> Seq<char> {
    line("Comment: "@, c.id@) + line("  Kind:    "@, c.kind@) + line("  Parent:  "@, c.parent_id@) + line(
        "  Author:  "@,
        or_default(c.author, "-"@),
    ) + line("  Created: "@, c.created_at@) + "\n"@ + c.content@ + "\n"@
}

/// Formats a comment as a card, its content last.
pub fn format_comment(comment: &Comment) -> (r: String)
    ensures
        r@ == comment_card(*comment),
{
    let mut out = String::new();
    push_line(&mut out, "Comment: ", comment.id.as_str());
    push_line(&mut out, "  Kind:    ", comment.kind.as_str());
    push_line(&mut out, "  Parent:  ", comment.parent_id.as_str());
    push_line(&mut out, "  Author:  ", value_or(&comment.author, "-"));
    push_line(&mut out, "  Created: ", comment.created_at.as_str());
    push_str(&mut out, "\n");
    push_str(&mut out, comment.content.as_str());
    push_str(&mut out, "\n");
    out
}

/// The card of a session.
pub open spec fn session_card(s: Session) -> Seq<char> {
    line("Session: "@, or_default(s.name, "Unnamed Session"@)) + line("  ID:     "@, s.id@) + line(
        "  Mode:   "@,
        or_default(s.mode, "execute"@),
    ) + line("  Owner:  "@, or_default(s.owner, "-"@)) + line(
        "  Status: "@,
        if s.closed_at is Some {
            "closed"@
        } else {
            "active"@
        },
    ) + opt_line("  Focus:  "@, s.focus_task_id) + line("  Created: "@, s.created_at@) + opt_line(
        "  Closed:  "@,
        s.closed_at,
    )
}

/// Formats a session as a card.
pub fn format_session(session: &Session) -> (r: String)
    ensures
        r@ == session_card(*session),
{
    let mut out = String::new();
    push_line(&mut out, "Session: ", value_or(&session.name, "Unnamed Session"));
    push_line(&mut out, "  ID:     ", session.id.as_str());
    push_line(&mut out, "  Mode:   ", value_or(&session.mode, "execute"));
    push_line(&mut out, "  Owner:  ", value_or(&session.owner, "-"));
    let status = if session.is_closed() { "closed" } else { "active" };
    push_line(&mut out, "  Status: ", status);
    push_opt_line(&mut out, "  Focus:  ", &session.focus_task_id);
    push_line(&mut out, "  Created: ", session.created_at.as_str());
    push_opt_line(&mut out, "  Closed:  ", &session.closed_at);
    out
}

/// The card of a checkpoint.
pub open spec fn checkpoint_card(c: Checkpoint) -> Seq<char> {
    line("Checkpoint: "@, c.name@) + line("  ID:      "@, c.id@) + line("  Session: "@, c.session_id@) + line(
        "  Created: "@,
        c.created_at@,
    )
}

/// Formats a checkpoint as a card.
pub fn format_checkpoint(checkpoint: &Checkpoint) -> (r: String)
    ensures
        r@ == checkpoint_card(*checkpoint),
{
    let mut out = String::new();
    push_line(&mut out, "Checkpoint: ", checkpoint.name.as_str());
    push_line(&mut out, "  ID:      ", checkpoint.id.as_str());
    push_line(&mut out, "  Session: ", checkpoint.session_id.as_str());
    push_line(&mut out, "  Created: ", checkpoint.created_at.as_str());
    out
}

/// The card of an artifact.
pub open spec fn artifact_card(a: Artifact) -> Seq<char> {
    line("Artifact: "@, a.id@) + line("  Type:   "@, a.artifact_type@) + line("  Path:   "@, a.path_or_url@)
        + opt_line("  Desc:   "@, a.description) + line("  Parent: "@, a.parent_id@)
}

/// Formats an artifact as a card.
pub fn format_artifact(artifact: &Artifact) -> (r: String)
    ensures
        r@ == artifact_card(*artifact),
{
    let mut out = String::new();
    push_line(&mut out, "Artifact: ", artifact.id.as_str());
    push_line(&mut out, "  Type:   ", artifact.artifact_type.as_str());
    push_line(&mut out, "  Path:   ", artifact.path_or_url.as_str());
    push_opt_line(&mut out, "  Desc:   ", &artifact.description);
    push_line(&mut out, "  Parent: ", artifact.parent_id.as_str());
    out
}

/// The text about the next task: its card, or why there is none.
pub open spec fn next_task_card(task: Option<&Task>, reason: Option<&str>) -> Seq<char> {
    match task {
        Some(t) => "Next task:\n"@ + line("  ID:       "@, t.id@) + line("  Title:    "@, t.title@) + line(
            "  Priority: "@,
            t.priority@,
        ) + line("  Status:   "@, t.status@) + match reason {
            Some(r) => line("  Reason:   "@, r@),
            None => Seq::empty(),
        },
        None => line(
            "No next task: "@,
            match reason {
                Some(r) => r@,
                None => "No actionable tasks found"@,
            },
        ),
    }
}

/// Formats the next task, or why there is none.
pub fn format_next_task(task: Option<&Task>, reason: Option<&str>) -> (r: String)
    ensures
        r@ == next_task_card(task, reason),
{
    match task {
        Some(t) => {
            let mut out = owned("Next task:\n");
            push_line(&mut out, "  ID:       ", t.id.as_str());
            push_line(&mut out, "  Title:    ", t.title.as_str());
            push_line(&mut out, "  Priority: ", t.priority.as_str());
            push_line(&mut out, "  Status:   ", t.status.as_str());
            let ghost before = out@;
            match reason {
                Some(r) => push_line(&mut out, "  Reason:   ", r),
                None => {},
            }
            assert(out@ =~= next_task_card(task, reason));
            out
        },
        None => {
            let mut out = String::new();
            let why = match reason {
                Some(r) => r,
                None => "No actionable tasks found",
            };
            push_line(&mut out, "No next task: ", why);
            out
        },
    }
}

/// The card of an initiative.
pub open spec fn initiative_card(i: Initiative) -> Seq<char> {
    line("Initiative: "@, i.name@) + line("  ID:          "@, i.id@) + line("  Status:      "@, i.status@) + line(
        "  Owner:       "@,
        or_default(i.owner, "-"@),
    ) + opt_line("  Description: "@, i.description) + list_line(
        "  Tags:        "@,
        optional_strings(i.tags),
        ", "@,
    ) + line("  Created:     "@, i.created_at@) + line("  Updated:     "@, i.updated_at@)
}

/// Formats an initiative as a card.
pub fn format_initiative(initiative: &Initiative) -> (r: String)
    ensures
        r@ == initiative_card(*initiative),
{
    let mut out = String::new();
    push_line(&mut out, "Initiative: ", initiative.name.as_str());
    push_line(&mut out, "  ID:          ", initiative.id.as_str());
    push_line(&mut out, "  Status:      ", initiative.status.as_str());
    push_line(&mut out, "  Owner:       ", value_or(&initiative.owner, "-"));
    push_opt_line(&mut out, "  Description: ", &initiative.description);
    let tags = initiative.tags_vec();
    push_list_line(&mut out, "  Tags:        ", tags.as_slice(), ", ");
    push_line(&mut out, "  Created:     ", initiative.created_at.as_str());
    push_line(&mut out, "  Updated:     ", initiative.updated_at.as_str());
    out
}

/// An optional number as text.
pub open spec fn opt_int_line(label: Seq<char>, v: Option<int>) -> Seq<char> {
    match v {
        Some(n) => line(label, int_text(n)),
        None => Seq::empty(),
    }
}

/// Appends `label`, a number and a newline.
fn push_int_line(out: &mut String, label: &str, n: i64)
    ensures
        final(out)@ == old(out)@ + line(label@, int_text(n as int)),
{
    let ghost start = out@;
    push_str(out, label);
    push_int(out, n);
    crate::text::push_char(out, '\n');
    assert(out@ =~= start + line(label@, int_text(n as int)));
}

/// The first lines of a worker's card.
pub open spec fn worker_card_head(w: Worker) -> Seq<char> {
    line("Worker: "@, w.id@) + line("  Status:      "@, w.status@) + opt_line("  Runner:      "@, w.runner_name)
        + line("  Command:     "@, w.command@) + list_line("  Args:        "@, strings_or_empty(w.args@), " "@)
        + line("  Event Type:  "@, w.event_type@) + list_line(
        "  Filters:     "@,
        strings_or_empty(w.filters@),
        ", "@,
    )
}

/// The card of a worker.
pub open spec fn worker_card(w: Worker) -> Seq<char> {
    worker_card_head(w) + line("  Concurrency: "@, int_text(w.concurrency as int)) + line(
        "  Workspace:   "@,
        w.instance_path@,
    ) + line(
        "  Detached:    "@,
        if w.detached {
            "yes"@
        } else {
            "no"@
        },
    ) + opt_int_line(
        "  PID:         "@,
        match w.pid {
            Some(p) => Some(p as int),
            None => None,
        },
    ) + opt_line("  Error:       "@, w.error_message) + line("  Created:     "@, w.created_at@) + line(
        "  Updated:     "@,
        w.updated_at@,
    ) + opt_line("  Stopped:     "@, w.stopped_at)
}

/// Appends the first lines of a worker's card.
fn push_worker_head(out: &mut String, worker: &Worker)
    ensures
        final(out)@ == old(out)@ + worker_card_head(*worker),
{
    let ghost start = out@;
    push_line(out, "Worker: ", worker.id.as_str());
    push_line(out, "  Status:      ", worker.status.as_str());
    push_opt_line(out, "  Runner:      ", &worker.runner_name);
    push_line(out, "  Command:     ", worker.command.as_str());
    let args = worker.args_vec();
    push_list_line(out, "  Args:        ", args.as_slice(), " ");
    push_line(out, "  Event Type:  ", worker.event_type.as_str());
    let filters = worker.filters_vec();
    push_list_line(out, "  Filters:     ", filters.as_slice(), ", ");
    assert(out@ =~= start + worker_card_head(*worker));
}

/// Formats a worker as a card.
pub fn format_worker(worker: &Worker) -> (r: String)
    ensures
        r@ == worker_card(*worker),
{
    let mut out = String::new();
    push_worker_head(&mut out, worker);
    push_int_line(&mut out, "  Concurrency: ", worker.concurrency as i64);
    push_line(&mut out, "  Workspace:   ", worker.instance_path.as_str());
    push_line(&mut out, "  Detached:    ", if worker.detached { "yes" } else { "no" });
    let ghost before_pid = out@;
    match worker.pid {
        Some(p) => push_int_line(&mut out, "  PID:         ", p),
        None => {},
    }
    assert(out@ =~= before_pid + opt_int_line(
        "  PID:         "@,
        match worker.pid {
            Some(p) => Some(p as int),
            None => None,
        },
    ));
    push_opt_line(&mut out, "  Error:       ", &worker.error_message);
    push_line(&mut out, "  Created:     ", worker.created_at.as_str());
    push_line(&mut out, "  Updated:     ", worker.updated_at.as_str());
    push_opt_line(&mut out, "  Stopped:     ", &worker.stopped_at);
    assert(out@ =~= worker_card(*worker));
    out
}

/// The first lines of a run's card.
pub open spec fn run_card_head(r: Run) -> Seq<char> {
    line("Run: "@, r.id@) + line("  Worker:      "@, r.worker_id@) + line("  Event ID:    "@, int_text(r.event_id as int))
        + line("  Event Type:  "@, r.event_type@) + line("  Entity ID:   "@, r.entity_id@) + line(
        "  Status:      "@,
        r.status@,
    ) + line("  Attempt:     "@, int_text(r.attempt as int) + "/"@ + int_text(r.max_attempts as int)) + line(
        "  Command:     "@,
        r.command@,
    ) + list_line("  Args:        "@, strings_or_empty(r.args@), " "@)
}

/// The card of a run.
pub open spec fn run_card(r: Run) -> Seq<char> {
    run_card_head(r) + opt_int_line(
        "  Exit Code:   "@,
        match r.exit_code {
            Some(c) => Some(c as int),
            None => None,
        },
    ) + opt_line("  Error:       "@, r.error_message) + opt_int_line(
        "  PID:         "@,
        match r.pid {
            Some(p) => Some(p as int),
            None => None,
        },
    ) + opt_line("  Log Path:    "@, r.log_path) + opt_line("  Next Retry:  "@, r.next_retry_at) + opt_line(
        "  Started:     "@,
        r.started_at,
    ) + opt_line("  Completed:   "@, r.completed_at) + line("  Created:     "@, r.created_at@) + line(
        "  Updated:     "@,
        r.updated_at@,
    )
}

/// Appends the first lines of a run's card.
fn push_run_head(out: &mut String, run: &Run)
    ensures
        final(out)@ == old(out)@ + run_card_head(*run),
{
    let ghost start = out@;
    push_line(out, "Run: ", run.id.as_str());
    push_line(out, "  Worker:      ", run.worker_id.as_str());
    push_int_line(out, "  Event ID:    ", run.event_id);
    push_line(out, "  Event Type:  ", run.event_type.as_str());
    push_line(out, "  Entity ID:   ", run.entity_id.as_str());
    push_line(out, "  Status:      ", run.status.as_str());
    let mut attempt = String::new();
    push_int(&mut attempt, run.attempt as i64);
    push_str(&mut attempt, "/");
    push_int(&mut attempt, run.max_attempts as i64);
    push_line(out, "  Attempt:     ", attempt.as_str());
    push_line(out, "  Command:     ", run.command.as_str());
    let args = run.args_vec();
    push_list_line(out, "  Args:        ", args.as_slice(), " ");
    assert(out@ =~= start + run_card_head(*run));
}

/// Formats a run as a card.
pub fn format_run(run: &Run) -> (r: String)
    ensures
        r@ == run_card(*run),
{
    let mut out = String::new();
    push_run_head(&mut out, run);
    let ghost a = out@;
    match run.exit_code {
        Some(c) => push_int_line(&mut out, "  Exit Code:   ", c as i64),
        None => {},
    }
    assert(out@ =~= a + opt_int_line(
        "  Exit Code:   "@,
        match run.exit_code {
            Some(c) => Some(c as int),
            None => None,
        },
    ));
    push_opt_line(&mut out, "  Error:       ", &run.error_message);
    let ghost b = out@;
    match run.pid {
        Some(p) => push_int_line(&mut out, "  PID:         ", p),
        None => {},
    }
    assert(out@ =~= b + opt_int_line(
        "  PID:         "@,
        match run.pid {
            Some(p) => Some(p as int),
            None => None,
        },
    ));
    push_opt_line(&mut out, "  Log Path:    ", &run.log_path);
    push_opt_line(&mut out, "  Next Retry:  ", &run.next_retry_at);
    push_opt_line(&mut out, "  Started:     ", &run.started_at);
    push_opt_line(&mut out, "  Completed:   ", &run.completed_at);
    push_line(&mut out, "  Created:     ", run.created_at.as_str());
    push_line(&mut out, "  Updated:     ", run.updated_at.as_str());
    assert(out@ =~= run_card(*run));
    out
}

/// The views of the records of a table.
pub open spec fn records_view(records: Seq<Vec<String>>) -> Seq<Seq<Seq<char>>> {
    records.map_values(|row: Vec<String>| views(row@))
}

/// What `tabled` draws, in its default style, for the records of a table,
/// the first record being the header.
pub uninterp spec fn table_text(records: Seq<Seq<Seq<char>>>) -> Seq<char>;

/// Draws a table with `tabled` (a `Builder` fed the records, the first being
/// the header, then the default style); the text is the one `table_text`
/// names for the records.
#[verifier::external_body]
fn render_table(records: &Vec<Vec<String>>) -> (r: String)
    ensures
        r@ == table_text(records_view(records@)),
{
    let mut builder = tabled::builder::Builder::default();
    for row in records {
        builder.push_record(row.iter().cloned());
    }
    builder.build().to_string()
}

/// The date part of a timestamp: its first ten bytes, when it has so many.
pub open spec fn date_part(s: Seq<char>) -> Seq<char> {
    let b = vstd::utf8::encode_utf8(s);
    if b.len() >= 10 {
        vstd::utf8::decode_utf8(b.take(10))
    } else {
        s
    }
}

/// A timestamp can be cut at ten bytes without splitting a character.
pub open spec fn date_ok(s: Seq<char>) -> bool {
    vstd::utf8::encode_utf8(s).len() >= 10 ==> vstd::utf8::is_char_boundary(vstd::utf8::encode_utf8(s), 10)
}

/// The date part of a timestamp (see [`date_part`]).
pub fn format_date(iso_date: &str) -> (r: String)
    requires
        date_ok(iso_date@),
    ensures
        r@ == date_part(iso_date@),
{
    if iso_date.as_bytes().len() >= 10 {
        let (a, _) = iso_date.split_at(10);
        proof {
            vstd::utf8::encode_utf8_decode_utf8(a@);
            let b = vstd::utf8::encode_utf8(iso_date@);
            assert(iso_date.spec_bytes() == b);
            assert(b.take(10) =~= b.subrange(0, 10));
        }
        owned(a)
    } else {
        owned(iso_date)
    }
}

/// A status, marked `(blocked)` when the item is blocked.
fn blocked_status(status: &str, blocked: bool) -> (r: String)
    ensures
        r@ == if blocked {
            status@ + " (blocked)"@
        } else {
            status@
        },
{
    let mut s = owned(status);
    if blocked {
        push_str(&mut s, " (blocked)");
    }
    s
}

/// The cells of a project's row.
pub open spec fn project_cells(p: Project) -> Seq<Seq<char>> {
    seq![p.id@, truncated(p.name@, 30), p.status@, or_default(p.owner, "-"@), date_part(p.created_at@)]
}

/// The header of a table of projects.
pub open spec fn project_header() -> Seq<Seq<char>> {
    seq!["ID"@, "Name"@, "Status"@, "Owner"@, "Created"@]
}

/// A project can be put in a row without cutting a character.
pub open spec fn project_fits(p: Project) -> bool {
    can_truncate(p.name@, 30) && date_ok(p.created_at@)
}

/// The cells of a project's row.
fn project_row(p: &Project) -> (r: Vec<String>)
    requires
        project_fits(*p),
    ensures
        views(r@) == project_cells(*p),
{
    let mut r: Vec<String> = Vec::new();
    r.push(owned(p.id.as_str()));
    r.push(truncate(p.name.as_str(), 30));
    r.push(owned(p.status.as_str()));
    r.push(owned(value_or(&p.owner, "-")));
    r.push(format_date(p.created_at.as_str()));
    assert(views(r@) =~= project_cells(*p));
    r
}

/// The header row of a table of projects.
fn project_header_row() -> (r: Vec<String>)
    ensures
        views(r@) == project_header(),
{
    let mut r: Vec<String> = Vec::new();
    r.push(owned("ID"));
    r.push(owned("Name"));
    r.push(owned("Status"));
    r.push(owned("Owner"));
    r.push(owned("Created"));
    assert(views(r@) =~= project_header());
    r
}

/// The text of a list of projects: a table, or a note that there are none.
pub open spec fn projects_text(xs: Seq<Project>) -> Seq<char> {
    if xs.len() == 0 {
        "No projects found.\n"@
    } else {
        table_text(seq![project_header()] + xs.map_values(|x: Project| project_cells(x)))
    }
}

/// Formats projects as a table.
pub fn format_projects(xs: &[Project]) -> (r: String)
    requires
        forall|i: int| 0 <= i < xs@.len() ==> project_fits(#[trigger] xs@[i]),
    ensures
        r@ == projects_text(xs@),
{
    if xs.len() == 0 {
        return owned("No projects found.\n");
    }
    let mut records: Vec<Vec<String>> = Vec::new();
    records.push(project_header_row());
    let mut i: usize = 0;
    while i < xs.len()
        invariant
            0 <= i <= xs@.len(),
            forall|j: int| 0 <= j < xs@.len() ==> project_fits(#[trigger] xs@[j]),
            records_view(records@) == seq![project_header()] + xs@.take(i as int).map_values(|x: Project| project_cells(x)),
        decreases xs@.len() - i,
    {
        let ghost before = records@;
        records.push(project_row(&xs[i]));
        proof {
            assert(records@ == before.push(records@.last()));
            assert(xs@.take(i as int + 1).map_values(|x: Project| project_cells(x)) =~= xs@.take(i as int).map_values(
                |x: Project| project_cells(x),
            ).push(project_cells(xs@[i as int])));
            assert(records_view(records@) =~= records_view(before).push(views(records@.last()@)));
        }
        i = i + 1;
    }
    assert(xs@.take(xs@.len() as int) =~= xs@);
    render_table(&records)
}

/// The cells of a comment's row.
pub open spec fn comment_cells(c: Comment) -> Seq<Seq<char>> {
    seq![c.id@, c.kind@, truncated(c.content@, 50), or_default(c.author, "-"@), date_part(c.created_at@)]
}

/// The header of a table of comments.
pub open spec fn comment_header() -> Seq<Seq<char>> {
    seq!["ID"@, "Kind"@, "Content"@, "Author"@, "Created"@]
}

/// A comment can be put in a row without cutting a character.
pub open spec fn comment_fits(c: Comment) -> bool {
    can_truncate(c.content@, 50) && date_ok(c.created_at@)
}

/// The cells of a comment's row.
fn comment_row(c: &Comment) -> (r: Vec<String>)
    requires
        comment_fits(*c),
    ensures
        views(r@) == comment_cells(*c),
{
    let mut r: Vec<String> = Vec::new();
    r.push(owned(c.id.as_str()));
    r.push(owned(c.kind.as_str()));
    r.push(truncate(c.content.as_str(), 50));
    r.push(owned(value_or(&c.author, "-")));
    r.push(format_date(c.created_at.as_str()));
    assert(views(r@) =~= comment_cells(*c));
    r
}

/// The header row of a table of comments.
fn comment_header_row() -> (r: Vec<String>)
    ensures
        views(r@) == comment_header(),
{
    let mut r: Vec<String> = Vec::new();
    r.push(owned("ID"));
    r.push(owned("Kind"));
    r.push(owned("Content"));
    r.push(owned("Author"));
    r.push(owned("Created"));
    assert(views(r@) =~= comment_header());
    r
}

/// The text of a list of comments: a table, or a note that there are none.
pub open spec fn comments_text(xs: Seq<Comment>) -> Seq<char> {
    if xs.len() == 0 {
        "No comments found.\n"@
    } else {
        table_text(seq![comment_header()] + xs.map_values(|x: Comment| comment_cells(x)))
    }
}

/// Formats comments as a table.
pub fn format_comments(xs: &[Comment]) -> (r: String)
    requires
        forall|i: int| 0 <= i < xs@.len() ==> comment_fits(#[trigger] xs@[i]),
    ensures
        r@ == comments_text(xs@),
{
    if xs.len() == 0 {
        return owned("No comments found.\n");
    }
    let mut records: Vec<Vec<String>> = Vec::new();
    records.push(comment_header_row());
    let mut i: usize = 0;
    while i < xs.len()
        invariant
            0 <= i <= xs@.len(),
            forall|j: int| 0 <= j < xs@.len() ==> comment_fits(#[trigger] xs@[j]),
            records_view(records@) == seq![comment_header()] + xs@.take(i as int).map_values(|x: Comment| comment_cells(x)),
        decreases xs@.len() - i,
    {
        let ghost before = records@;
        records.push(comment_row(&xs[i]));
        proof {
            assert(records@ == before.push(records@.last()));
            assert(xs@.take(i as int + 1).map_values(|x: Comment| comment_cells(x)) =~= xs@.take(i as int).map_values(
                |x: Comment| comment_cells(x),
            ).push(comment_cells(xs@[i as int])));
            assert(records_view(records@) =~= records_view(before).push(views(records@.last()@)));
        }
        i = i + 1;
    }
    assert(xs@.take(xs@.len() as int) =~= xs@);
    render_table(&records)
}

/// The cells of a session's row.
pub open spec fn session_cells(s: Session) -> Seq<Seq<char>> {
    seq![s.id@, or_default(s.name, "-"@), or_default(s.mode, "execute"@), or_default(s.owner, "-"@), if s.closed_at is Some { "closed"@ } else { "active"@ }]
}

/// The header of a table of sessions.
pub open spec fn session_header() -> Seq<Seq<char>> {
    seq!["ID"@, "Name"@, "Mode"@, "Owner"@, "Status"@]
}

/// A session can be put in a row without cutting a character.
pub open spec fn session_fits(s: Session) -> bool {
    true
}

/// The cells of a session's row.
fn session_row(s: &Session) -> (r: Vec<String>)
    requires
        session_fits(*s),
    ensures
        views(r@) == session_cells(*s),
{
    let mut r: Vec<String> = Vec::new();
    r.push(owned(s.id.as_str()));
    r.push(owned(value_or(&s.name, "-")));
    r.push(owned(value_or(&s.mode, "execute")));
    r.push(owned(value_or(&s.owner, "-")));
    r.push(owned(if s.is_closed() { "closed" } else { "active" }));
    assert(views(r@) =~= session_cells(*s));
    r
}

/// The header row of a table of sessions.
fn session_header_row() -> (r: Vec<String>)
    ensures
        views(r@) == session_header(),
{
    let mut r: Vec<String> = Vec::new();
    r.push(owned("ID"));
    r.push(owned("Name"));
    r.push(owned("Mode"));
    r.push(owned("Owner"));
    r.push(owned("Status"));
    assert(views(r@) =~= session_header());
    r
}

/// The text of a list of sessions: a table, or a note that there are none.
pub open spec fn sessions_text(xs: Seq<Session>) -> Seq<char> {
    if xs.len() == 0 {
        "No sessions found.\n"@
    } else {
        table_text(seq![session_header()] + xs.map_values(|x: Session| session_cells(x)))
    }
}

/// Formats sessions as a table.
pub fn format_sessions(xs: &[Session]) -> (r: String)
    requires
        forall|i: int| 0 <= i < xs@.len() ==> session_fits(#[trigger] xs@[i]),
    ensures
        r@ == sessions_text(xs@),
{
    if xs.len() == 0 {
        return owned("No sessions found.\n");
    }
    let mut records: Vec<Vec<String>> = Vec::new();
    records.push(session_header_row());
    let mut i: usize = 0;
    while i < xs.len()
        invariant
            0 <= i <= xs@.len(),
            forall|j: int| 0 <= j < xs@.len() ==> session_fits(#[trigger] xs@[j]),
            records_view(records@) == seq![session_header()] + xs@.take(i as int).map_values(|x: Session| session_cells(x)),
        decreases xs@.len() - i,
    {
        let ghost before = records@;
        records.push(session_row(&xs[i]));
        proof {
            assert(records@ == before.push(records@.last()));
            assert(xs@.take(i as int + 1).map_values(|x: Session| session_cells(x)) =~= xs@.take(i as int).map_values(
                |x: Session| session_cells(x),
            ).push(session_cells(xs@[i as int])));
            assert(records_view(records@) =~= records_view(before).push(views(records@.last()@)));
        }
        i = i + 1;
    }
    assert(xs@.take(xs@.len() as int) =~= xs@);
    render_table(&records)
}

/// The cells of a checkpoint's row.
pub open spec fn checkpoint_cells(c: Checkpoint) -> Seq<Seq<char>> {
    seq![c.id@, c.name@, c.session_id@, date_part(c.created_at@)]
}

/// The header of a table of checkpoints.
pub open spec fn checkpoint_header() -> Seq<Seq<char>> {
    seq!["ID"@, "Name"@, "Session"@, "Created"@]
}

/// A checkpoint can be put in a row without cutting a character.
pub open spec fn checkpoint_fits(c: Checkpoint) -> bool {
    date_ok(c.created_at@)
}

/// The cells of a checkpoint's row.
fn checkpoint_row(c: &Checkpoint) -> (r: Vec<String>)
    requires
        checkpoint_fits(*c),
    ensures
        views(r@) == checkpoint_cells(*c),
{
    let mut r: Vec<String> = Vec::new();
    r.push(owned(c.id.as_str()));
    r.push(owned(c.name.as_str()));
    r.push(owned(c.session_id.as_str()));
    r.push(format_date(c.created_at.as_str()));
    assert(views(r@) =~= checkpoint_cells(*c));
    r
}

/// The header row of a table of checkpoints.
fn checkpoint_header_row() -> (r: Vec<String>)
    ensures
        views(r@) == checkpoint_header(),
{
    let mut r: Vec<String> = Vec::new();
    r.push(owned("ID"));
    r.push(owned("Name"));
    r.push(owned("Session"));
    r.push(owned("Created"));
    assert(views(r@) =~= checkpoint_header());
    r
}

/// The text of a list of checkpoints: a table, or a note that there are none.
pub open spec fn checkpoints_text(xs: Seq<Checkpoint>) -> Seq<char> {
    if xs.len() == 0 {
        "No checkpoints found.\n"@
    } else {
        table_text(seq![checkpoint_header()] + xs.map_values(|x: Checkpoint| checkpoint_cells(x)))
    }
}

/// Formats checkpoints as a table.
pub fn format_checkpoints(xs: &[Checkpoint]) -> (r: String)
    requires
        forall|i: int| 0 <= i < xs@.len() ==> checkpoint_fits(#[trigger] xs@[i]),
    ensures
        r@ == checkpoints_text(xs@),
{
    if xs.len() == 0 {
        return owned("No checkpoints found.\n");
    }
    let mut records: Vec<Vec<String>> = Vec::new();
    records.push(checkpoint_header_row());
    let mut i: usize = 0;
    while i < xs.len()
        invariant
            0 <= i <= xs@.len(),
            forall|j: int| 0 <= j < xs@.len() ==> checkpoint_fits(#[trigger] xs@[j]),
            records_view(records@) == seq![checkpoint_header()] + xs@.take(i as int).map_values(|x: Checkpoint| checkpoint_cells(x)),
        decreases xs@.len() - i,
    {
        let ghost before = records@;
        records.push(checkpoint_row(&xs[i]));
        proof {
            assert(records@ == before.push(records@.last()));
            assert(xs@.take(i as int + 1).map_values(|x: Checkpoint| checkpoint_cells(x)) =~= xs@.take(i as int).map_values(
                |x: Checkpoint| checkpoint_cells(x),
            ).push(checkpoint_cells(xs@[i as int])));
            assert(records_view(records@) =~= records_view(before).push(views(records@.last()@)));
        }
        i = i + 1;
    }
    assert(xs@.take(xs@.len() as int) =~= xs@);
    render_table(&records)
}

/// The cells of a artifact's row.
pub open spec fn artifact_cells(a: Artifact) -> Seq<Seq<char>> {
    seq![a.id@, a.artifact_type@, truncated(a.path_or_url@, 40), or_default(a.description, "-"@)]
}

/// The header of a table of artifacts.
pub open spec fn artifact_header() -> Seq<Seq<char>> {
    seq!["ID"@, "Type"@, "Path/URL"@, "Description"@]
}

/// A artifact can be put in a row without cutting a character.
pub open spec fn artifact_fits(a: Artifact) -> bool {
    can_truncate(a.path_or_url@, 40)
}

/// The cells of a artifact's row.
fn artifact_row(a: &Artifact) -> (r: Vec<String>)
    requires
        artifact_fits(*a),
    ensures
        views(r@) == artifact_cells(*a),
{
    let mut r: Vec<String> = Vec::new();
    r.push(owned(a.id.as_str()));
    r.push(owned(a.artifact_type.as_str()));
    r.push(truncate(a.path_or_url.as_str(), 40));
    r.push(owned(value_or(&a.description, "-")));
    assert(views(r@) =~= artifact_cells(*a));
    r
}

/// The header row of a table of artifacts.
fn artifact_header_row() -> (r: Vec<String>)
    ensures
        views(r@) == artifact_header(),
{
    let mut r: Vec<String> = Vec::new();
    r.push(owned("ID"));
    r.push(owned("Type"));
    r.push(owned("Path/URL"));
    r.push(owned("Description"));
    assert(views(r@) =~= artifact_header());
    r
}

/// The text of a list of artifacts: a table, or a note that there are none.
pub open spec fn artifacts_text(xs: Seq<Artifact>) -> Seq<char> {
    if xs.len() == 0 {
        "No artifacts found.\n"@
    } else {
        table_text(seq![artifact_header()] + xs.map_values(|x: Artifact| artifact_cells(x)))
    }
}

/// Formats artifacts as a table.
pub fn format_artifacts(xs: &[Artifact]) -> (r: String)
    requires
        forall|i: int| 0 <= i < xs@.len() ==> artifact_fits(#[trigger] xs@[i]),
    ensures
        r@ == artifacts_text(xs@),
{
    if xs.len() == 0 {
        return owned("No artifacts found.\n");
    }
    let mut records: Vec<Vec<String>> = Vec::new();
    records.push(artifact_header_row());
    let mut i: usize = 0;
    while i < xs.len()
        invariant
            0 <= i <= xs@.len(),
            forall|j: int| 0 <= j < xs@.len() ==> artifact_fits(#[trigger] xs@[j]),
            records_view(records@) == seq![artifact_header()] + xs@.take(i as int).map_values(|x: Artifact| artifact_cells(x)),
        decreases xs@.len() - i,
    {
        let ghost before = records@;
        records.push(artifact_row(&xs[i]));
        proof {
            assert(records@ == before.push(records@.last()));
            assert(xs@.take(i as int + 1).map_values(|x: Artifact| artifact_cells(x)) =~= xs@.take(i as int).map_values(
                |x: Artifact| artifact_cells(x),
            ).push(artifact_cells(xs@[i as int])));
            assert(records_view(records@) =~= records_view(before).push(views(records@.last()@)));
        }
        i = i + 1;
    }
    assert(xs@.take(xs@.len() as int) =~= xs@);
    render_table(&records)
}

/// The cells of a initiative's row.
pub open spec fn initiative_cells(i: Initiative) -> Seq<Seq<char>> {
    seq![i.id@, truncated(i.name@, 30), i.status@, or_default(i.owner, "-"@), date_part(i.created_at@)]
}

/// The header of a table of initiatives.
pub open spec fn initiative_header() -> Seq<Seq<char>> {
    seq!["ID"@, "Name"@, "Status"@, "Owner"@, "Created"@]
}

/// A initiative can be put in a row without cutting a character.
pub open spec fn initiative_fits(i: Initiative) -> bool {
    can_truncate(i.name@, 30) && date_ok(i.created_at@)
}

/// The cells of a initiative's row.
fn initiative_row(i: &Initiative) -> (r: Vec<String>)
    requires
        initiative_fits(*i),
    ensures
        views(r@) == initiative_cells(*i),
{
    let mut r: Vec<String> = Vec::new();
    r.push(owned(i.id.as_str()));
    r.push(truncate(i.name.as_str(), 30));
    r.push(owned(i.status.as_str()));
    r.push(owned(value_or(&i.owner, "-")));
    r.push(format_date(i.created_at.as_str()));
    assert(views(r@) =~= initiative_cells(*i));
    r
}

/// The header row of a table of initiatives.
fn initiative_header_row() -> (r: Vec<String>)
    ensures
        views(r@) == initiative_header(),
{
    let mut r: Vec<String> = Vec::new();
    r.push(owned("ID"));
    r.push(owned("Name"));
    r.push(owned("Status"));
    r.push(owned("Owner"));
    r.push(owned("Created"));
    assert(views(r@) =~= initiative_header());
    r
}

/// The text of a list of initiatives: a table, or a note that there are none.
pub open spec fn initiatives_text(xs: Seq<Initiative>) -> Seq<char> {
    if xs.len() == 0 {
        "No initiatives found.\n"@
    } else {
        table_text(seq![initiative_header()] + xs.map_values(|x: Initiative| initiative_cells(x)))
    }
}

/// Formats initiatives as a table.
pub fn format_initiatives(xs: &[Initiative]) -> (r: String)
    requires
        forall|i: int| 0 <= i < xs@.len() ==> initiative_fits(#[trigger] xs@[i]),
    ensures
        r@ == initiatives_text(xs@),
{
    if xs.len() == 0 {
        return owned("No initiatives found.\n");
    }
    let mut records: Vec<Vec<String>> = Vec::new();
    records.push(initiative_header_row());
    let mut i: usize = 0;
    while i < xs.len()
        invariant
            0 <= i <= xs@.len(),
            forall|j: int| 0 <= j < xs@.len() ==> initiative_fits(#[trigger] xs@[j]),
            records_view(records@) == seq![initiative_header()] + xs@.take(i as int).map_values(|x: Initiative| initiative_cells(x)),
        decreases xs@.len() - i,
    {
        let ghost before = records@;
        records.push(initiative_row(&xs[i]));
        proof {
            assert(records@ == before.push(records@.last()));
            assert(xs@.take(i as int + 1).map_values(|x: Initiative| initiative_cells(x)) =~= xs@.take(i as int).map_values(
                |x: Initiative| initiative_cells(x),
            ).push(initiative_cells(xs@[i as int])));
            assert(records_view(records@) =~= records_view(before).push(views(records@.last()@)));
        }
        i = i + 1;
    }
    assert(xs@.take(xs@.len() as int) =~= xs@);
    render_table(&records)
}

/// The cells of a task's row.
pub open spec fn task_cells(t: Task) -> Seq<Seq<char>> {
    seq![t.id@, truncated(t.title@, 40), if t.blocked_reason is Some { t.status@ + " (blocked)"@ } else { t.status@ }, t.priority@, or_default(t.owner, "-"@)]
}

/// The header of a table of tasks.
pub open spec fn task_header() -> Seq<Seq<char>> {
    seq!["ID"@, "Title"@, "Status"@, "Priority"@, "Owner"@]
}

/// A task can be put in a row without cutting a character.
pub open spec fn task_fits(t: Task) -> bool {
    can_truncate(t.title@, 40)
}

/// The cells of a task's row.
fn task_row(t: &Task) -> (r: Vec<String>)
    requires
        task_fits(*t),
    ensures
        views(r@) == task_cells(*t),
{
    let mut r: Vec<String> = Vec::new();
    r.push(owned(t.id.as_str()));
    r.push(truncate(t.title.as_str(), 40));
    r.push(blocked_status(t.status.as_str(), t.blocked_reason.is_some()));
    r.push(owned(t.priority.as_str()));
    r.push(owned(value_or(&t.owner, "-")));
    assert(views(r@) =~= task_cells(*t));
    r
}

/// The header row of a table of tasks.
fn task_header_row() -> (r: Vec<String>)
    ensures
        views(r@) == task_header(),
{
    let mut r: Vec<String> = Vec::new();
    r.push(owned("ID"));
    r.push(owned("Title"));
    r.push(owned("Status"));
    r.push(owned("Priority"));
    r.push(owned("Owner"));
    assert(views(r@) =~= task_header());
    r
}

/// The text of a list of tasks: a table, or a note that there are none.
pub open spec fn tasks_text(xs: Seq<Task>) -> Seq<char> {
    if xs.len() == 0 {
        "No tasks found.\n"@
    } else {
        table_text(seq![task_header()] + xs.map_values(|x: Task| task_cells(x)))
    }
}

/// Formats tasks as a table.
pub fn format_tasks(xs: &[Task]) -> (r: String)
    requires
        forall|i: int| 0 <= i < xs@.len() ==> task_fits(#[trigger] xs@[i]),
    ensures
        r@ == tasks_text(xs@),
{
    if xs.len() == 0 {
        return owned("No tasks found.\n");
    }
    let mut records: Vec<Vec<String>> = Vec::new();
    records.push(task_header_row());
    let mut i: usize = 0;
    while i < xs.len()
        invariant
            0 <= i <= xs@.len(),
            forall|j: int| 0 <= j < xs@.len() ==> task_fits(#[trigger] xs@[j]),
            records_view(records@) == seq![task_header()] + xs@.take(i as int).map_values(|x: Task| task_cells(x)),
        decreases xs@.len() - i,
    {
        let ghost before = records@;
        records.push(task_row(&xs[i]));
        proof {
            assert(records@ == before.push(records@.last()));
            assert(xs@.take(i as int + 1).map_values(|x: Task| task_cells(x)) =~= xs@.take(i as int).map_values(
                |x: Task| task_cells(x),
            ).push(task_cells(xs@[i as int])));
            assert(records_view(records@) =~= records_view(before).push(views(records@.last()@)));
        }
        i = i + 1;
    }
    assert(xs@.take(xs@.len() as int) =~= xs@);
    render_table(&records)
}

/// What `truncate_path` gives: paths longer than `max` bytes keep their last
/// `max - 3` bytes, after `...`.
pub open spec fn truncated_path(s: Seq<char>, max: nat) -> Seq<char> {
    let b = vstd::utf8::encode_utf8(s);
    if b.len() <= max {
        s
    } else {
        "..."@ + vstd::utf8::decode_utf8(b.skip(b.len() - max + 3))
    }
}

/// `truncate_path` can cut `s` without splitting a character.
pub open spec fn can_truncate_path(s: Seq<char>, max: nat) -> bool {
    let b = vstd::utf8::encode_utf8(s);
    b.len() > max ==> max >= 3 && vstd::utf8::is_char_boundary(b, b.len() - max + 3)
}

/// Shortens a path to at most `max_len` bytes, keeping its end.
pub fn truncate_path(path: &str, max_len: usize) -> (r: String)
    requires
        can_truncate_path(path@, max_len as nat),
    ensures
        r@ == truncated_path(path@, max_len as nat),
{
    let n = path.as_bytes().len();
    if n <= max_len {
        owned(path)
    } else {
        let (_, tail) = path.split_at(n - max_len + 3);
        proof {
            vstd::utf8::encode_utf8_decode_utf8(tail@);
            let b = vstd::utf8::encode_utf8(path@);
            assert(path.spec_bytes() == b);
            assert(b.skip(n - max_len + 3) =~= b.subrange(n - max_len + 3, n as int));
        }
        let mut r = owned("...");
        push_str(&mut r, tail);
        r
    }
}

/// The cells of a worker's row.
pub open spec fn worker_cells(w: Worker) -> Seq<Seq<char>> {
    seq![
        w.id@,
        w.status@,
        match w.runner_name {
            Some(n) => n@,
            None => truncated(w.command@, 20),
        },
        w.event_type@,
        int_text(w.concurrency as int),
        truncated_path(w.instance_path@, 30),
    ]
}

/// The header of a table of workers.
pub open spec fn worker_header() -> Seq<Seq<char>> {
    seq!["ID"@, "Status"@, "Runner"@, "Event"@, "Concurrency"@, "Workspace"@]
}

/// A worker can be put in a row without cutting a character.
pub open spec fn worker_fits(w: Worker) -> bool {
    (w.runner_name is None ==> can_truncate(w.command@, 20)) && can_truncate_path(w.instance_path@, 30)
}

/// The number as text.
fn int_string(n: i64) -> (r: String)
    ensures
        r@ == int_text(n as int),
{
    let mut s = String::new();
    push_int(&mut s, n);
    s
}

/// The cells of a worker's row.
fn worker_row(w: &Worker) -> (r: Vec<String>)
    requires
        worker_fits(*w),
    ensures
        views(r@) == worker_cells(*w),
{
    let mut r: Vec<String> = Vec::new();
    r.push(owned(w.id.as_str()));
    r.push(owned(w.status.as_str()));
    r.push(
        match &w.runner_name {
            Some(n) => owned(n.as_str()),
            None => truncate(w.command.as_str(), 20),
        },
    );
    r.push(owned(w.event_type.as_str()));
    r.push(int_string(w.concurrency as i64));
    r.push(truncate_path(w.instance_path.as_str(), 30));
    assert(views(r@) =~= worker_cells(*w));
    r
}

/// The header row of a table of workers.
fn worker_header_row() -> (r: Vec<String>)
    ensures
        views(r@) == worker_header(),
{
    let mut r: Vec<String> = Vec::new();
    r.push(owned("ID"));
    r.push(owned("Status"));
    r.push(owned("Runner"));
    r.push(owned("Event"));
    r.push(owned("Concurrency"));
    r.push(owned("Workspace"));
    assert(views(r@) =~= worker_header());
    r
}

/// The text of a list of workers: a table, or a note that there are none.
pub open spec fn workers_text(xs: Seq<Worker>) -> Seq<char> {
    if xs.len() == 0 {
        "No workers found.\n"@
    } else {
        table_text(seq![worker_header()] + xs.map_values(|x: Worker| worker_cells(x)))
    }
}

/// Formats workers as a table.
pub fn format_workers(xs: &[Worker]) -> (r: String)
    requires
        forall|i: int| 0 <= i < xs@.len() ==> worker_fits(#[trigger] xs@[i]),
    ensures
        r@ == workers_text(xs@),
{
    if xs.len() == 0 {
        return owned("No workers found.\n");
    }
    let mut records: Vec<Vec<String>> = Vec::new();
    records.push(worker_header_row());
    let mut i: usize = 0;
    while i < xs.len()
        invariant
            0 <= i <= xs@.len(),
            forall|j: int| 0 <= j < xs@.len() ==> worker_fits(#[trigger] xs@[j]),
            records_view(records@) == seq![worker_header()] + xs@.take(i as int).map_values(|x: Worker| worker_cells(x)),
        decreases xs@.len() - i,
    {
        let ghost before = records@;
        records.push(worker_row(&xs[i]));
        proof {
            assert(xs@.take(i as int + 1).map_values(|x: Worker| worker_cells(x)) =~= xs@.take(i as int).map_values(
                |x: Worker| worker_cells(x),
            ).push(worker_cells(xs@[i as int])));
            assert(records_view(records@) =~= records_view(before).push(views(records@.last()@)));
        }
        i = i + 1;
    }
    assert(xs@.take(xs@.len() as int) =~= xs@);
    render_table(&records)
}

/// The cells of a run's row.
pub open spec fn run_cells(r: Run) -> Seq<Seq<char>> {
    seq![
        r.id@,
        truncated(r.worker_id@, 15),
        truncated(r.event_type@, 20),
        truncated(r.entity_id@, 20),
        r.status@,
        int_text(r.attempt as int) + "/"@ + int_text(r.max_attempts as int),
        match r.exit_code {
            Some(c) => int_text(c as int),
            None => "-"@,
        },
    ]
}

/// The header of a table of runs.
pub open spec fn run_header() -> Seq<Seq<char>> {
    seq!["ID"@, "Worker"@, "Event"@, "Entity"@, "Status"@, "Attempt"@, "Exit"@]
}

/// A run can be put in a row without cutting a character.
pub open spec fn run_fits(r: Run) -> bool {
    can_truncate(r.worker_id@, 15) && can_truncate(r.event_type@, 20) && can_truncate(r.entity_id@, 20)
}

/// The cells of a run's row.
fn run_row(x: &Run) -> (r: Vec<String>)
    requires
        run_fits(*x),
    ensures
        views(r@) == run_cells(*x),
{
    let mut r: Vec<String> = Vec::new();
    r.push(owned(x.id.as_str()));
    r.push(truncate(x.worker_id.as_str(), 15));
    r.push(truncate(x.event_type.as_str(), 20));
    r.push(truncate(x.entity_id.as_str(), 20));
    r.push(owned(x.status.as_str()));
    let mut attempt = String::new();
    push_int(&mut attempt, x.attempt as i64);
    push_str(&mut attempt, "/");
    push_int(&mut attempt, x.max_attempts as i64);
    r.push(attempt);
    r.push(
        match x.exit_code {
            Some(c) => int_string(c as i64),
            None => owned("-"),
        },
    );
    assert(views(r@) =~= run_cells(*x));
    r
}

/// The header row of a table of runs.
fn run_header_row() -> (r: Vec<String>)
    ensures
        views(r@) == run_header(),
{
    let mut r: Vec<String> = Vec::new();
    r.push(owned("ID"));
    r.push(owned("Worker"));
    r.push(owned("Event"));
    r.push(owned("Entity"));
    r.push(owned("Status"));
    r.push(owned("Attempt"));
    r.push(owned("Exit"));
    assert(views(r@) =~= run_header());
    r
}

/// The text of a list of runs: a table, or a note that there are none.
pub open spec fn runs_text(xs: Seq<Run>) -> Seq<char> {
    if xs.len() == 0 {
        "No runs found.\n"@
    } else {
        table_text(seq![run_header()] + xs.map_values(|x: Run| run_cells(x)))
    }
}

/// Formats runs as a table.
pub fn format_runs(xs: &[Run]) -> (r: String)
    requires
        forall|i: int| 0 <= i < xs@.len() ==> run_fits(#[trigger] xs@[i]),
    ensures
        r@ == runs_text(xs@),
{
    if xs.len() == 0 {
        return owned("No runs found.\n");
    }
    let mut records: Vec<Vec<String>> = Vec::new();
    records.push(run_header_row());
    let mut i: usize = 0;
    while i < xs.len()
        invariant
            0 <= i <= xs@.len(),
            forall|j: int| 0 <= j < xs@.len() ==> run_fits(#[trigger] xs@[j]),
            records_view(records@) == seq![run_header()] + xs@.take(i as int).map_values(|x: Run| run_cells(x)),
        decreases xs@.len() - i,
    {
        let ghost before = records@;
        records.push(run_row(&xs[i]));
        proof {
            assert(xs@.take(i as int + 1).map_values(|x: Run| run_cells(x)) =~= xs@.take(i as int).map_values(
                |x: Run| run_cells(x),
            ).push(run_cells(xs@[i as int])));
            assert(records_view(records@) =~= records_view(before).push(views(records@.last()@)));
        }
        i = i + 1;
    }
    assert(xs@.take(xs@.len() as int) =~= xs@);
    render_table(&records)
}

/// The cells of a search result's row.
pub open spec fn search_cells(r: SearchResult) -> Seq<Seq<char>> {
    match r {
        SearchResult::Initiative { id, name, status, .. } => seq!["initiative"@, id@, truncated(name@, 40), status@, "-"@],
        SearchResult::Project { id, name, status, .. } => seq!["project"@, id@, truncated(name@, 40), status@, "-"@],
        SearchResult::Task { id, title, status, priority, .. } => seq!["task"@, id@, truncated(title@, 40), status@, priority@],
    }
}

/// The header of a table of search results.
pub open spec fn search_header() -> Seq<Seq<char>> {
    seq!["Type"@, "ID"@, "Title/Name"@, "Status"@, "Priority"@]
}

/// A search result can be put in a row without cutting a character.
pub open spec fn search_fits(r: SearchResult) -> bool {
    match r {
        SearchResult::Initiative { name, .. } => can_truncate(name@, 40),
        SearchResult::Project { name, .. } => can_truncate(name@, 40),
        SearchResult::Task { title, .. } => can_truncate(title@, 40),
    }
}

/// The cells of a search result's row.
fn search_row(x: &SearchResult) -> (r: Vec<String>)
    requires
        search_fits(*x),
    ensures
        views(r@) == search_cells(*x),
{
    let mut r: Vec<String> = Vec::new();
    match x {
        SearchResult::Initiative { id, name, status, .. } => {
            r.push(owned("initiative"));
            r.push(owned(id.as_str()));
            r.push(truncate(name.as_str(), 40));
            r.push(owned(status.as_str()));
            r.push(owned("-"));
        },
        SearchResult::Project { id, name, status, .. } => {
            r.push(owned("project"));
            r.push(owned(id.as_str()));
            r.push(truncate(name.as_str(), 40));
            r.push(owned(status.as_str()));
            r.push(owned("-"));
        },
        SearchResult::Task { id, title, status, priority, .. } => {
            r.push(owned("task"));
            r.push(owned(id.as_str()));
            r.push(truncate(title.as_str(), 40));
            r.push(owned(status.as_str()));
            r.push(owned(priority.as_str()));
        },
    }
    assert(views(r@) =~= search_cells(*x));
    r
}

/// The header row of a table of search results.
fn search_header_row() -> (r: Vec<String>)
    ensures
        views(r@) == search_header(),
{
    let mut r: Vec<String> = Vec::new();
    r.push(owned("Type"));
    r.push(owned("ID"));
    r.push(owned("Title/Name"));
    r.push(owned("Status"));
    r.push(owned("Priority"));
    assert(views(r@) =~= search_header());
    r
}

/// The text of a list of search results: a table, or a note that there are
/// none.
pub open spec fn search_results_text(xs: Seq<SearchResult>) -> Seq<char> {
    if xs.len() == 0 {
        "No results found.\n"@
    } else {
        table_text(seq![search_header()] + xs.map_values(|x: SearchResult| search_cells(x)))
    }
}

/// Formats search results as a table.
pub fn format_search_results(xs: &[SearchResult]) -> (r: String)
    requires
        forall|i: int| 0 <= i < xs@.len() ==> search_fits(#[trigger] xs@[i]),
    ensures
        r@ == search_results_text(xs@),
{
    if xs.len() == 0 {
        return owned("No results found.\n");
    }
    let mut records: Vec<Vec<String>> = Vec::new();
    records.push(search_header_row());
    let mut i: usize = 0;
    while i < xs.len()
        invariant
            0 <= i <= xs@.len(),
            forall|j: int| 0 <= j < xs@.len() ==> search_fits(#[trigger] xs@[j]),
            records_view(records@) == seq![search_header()] + xs@.take(i as int).map_values(
                |x: SearchResult| search_cells(x),
            ),
        decreases xs@.len() - i,
    {
        let ghost before = records@;
        records.push(search_row(&xs[i]));
        proof {
            assert(xs@.take(i as int + 1).map_values(|x: SearchResult| search_cells(x)) =~= xs@.take(
                i as int,
            ).map_values(|x: SearchResult| search_cells(x)).push(search_cells(xs@[i as int])));
            assert(records_view(records@) =~= records_view(before).push(views(records@.last()@)));
        }
        i = i + 1;
    }
    assert(xs@.take(xs@.len() as int) =~= xs@);
    render_table(&records)
}

/// The cells of a task's row in a list that knows what blocks each task.
pub open spec fn task_dep_cells(t: Task, deps: Seq<String>) -> Seq<Seq<char>> {
    seq![
        t.id@,
        truncated(t.title@, 40),
        if t.blocked_reason is Some || deps.len() > 0 {
            t.status@ + " (blocked)"@
        } else {
            t.status@
        },
        t.priority@,
        or_default(t.owner, "-"@),
    ]
}

/// The text of a list of tasks with what blocks them: a table, or a note that
/// there are none.
pub open spec fn tasks_with_deps_text(xs: Seq<(Task, Vec<String>)>) -> Seq<char> {
    if xs.len() == 0 {
        "No tasks found.\n"@
    } else {
        table_text(seq![task_header()] + xs.map_values(|x: (Task, Vec<String>)| task_dep_cells(x.0, x.1@)))
    }
}

/// Formats tasks as a table, marking as blocked those that other tasks block.
pub fn format_tasks_with_deps(xs: &[(Task, Vec<String>)]) -> (r: String)
    requires
        forall|i: int| 0 <= i < xs@.len() ==> can_truncate((#[trigger] xs@[i]).0.title@, 40),
    ensures
        r@ == tasks_with_deps_text(xs@),
{
    if xs.len() == 0 {
        return owned("No tasks found.\n");
    }
    let mut records: Vec<Vec<String>> = Vec::new();
    records.push(task_header_row());
    let mut i: usize = 0;
    while i < xs.len()
        invariant
            0 <= i <= xs@.len(),
            forall|j: int| 0 <= j < xs@.len() ==> can_truncate((#[trigger] xs@[j]).0.title@, 40),
            records_view(records@) == seq![task_header()] + xs@.take(i as int).map_values(
                |x: (Task, Vec<String>)| task_dep_cells(x.0, x.1@),
            ),
        decreases xs@.len() - i,
    {
        let ghost before = records@;
        let t = &xs[i].0;
        let mut row: Vec<String> = Vec::new();
        row.push(owned(t.id.as_str()));
        row.push(truncate(t.title.as_str(), 40));
        row.push(blocked_status(t.status.as_str(), t.blocked_reason.is_some() || xs[i].1.len() > 0));
        row.push(owned(t.priority.as_str()));
        row.push(owned(value_or(&t.owner, "-")));
        assert(views(row@) =~= task_dep_cells(xs@[i as int].0, xs@[i as int].1@));
        records.push(row);
        proof {
            assert(xs@.take(i as int + 1).map_values(|x: (Task, Vec<String>)| task_dep_cells(x.0, x.1@)) =~= xs@.take(
                i as int,
            ).map_values(|x: (Task, Vec<String>)| task_dep_cells(x.0, x.1@)).push(
                task_dep_cells(xs@[i as int].0, xs@[i as int].1@),
            ));
            assert(records_view(records@) =~= records_view(before).push(views(records@.last()@)));
        }
        i = i + 1;
    }
    assert(xs@.take(xs@.len() as int) =~= xs@);
    render_table(&records)
}

/// `n` copies of `c`.
pub open spec fn repeat(c: char, n: nat) -> Seq<char> {
    Seq::new(n, |i: int| c)
}

/// Appends `n` copies of `c`.
fn push_repeat(out: &mut String, c: char, n: usize)
    ensures
        final(out)@ == old(out)@ + repeat(c, n as nat),
{
    let ghost start = out@;
    let mut i: usize = 0;
    while i < n
        invariant
            0 <= i <= n,
            out@ == start + repeat(c, i as nat),
        decreases n - i,
    {
        crate::text::push_char(out, c);
        assert(start + repeat(c, i as nat + 1) =~= (start + repeat(c, i as nat)).push(c));
        i = i + 1;
    }
}

/// A progress bar of width 30 with `filled` marks.
pub open spec fn progress_bar(filled: nat) -> Seq<char> {
    "["@ + repeat('=', filled) + repeat(' ', if filled < 30 { (30 - filled) as nat } else { 0 }) + "]"@
}

/// The marker of a project's progress.
pub open spec fn project_marker(p: ProjectSummary) -> Seq<char> {
    if p.done_count == p.task_count && p.task_count > 0 {
        "[done]"@
    } else if p.blocked {
        "[blocked]"@
    } else {
        "[active]"@
    }
}

/// A project's line in an initiative summary.
pub open spec fn summary_project_line(p: ProjectSummary) -> Seq<char> {
    "  "@ + project_marker(p) + " "@ + p.name@ + " ("@ + dec(p.done_count as nat) + "/"@ + dec(p.task_count as nat)
        + " tasks)\n"@
}

/// A blocker's line in an initiative summary.
pub open spec fn summary_blocker_line(b: InitiativeBlockerInfo) -> Seq<char> {
    "  - ["@ + b.blocker_type@ + "] "@ + b.project_name@ + ": "@ + b.description@ + "\n"@
}

/// A next action's line in an initiative summary.
pub open spec fn summary_action_line(a: NextAction) -> Seq<char> {
    "  - ["@ + a.priority@ + "] "@ + a.project_name@ + " > "@ + a.task_title@ + "\n"@
}

/// The title lines of an initiative summary.
pub open spec fn summary_title(s: InitiativeSummary) -> Seq<char> {
    line("Initiative: "@, s.initiative.name@) + line("  ID: "@, s.initiative.id@) + opt_line(
        "  Description: "@,
        s.initiative.description,
    ) + "\n"@
}

/// The progress line of an initiative summary, and the blank line after it.
pub open spec fn summary_progress(filled: nat, percent: Seq<char>) -> Seq<char> {
    "Progress: "@ + progress_bar(filled) + " "@ + percent + "%\n"@ + "\n"@
}

/// The status counts of an initiative summary.
pub open spec fn summary_status(s: InitiativeSummary) -> Seq<char> {
    "Status:\n"@ + "  Projects: "@ + dec(s.status.total_projects as nat) + " total, "@ + dec(
        s.status.completed_projects as nat,
    ) + " complete, "@ + dec(s.status.blocked_projects as nat) + " blocked\n"@ + "  Tasks:    "@ + dec(
        s.status.total_tasks as nat,
    ) + " total ("@ + dec(s.status.tasks_done as nat) + " done, "@ + dec(s.status.tasks_in_progress as nat)
        + " in progress, "@ + dec(s.status.tasks_todo as nat) + " todo, "@ + dec(s.status.tasks_blocked as nat)
        + " blocked)\n"@ + "\n"@
}

/// The head of an initiative summary, up to its status counts.
pub open spec fn summary_head(s: InitiativeSummary, filled: nat, percent: Seq<char>) -> Seq<char> {
    summary_title(s) + summary_progress(filled, percent) + summary_status(s)
}

/// An initiative summary as text, with its progress bar filled with `filled`
/// marks and its completion percentage given as text.
pub open spec fn summary_text(s: InitiativeSummary, filled: nat, percent: Seq<char>) -> Seq<char> {
    summary_head(s, filled, percent) + (if s.projects@.len() > 0 {
        "Projects:\n"@ + concat(s.projects@.map_values(|p: ProjectSummary| summary_project_line(p))) + "\n"@
    } else {
        Seq::empty()
    }) + (if s.blockers@.len() > 0 {
        "Blockers:\n"@ + concat(s.blockers@.map_values(|b: InitiativeBlockerInfo| summary_blocker_line(b))) + "\n"@
    } else {
        Seq::empty()
    }) + (if s.next_actions@.len() > 0 {
        "Next Actions:\n"@ + concat(s.next_actions@.map_values(|a: NextAction| summary_action_line(a)))
    } else {
        Seq::empty()
    })
}

/// Appends `n` as decimal digits.
fn push_count(out: &mut String, n: usize)
    ensures
        final(out)@ == old(out)@ + dec(n as nat),
{
    push_nat(out, n as u64);
}

/// Appends the title lines of an initiative summary.
fn push_summary_title(out: &mut String, s: &InitiativeSummary)
    ensures
        final(out)@ == old(out)@ + summary_title(*s),
{
    let ghost start = out@;
    push_line(out, "Initiative: ", s.initiative.name.as_str());
    push_line(out, "  ID: ", s.initiative.id.as_str());
    push_opt_line(out, "  Description: ", &s.initiative.description);
    push_str(out, "\n");
    assert(out@ =~= start + summary_title(*s));
}

/// Appends the progress line of an initiative summary.
fn push_summary_progress(out: &mut String, filled: usize, percent: &str)
    ensures
        final(out)@ == old(out)@ + summary_progress(filled as nat, percent@),
{
    let ghost start = out@;
    push_str(out, "Progress: ");
    push_str(out, "[");
    push_repeat(out, '=', filled);
    push_repeat(out, ' ', if filled < 30 { 30 - filled } else { 0 });
    push_str(out, "]");
    push_str(out, " ");
    push_str(out, percent);
    push_str(out, "%\n");
    push_str(out, "\n");
    assert(out@ =~= start + summary_progress(filled as nat, percent@));
}

/// Appends the status counts of an initiative summary.
fn push_summary_status(out: &mut String, s: &InitiativeSummary)
    ensures
        final(out)@ == old(out)@ + summary_status(*s),
{
    let ghost start = out@;
    push_str(out, "Status:\n");
    push_str(out, "  Projects: ");
    push_count(out, s.status.total_projects);
    push_str(out, " total, ");
    push_count(out, s.status.completed_projects);
    push_str(out, " complete, ");
    push_count(out, s.status.blocked_projects);
    push_str(out, " blocked\n");
    push_str(out, "  Tasks:    ");
    push_count(out, s.status.total_tasks);
    push_str(out, " total (");
    push_count(out, s.status.tasks_done);
    push_str(out, " done, ");
    push_count(out, s.status.tasks_in_progress);
    push_str(out, " in progress, ");
    push_count(out, s.status.tasks_todo);
    push_str(out, " todo, ");
    push_count(out, s.status.tasks_blocked);
    push_str(out, " blocked)\n");
    push_str(out, "\n");
    assert(out@ =~= start + summary_status(*s));
}

/// Appends the head of an initiative summary.
fn push_summary_head(out: &mut String, s: &InitiativeSummary, filled: usize, percent: &str)
    ensures
        final(out)@ == old(out)@ + summary_head(*s, filled as nat, percent@),
{
    let ghost start = out@;
    push_summary_title(out, s);
    push_summary_progress(out, filled, percent);
    push_summary_status(out, s);
    assert(out@ =~= start + summary_head(*s, filled as nat, percent@));
}

/// Appends the lines of the projects of a summary.
fn push_summary_projects(out: &mut String, ps: &Vec<ProjectSummary>)
    ensures
        final(out)@ == old(out)@ + concat(ps@.map_values(|p: ProjectSummary| summary_project_line(p))),
{
    let ghost start = out@;
    let ghost lines = ps@.map_values(|p: ProjectSummary| summary_project_line(p));
    let mut i: usize = 0;
    assert(lines.take(0) =~= Seq::<Seq<char>>::empty());
    while i < ps.len()
        invariant
            0 <= i <= ps@.len(),
            lines == ps@.map_values(|p: ProjectSummary| summary_project_line(p)),
            out@ == start + concat(lines.take(i as int)),
        decreases ps@.len() - i,
    {
        let p = &ps[i];
        let ghost before = out@;
        push_str(out, "  ");
        if p.done_count == p.task_count && p.task_count > 0 {
            push_str(out, "[done]");
        } else if p.blocked {
            push_str(out, "[blocked]");
        } else {
            push_str(out, "[active]");
        }
        push_str(out, " ");
        push_str(out, p.name.as_str());
        push_str(out, " (");
        push_count(out, p.done_count);
        push_str(out, "/");
        push_count(out, p.task_count);
        push_str(out, " tasks)\n");
        proof {
            crate::text::lemma_concat_take(lines, i as int);
            assert(out@ =~= before + summary_project_line(ps@[i as int]));
        }
        i = i + 1;
    }
    proof {
        crate::text::lemma_take_all(lines);
    }
}

/// Appends the lines of the blockers of a summary.
fn push_summary_blockers(out: &mut String, bs: &Vec<InitiativeBlockerInfo>)
    ensures
        final(out)@ == old(out)@ + concat(bs@.map_values(|b: InitiativeBlockerInfo| summary_blocker_line(b))),
{
    let ghost start = out@;
    let ghost lines = bs@.map_values(|b: InitiativeBlockerInfo| summary_blocker_line(b));
    let mut i: usize = 0;
    assert(lines.take(0) =~= Seq::<Seq<char>>::empty());
    while i < bs.len()
        invariant
            0 <= i <= bs@.len(),
            lines == bs@.map_values(|b: InitiativeBlockerInfo| summary_blocker_line(b)),
            out@ == start + concat(lines.take(i as int)),
        decreases bs@.len() - i,
    {
        let b = &bs[i];
        let ghost before = out@;
        push_str(out, "  - [");
        push_str(out, b.blocker_type.as_str());
        push_str(out, "] ");
        push_str(out, b.project_name.as_str());
        push_str(out, ": ");
        push_str(out, b.description.as_str());
        push_str(out, "\n");
        proof {
            crate::text::lemma_concat_take(lines, i as int);
            assert(out@ =~= before + summary_blocker_line(bs@[i as int]));
        }
        i = i + 1;
    }
    proof {
        crate::text::lemma_take_all(lines);
    }
}

/// Appends the lines of the next actions of a summary.
fn push_summary_actions(out: &mut String, xs: &Vec<NextAction>)
    ensures
        final(out)@ == old(out)@ + concat(xs@.map_values(|a: NextAction| summary_action_line(a))),
{
    let ghost start = out@;
    let ghost lines = xs@.map_values(|a: NextAction| summary_action_line(a));
    let mut i: usize = 0;
    assert(lines.take(0) =~= Seq::<Seq<char>>::empty());
    while i < xs.len()
        invariant
            0 <= i <= xs@.len(),
            lines == xs@.map_values(|a: NextAction| summary_action_line(a)),
            out@ == start + concat(lines.take(i as int)),
        decreases xs@.len() - i,
    {
        let a = &xs[i];
        let ghost before = out@;
        push_str(out, "  - [");
        push_str(out, a.priority.as_str());
        push_str(out, "] ");
        push_str(out, a.project_name.as_str());
        push_str(out, " > ");
        push_str(out, a.task_title.as_str());
        push_str(out, "\n");
        proof {
            crate::text::lemma_concat_take(lines, i as int);
            assert(out@ =~= before + summary_action_line(xs@[i as int]));
        }
        i = i + 1;
    }
    proof {
        crate::text::lemma_take_all(lines);
    }
}

/// Formats an initiative summary; the progress bar, 30 wide, has `filled`
/// marks, and `percent` is the completion percentage as text.
pub fn format_initiative_summary(summary: &InitiativeSummary, filled: usize, percent: &str) -> (r: String)
    ensures
        r@ == summary_text(*summary, filled as nat, percent@),
{
    let mut out = String::new();
    push_summary_head(&mut out, summary, filled, percent);
    let ghost a = out@;
    if summary.projects.len() > 0 {
        push_str(&mut out, "Projects:\n");
        push_summary_projects(&mut out, &summary.projects);
        push_str(&mut out, "\n");
    }
    let ghost b = out@;
    assert(b == a + (if summary.projects@.len() > 0 {
        "Projects:\n"@ + concat(summary.projects@.map_values(|p: ProjectSummary| summary_project_line(p))) + "\n"@
    } else {
        Seq::empty()
    }));
    if summary.blockers.len() > 0 {
        push_str(&mut out, "Blockers:\n");
        push_summary_blockers(&mut out, &summary.blockers);
        push_str(&mut out, "\n");
    }
    let ghost c = out@;
    assert(c == b + (if summary.blockers@.len() > 0 {
        "Blockers:\n"@ + concat(summary.blockers@.map_values(|x: InitiativeBlockerInfo| summary_blocker_line(x)))
            + "\n"@
    } else {
        Seq::empty()
    }));
    if summary.next_actions.len() > 0 {
        push_str(&mut out, "Next Actions:\n");
        push_summary_actions(&mut out, &summary.next_actions);
    }
    assert(out@ =~= summary_text(*summary, filled as nat, percent@));
    out
}

} // verus!
