//! Prompt output: structured text for language models that people can still
//! read. Each record is wrapped in a tag, one `key: value` per line.
use vstd::prelude::*;
use crate::models::artifact::Artifact;
use crate::models::checkpoint::Checkpoint;
use crate::models::initiative::{InitiativeBlockerInfo, InitiativeSummary, NextAction};
use crate::json::{pretty_json, pretty_json_text};
use crate::output::json::{BlockerInfo, ContextOutput, HandoffOutput, SteeringInfo, SummaryOutput};
use crate::models::initiative::Initiative;
use crate::models::project::{optional_strings, Project};
use crate::models::search::SearchResult;
use crate::models::session::Session;
use crate::models::task::{Comment, Task};
use crate::text::{
    can_truncate, concat, dec, join, lemma_concat_take, lemma_take_all, line, list_line, opt_line,
    ends_with_char, joined, owned, push_char, push_joined, push_line, push_list_line, push_nat, push_opt_line, push_str, truncate,
    truncated, views,
};

verus! {

/// The prompt text of a project.
pub open spec fn project_text(p: Project) -> Seq<char> {
    "<project>\n"@ + line("id: "@, p.id@) + line("name: "@, p.name@) + line("status: "@, p.status@)
        + opt_line("owner: "@, p.owner) + opt_line("description: "@, p.description) + list_line(
        "tags: "@,
        optional_strings(p.tags),
        ", "@,
    ) + "</project>\n"@
}

/// Formats a project for a language model.
pub fn format_project(project: &Project) -> (r: String)
    ensures
        r@ == project_text(*project),
{
    let mut out = owned("<project>\n");
    push_line(&mut out, "id: ", project.id.as_str());
    push_line(&mut out, "name: ", project.name.as_str());
    push_line(&mut out, "status: ", project.status.as_str());
    push_opt_line(&mut out, "owner: ", &project.owner);
    push_opt_line(&mut out, "description: ", &project.description);
    let tags = project.tags_vec();
    push_list_line(&mut out, "tags: ", tags.as_slice(), ", ");
    push_str(&mut out, "</project>\n");
    out
}

/// `<tag count="n">` and a newline.
pub open spec fn count_open(tag: Seq<char>, n: nat) -> Seq<char> {
    "<"@ + tag + " count=\""@ + dec(n) + "\">\n"@
}

/// Appends `<tag count="n">` and a newline.
pub fn push_count_open(out: &mut String, tag: &str, n: usize)
    ensures
        final(out)@ == old(out)@ + count_open(tag@, n as nat),
{
    let ghost start = out@;
    push_str(out, "<");
    push_str(out, tag);
    push_str(out, " count=\"");
    push_nat(out, n as u64);
    push_str(out, "\">\n");
    assert(out@ =~= start + count_open(tag@, n as nat));
}

/// One line of a project list: `  - name (id) [status]`.
pub open spec fn project_row(p: Project) -> Seq<char> {
    "  - "@ + p.name@ + " ("@ + p.id@ + ") ["@ + p.status@ + "]\n"@
}

/// The rows of a project list.
pub open spec fn project_rows(ps: Seq<Project>) -> Seq<Seq<char>> {
    ps.map_values(|p: Project| project_row(p))
}

/// The prompt text of a list of projects.
pub open spec fn projects_text(ps: Seq<Project>) -> Seq<char> {
    count_open("projects"@, ps.len()) + concat(project_rows(ps)) + "</projects>\n"@
}

/// Formats a list of projects for a language model.
pub fn format_projects(projects: &[Project]) -> (r: String)
    ensures
        r@ == projects_text(projects@),
{
    let mut out = String::new();
    push_count_open(&mut out, "projects", projects.len());
    let ghost head = out@;
    let ghost rows = project_rows(projects@);
    let mut i: usize = 0;
    while i < projects.len()
        invariant
            0 <= i <= projects.len(),
            rows == project_rows(projects@),
            out@ == head + concat(rows.take(i as int)),
        decreases projects.len() - i,
    {
        let p = &projects[i];
        let ghost before = out@;
        push_str(&mut out, "  - ");
        push_str(&mut out, p.name.as_str());
        push_str(&mut out, " (");
        push_str(&mut out, p.id.as_str());
        push_str(&mut out, ") [");
        push_str(&mut out, p.status.as_str());
        push_str(&mut out, "]\n");
        proof {
            assert(out@ =~= before + project_row(projects@[i as int]));
            lemma_concat_take(rows, i as int);
        }
        i = i + 1;
    }
    proof {
        lemma_take_all(rows);
    }
    push_str(&mut out, "</projects>\n");
    assert(out@ =~= projects_text(projects@));
    out
}

/// `value`, or `default` when absent.
pub open spec fn or_default(value: Option<String>, default: Seq<char>) -> Seq<char> {
    match value {
        Some(v) => v@,
        None => default,
    }
}

/// The value of an optional string, or a default.
pub fn text_or<'a>(value: &'a Option<String>, default: &'a str) -> (r: &'a str)
    ensures
        r@ == or_default(*value, default@),
{
    match value {
        Some(v) => v.as_str(),
        None => default,
    }
}

/// The prompt text of a task, with the ids of the tasks that block it.
pub open spec fn task_text(t: Task, blocked_by: Seq<Seq<char>>) -> Seq<char> {
    "<task>\n"@ + line("id: "@, t.id@) + line("title: "@, t.title@) + line("status: "@, t.status@)
        + line("priority: "@, t.priority@) + line("project: "@, t.project_id@) + opt_line(
        "owner: "@,
        t.owner,
    ) + opt_line("parent_task: "@, t.parent_task_id) + opt_line("description: "@, t.description)
        + opt_line("blocked_reason: "@, t.blocked_reason) + list_line("blocked_by: "@, blocked_by, ", "@)
        + opt_line("due_at: "@, t.due_at) + (if t.pinned != 0 {
        "pinned: true\n"@
    } else {
        Seq::empty()
    }) + "</task>\n"@
}

/// Formats a task for a language model.
pub fn format_task(task: &Task) -> (r: String)
    ensures
        r@ == task_text(*task, Seq::empty()),
{
    let none: Vec<String> = Vec::new();
    let r = format_task_with_deps(task, none.as_slice());
    assert(views(none@) =~= Seq::<Seq<char>>::empty());
    r
}

/// Formats a task for a language model, listing the tasks that block it.
pub fn format_task_with_deps(task: &Task, blocked_by: &[String]) -> (r: String)
    ensures
        r@ == task_text(*task, views(blocked_by@)),
{
    let mut out = owned("<task>\n");
    push_line(&mut out, "id: ", task.id.as_str());
    push_line(&mut out, "title: ", task.title.as_str());
    push_line(&mut out, "status: ", task.status.as_str());
    push_line(&mut out, "priority: ", task.priority.as_str());
    push_line(&mut out, "project: ", task.project_id.as_str());
    push_opt_line(&mut out, "owner: ", &task.owner);
    push_opt_line(&mut out, "parent_task: ", &task.parent_task_id);
    push_opt_line(&mut out, "description: ", &task.description);
    push_opt_line(&mut out, "blocked_reason: ", &task.blocked_reason);
    push_list_line(&mut out, "blocked_by: ", blocked_by, ", ");
    push_opt_line(&mut out, "due_at: ", &task.due_at);
    let ghost mid = out@;
    if task.pinned != 0 {
        push_str(&mut out, "pinned: true\n");
    } else {
        assert(out@ =~= mid + Seq::<char>::empty());
    }
    push_str(&mut out, "</task>\n");
    out
}

/// One line of a task list: `  - [priority] title (id) status`, then
/// ` [BLOCKED]` when the task has a blocked reason or blockers, then the
/// blockers.
pub open spec fn task_row(t: Task, deps: Seq<Seq<char>>) -> Seq<char> {
    "  - ["@ + t.priority@ + "] "@ + t.title@ + " ("@ + t.id@ + ") "@ + t.status@ + (if t.blocked_reason
        is Some || deps.len() > 0 {
        " [BLOCKED]"@
    } else {
        Seq::empty()
    }) + (if deps.len() > 0 {
        " blocked_by: "@ + join(deps, ", "@)
    } else {
        Seq::empty()
    }) + "\n"@
}

/// The prompt text of a list of tasks with their blockers.
pub open spec fn tasks_text(rows: Seq<Seq<char>>) -> Seq<char> {
    count_open("tasks"@, rows.len()) + concat(rows) + "</tasks>\n"@
}

/// The rows of a list of tasks with their blockers.
pub open spec fn task_dep_rows(xs: Seq<(&Task, &[String])>) -> Seq<Seq<char>> {
    xs.map_values(|x: (&Task, &[String])| task_row(*x.0, views(x.1@)))
}

/// The rows of a list of tasks without blockers.
pub open spec fn task_rows(ts: Seq<Task>) -> Seq<Seq<char>> {
    ts.map_values(|t: Task| task_row(t, Seq::empty()))
}

/// Appends one task row.
fn push_task_row(out: &mut String, t: &Task, deps: &[String])
    ensures
        final(out)@ == old(out)@ + task_row(*t, views(deps@)),
{
    let ghost start = out@;
    push_str(out, "  - [");
    push_str(out, t.priority.as_str());
    push_str(out, "] ");
    push_str(out, t.title.as_str());
    push_str(out, " (");
    push_str(out, t.id.as_str());
    push_str(out, ") ");
    push_str(out, t.status.as_str());
    let ghost a = out@;
    if t.blocked_reason.is_some() || deps.len() > 0 {
        push_str(out, " [BLOCKED]");
    }
    let ghost b = out@;
    if deps.len() > 0 {
        push_str(out, " blocked_by: ");
        push_joined(out, deps, ", ");
    }
    let ghost c = out@;
    push_str(out, "\n");
    proof {
        let blocked = if t.blocked_reason is Some || views(deps@).len() > 0 {
            " [BLOCKED]"@
        } else {
            Seq::<char>::empty()
        };
        let info = if views(deps@).len() > 0 {
            " blocked_by: "@ + join(views(deps@), ", "@)
        } else {
            Seq::<char>::empty()
        };
        assert(b =~= a + blocked);
        assert(c =~= b + info);
        assert(out@ =~= start + task_row(*t, views(deps@)));
    }
}

/// Formats a list of tasks with their blockers for a language model.
pub fn format_tasks_with_deps(tasks_with_deps: &[(&Task, &[String])]) -> (r: String)
    ensures
        r@ == tasks_text(task_dep_rows(tasks_with_deps@)),
{
    let mut out = String::new();
    push_count_open(&mut out, "tasks", tasks_with_deps.len());
    let ghost head = out@;
    let ghost rows = task_dep_rows(tasks_with_deps@);
    let mut i: usize = 0;
    while i < tasks_with_deps.len()
        invariant
            0 <= i <= tasks_with_deps.len(),
            rows == task_dep_rows(tasks_with_deps@),
            out@ == head + concat(rows.take(i as int)),
        decreases tasks_with_deps.len() - i,
    {
        let (t, deps) = tasks_with_deps[i];
        push_task_row(&mut out, t, deps);
        proof {
            lemma_concat_take(rows, i as int);
        }
        i = i + 1;
    }
    proof {
        lemma_take_all(rows);
    }
    push_str(&mut out, "</tasks>\n");
    assert(out@ =~= tasks_text(task_dep_rows(tasks_with_deps@)));
    out
}

/// Formats a list of tasks for a language model (no blockers listed).
pub fn format_tasks(tasks: &[Task]) -> (r: String)
    ensures
        r@ == tasks_text(task_rows(tasks@)),
{
    let mut out = String::new();
    push_count_open(&mut out, "tasks", tasks.len());
    let ghost head = out@;
    let ghost rows = task_rows(tasks@);
    let none: Vec<String> = Vec::new();
    let mut i: usize = 0;
    while i < tasks.len()
        invariant
            0 <= i <= tasks.len(),
            rows == task_rows(tasks@),
            none@.len() == 0,
            out@ == head + concat(rows.take(i as int)),
        decreases tasks.len() - i,
    {
        push_task_row(&mut out, &tasks[i], none.as_slice());
        proof {
            assert(views(none@) =~= Seq::<Seq<char>>::empty());
            lemma_concat_take(rows, i as int);
        }
        i = i + 1;
    }
    proof {
        lemma_take_all(rows);
    }
    push_str(&mut out, "</tasks>\n");
    assert(out@ =~= tasks_text(task_rows(tasks@)));
    out
}

/// The prompt text of a comment.
pub open spec fn comment_text(c: Comment) -> Seq<char> {
    "<comment>\n"@ + line("id: "@, c.id@) + line("kind: "@, c.kind@) + line("parent: "@, c.parent_id@)
        + opt_line("author: "@, c.author) + line("created_at: "@, c.created_at@) + line(
        "content:\n"@,
        c.content@,
    ) + "</comment>\n"@
}

/// Formats a comment for a language model.
pub fn format_comment(comment: &Comment) -> (r: String)
    ensures
        r@ == comment_text(*comment),
{
    let mut out = owned("<comment>\n");
    push_line(&mut out, "id: ", comment.id.as_str());
    push_line(&mut out, "kind: ", comment.kind.as_str());
    push_line(&mut out, "parent: ", comment.parent_id.as_str());
    push_opt_line(&mut out, "author: ", &comment.author);
    push_line(&mut out, "created_at: ", comment.created_at.as_str());
    push_line(&mut out, "content:\n", comment.content.as_str());
    push_str(&mut out, "</comment>\n");
    out
}

/// One line of a comment list: kind, author and the content cut to 60 bytes.
pub open spec fn comment_row(c: Comment) -> Seq<char> {
    "  - ["@ + c.kind@ + "] "@ + or_default(c.author, "anonymous"@) + ": "@ + truncated(c.content@, 60)
        + "\n"@
}

/// The rows of a comment list.
pub open spec fn comment_rows(cs: Seq<Comment>) -> Seq<Seq<char>> {
    cs.map_values(|c: Comment| comment_row(c))
}

/// The prompt text of a list of comments.
pub open spec fn comments_text(cs: Seq<Comment>) -> Seq<char> {
    count_open("comments"@, cs.len()) + concat(comment_rows(cs)) + "</comments>\n"@
}

/// Formats a list of comments for a language model; contents longer than 60
/// bytes are cut at byte 57, which must not fall inside a character.
pub fn format_comments(comments: &[Comment]) -> (r: String)
    requires
        forall|i: int| 0 <= i < comments@.len() ==> can_truncate(#[trigger] comments@[i].content@, 60),
    ensures
        r@ == comments_text(comments@),
{
    let mut out = String::new();
    push_count_open(&mut out, "comments", comments.len());
    let ghost head = out@;
    let ghost rows = comment_rows(comments@);
    let mut i: usize = 0;
    while i < comments.len()
        invariant
            0 <= i <= comments.len(),
            rows == comment_rows(comments@),
            forall|j: int| 0 <= j < comments@.len() ==> can_truncate(#[trigger] comments@[j].content@, 60),
            out@ == head + concat(rows.take(i as int)),
        decreases comments.len() - i,
    {
        let c = &comments[i];
        let ghost before = out@;
        push_str(&mut out, "  - [");
        push_str(&mut out, c.kind.as_str());
        push_str(&mut out, "] ");
        push_str(&mut out, text_or(&c.author, "anonymous"));
        push_str(&mut out, ": ");
        let cut = truncate(c.content.as_str(), 60);
        push_str(&mut out, cut.as_str());
        push_str(&mut out, "\n");
        proof {
            assert(out@ =~= before + comment_row(comments@[i as int]));
            lemma_concat_take(rows, i as int);
        }
        i = i + 1;
    }
    proof {
        lemma_take_all(rows);
    }
    push_str(&mut out, "</comments>\n");
    assert(out@ =~= comments_text(comments@));
    out
}

/// `closed` or `active`.
pub open spec fn session_status(s: Session) -> Seq<char> {
    if s.closed_at is Some {
        "closed"@
    } else {
        "active"@
    }
}

/// The prompt text of a session.
pub open spec fn session_text(s: Session) -> Seq<char> {
    "<session>\n"@ + line("id: "@, s.id@) + opt_line("name: "@, s.name) + opt_line("mode: "@, s.mode)
        + opt_line("owner: "@, s.owner) + line("status: "@, session_status(s)) + opt_line(
        "focus_task: "@,
        s.focus_task_id,
    ) + line("created_at: "@, s.created_at@) + "</session>\n"@
}

/// Formats a session for a language model.
pub fn format_session(session: &Session) -> (r: String)
    ensures
        r@ == session_text(*session),
{
    let mut out = owned("<session>\n");
    push_line(&mut out, "id: ", session.id.as_str());
    push_opt_line(&mut out, "name: ", &session.name);
    push_opt_line(&mut out, "mode: ", &session.mode);
    push_opt_line(&mut out, "owner: ", &session.owner);
    let status = if session.is_closed() { "closed" } else { "active" };
    push_line(&mut out, "status: ", status);
    push_opt_line(&mut out, "focus_task: ", &session.focus_task_id);
    push_line(&mut out, "created_at: ", session.created_at.as_str());
    push_str(&mut out, "</session>\n");
    out
}

/// One line of a session list: `  - name (id) [status]`.
pub open spec fn session_row(s: Session) -> Seq<char> {
    "  - "@ + or_default(s.name, "unnamed"@) + " ("@ + s.id@ + ") ["@ + session_status(s) + "]\n"@
}

/// The prompt text of a list of sessions.
pub open spec fn sessions_text(ss: Seq<Session>) -> Seq<char> {
    count_open("sessions"@, ss.len()) + concat(ss.map_values(|s: Session| session_row(s)))
        + "</sessions>\n"@
}

/// Formats a list of sessions for a language model.
pub fn format_sessions(sessions: &[Session]) -> (r: String)
    ensures
        r@ == sessions_text(sessions@),
{
    let mut out = String::new();
    push_count_open(&mut out, "sessions", sessions.len());
    let ghost head = out@;
    let ghost rows = sessions@.map_values(|s: Session| session_row(s));
    let mut i: usize = 0;
    while i < sessions.len()
        invariant
            0 <= i <= sessions.len(),
            rows == sessions@.map_values(|s: Session| session_row(s)),
            out@ == head + concat(rows.take(i as int)),
        decreases sessions.len() - i,
    {
        let s = &sessions[i];
        let ghost before = out@;
        push_str(&mut out, "  - ");
        push_str(&mut out, text_or(&s.name, "unnamed"));
        push_str(&mut out, " (");
        push_str(&mut out, s.id.as_str());
        push_str(&mut out, ") [");
        push_str(&mut out, if s.is_closed() { "closed" } else { "active" });
        push_str(&mut out, "]\n");
        proof {
            assert(out@ =~= before + session_row(sessions@[i as int]));
            lemma_concat_take(rows, i as int);
        }
        i = i + 1;
    }
    proof {
        lemma_take_all(rows);
    }
    push_str(&mut out, "</sessions>\n");
    assert(out@ =~= sessions_text(sessions@));
    out
}

/// The prompt text of a checkpoint.
pub open spec fn checkpoint_text(c: Checkpoint) -> Seq<char> {
    "<checkpoint>\n"@ + line("id: "@, c.id@) + line("name: "@, c.name@) + line("session: "@, c.session_id@)
        + line("created_at: "@, c.created_at@) + "</checkpoint>\n"@
}

/// Formats a checkpoint for a language model.
pub fn format_checkpoint(checkpoint: &Checkpoint) -> (r: String)
    ensures
        r@ == checkpoint_text(*checkpoint),
{
    let mut out = owned("<checkpoint>\n");
    push_line(&mut out, "id: ", checkpoint.id.as_str());
    push_line(&mut out, "name: ", checkpoint.name.as_str());
    push_line(&mut out, "session: ", checkpoint.session_id.as_str());
    push_line(&mut out, "created_at: ", checkpoint.created_at.as_str());
    push_str(&mut out, "</checkpoint>\n");
    out
}

/// One line of a checkpoint list: `  - name (id) created_at`.
pub open spec fn checkpoint_row(c: Checkpoint) -> Seq<char> {
    "  - "@ + c.name@ + " ("@ + c.id@ + ") "@ + c.created_at@ + "\n"@
}

/// The prompt text of a list of checkpoints.
pub open spec fn checkpoints_text(cs: Seq<Checkpoint>) -> Seq<char> {
    count_open("checkpoints"@, cs.len()) + concat(cs.map_values(|c: Checkpoint| checkpoint_row(c)))
        + "</checkpoints>\n"@
}

/// Formats a list of checkpoints for a language model.
pub fn format_checkpoints(checkpoints: &[Checkpoint]) -> (r: String)
    ensures
        r@ == checkpoints_text(checkpoints@),
{
    let mut out = String::new();
    push_count_open(&mut out, "checkpoints", checkpoints.len());
    let ghost head = out@;
    let ghost rows = checkpoints@.map_values(|c: Checkpoint| checkpoint_row(c));
    let mut i: usize = 0;
    while i < checkpoints.len()
        invariant
            0 <= i <= checkpoints.len(),
            rows == checkpoints@.map_values(|c: Checkpoint| checkpoint_row(c)),
            out@ == head + concat(rows.take(i as int)),
        decreases checkpoints.len() - i,
    {
        let c = &checkpoints[i];
        let ghost before = out@;
        push_str(&mut out, "  - ");
        push_str(&mut out, c.name.as_str());
        push_str(&mut out, " (");
        push_str(&mut out, c.id.as_str());
        push_str(&mut out, ") ");
        push_str(&mut out, c.created_at.as_str());
        push_str(&mut out, "\n");
        proof {
            assert(out@ =~= before + checkpoint_row(checkpoints@[i as int]));
            lemma_concat_take(rows, i as int);
        }
        i = i + 1;
    }
    proof {
        lemma_take_all(rows);
    }
    push_str(&mut out, "</checkpoints>\n");
    assert(out@ =~= checkpoints_text(checkpoints@));
    out
}

/// `label`, the text, and a newline, when there is a text.
pub open spec fn opt_str_line(label: Seq<char>, value: Option<&str>) -> Seq<char> {
    match value {
        Some(v) => line(label, v@),
        None => Seq::empty(),
    }
}

/// The prompt text of the next task to work on, or of its absence.
pub open spec fn next_task_text(task: Option<&Task>, reason: Option<&str>) -> Seq<char> {
    "<next_task>\n"@ + match task {
        Some(t) => line("id: "@, t.id@) + line("title: "@, t.title@) + line("priority: "@, t.priority@)
            + line("status: "@, t.status@) + line("project: "@, t.project_id@) + opt_line(
            "description: "@,
            t.description,
        ) + opt_str_line("selection_reason: "@, reason),
        None => "status: no_task_available\n"@ + opt_str_line("reason: "@, reason),
    } + "</next_task>\n"@
}

/// Formats the next task to work on (or its absence) for a language model.
pub fn format_next_task(task: Option<&Task>, reason: Option<&str>) -> (r: String)
    ensures
        r@ == next_task_text(task, reason),
{
    let mut out = owned("<next_task>\n");
    let ghost head = out@;
    match task {
        Some(t) => {
            push_line(&mut out, "id: ", t.id.as_str());
            push_line(&mut out, "title: ", t.title.as_str());
            push_line(&mut out, "priority: ", t.priority.as_str());
            push_line(&mut out, "status: ", t.status.as_str());
            push_line(&mut out, "project: ", t.project_id.as_str());
            push_opt_line(&mut out, "description: ", &t.description);
            let ghost before = out@;
            match reason {
                Some(r) => push_line(&mut out, "selection_reason: ", r),
                None => {},
            }
            assert(out@ =~= before + opt_str_line("selection_reason: "@, reason));
        },
        None => {
            push_str(&mut out, "status: no_task_available\n");
            let ghost before = out@;
            match reason {
                Some(r) => push_line(&mut out, "reason: ", r),
                None => {},
            }
            assert(out@ =~= before + opt_str_line("reason: "@, reason));
        },
    }
    push_str(&mut out, "</next_task>\n");
    assert(out@ =~= next_task_text(task, reason));
    out
}

/// The prompt text of one search hit.
pub open spec fn search_result_text(r: SearchResult) -> Seq<char> {
    match r {
        SearchResult::Initiative { id, name, description, status } => "<initiative>\n"@ + line(
            "id: "@,
            id@,
        ) + line("name: "@, name@) + line("status: "@, status@) + opt_line("description: "@, description)
            + "</initiative>\n"@,
        SearchResult::Project { id, name, description, status } => "<project>\n"@ + line(
            "id: "@,
            id@,
        ) + line("name: "@, name@) + line("status: "@, status@) + opt_line("description: "@, description)
            + "</project>\n"@,
        SearchResult::Task { id, title, description, status, priority, project_id } => "<task>\n"@
            + line("id: "@, id@) + line("title: "@, title@) + line("status: "@, status@) + line(
            "priority: "@,
            priority@,
        ) + line("project: "@, project_id@) + opt_line("description: "@, description) + "</task>\n"@,
    }
}

/// Appends the prompt text of one search hit.
fn push_search_result(out: &mut String, result: &SearchResult)
    ensures
        final(out)@ == old(out)@ + search_result_text(*result),
{
    let ghost start = out@;
    match result {
        SearchResult::Initiative { id, name, description, status } => {
            push_str(out, "<initiative>\n");
            push_line(out, "id: ", id.as_str());
            push_line(out, "name: ", name.as_str());
            push_line(out, "status: ", status.as_str());
            push_opt_line(out, "description: ", description);
            push_str(out, "</initiative>\n");
        },
        SearchResult::Project { id, name, description, status } => {
            push_str(out, "<project>\n");
            push_line(out, "id: ", id.as_str());
            push_line(out, "name: ", name.as_str());
            push_line(out, "status: ", status.as_str());
            push_opt_line(out, "description: ", description);
            push_str(out, "</project>\n");
        },
        SearchResult::Task { id, title, description, status, priority, project_id } => {
            push_str(out, "<task>\n");
            push_line(out, "id: ", id.as_str());
            push_line(out, "title: ", title.as_str());
            push_line(out, "status: ", status.as_str());
            push_line(out, "priority: ", priority.as_str());
            push_line(out, "project: ", project_id.as_str());
            push_opt_line(out, "description: ", description);
            push_str(out, "</task>\n");
        },
    }
    assert(out@ =~= start + search_result_text(*result));
}

/// The prompt text of a list of search hits.
pub open spec fn search_results_text(rs: Seq<SearchResult>) -> Seq<char> {
    count_open("search_results"@, rs.len()) + concat(rs.map_values(|r: SearchResult| search_result_text(r)))
        + "</search_results>\n"@
}

/// Formats search hits for a language model.
pub fn format_search_results(results: &[SearchResult]) -> (r: String)
    ensures
        r@ == search_results_text(results@),
{
    let mut out = String::new();
    push_count_open(&mut out, "search_results", results.len());
    let ghost head = out@;
    let ghost rows = results@.map_values(|r: SearchResult| search_result_text(r));
    let mut i: usize = 0;
    while i < results.len()
        invariant
            0 <= i <= results.len(),
            rows == results@.map_values(|r: SearchResult| search_result_text(r)),
            out@ == head + concat(rows.take(i as int)),
        decreases results.len() - i,
    {
        push_search_result(&mut out, &results[i]);
        proof {
            lemma_concat_take(rows, i as int);
        }
        i = i + 1;
    }
    proof {
        lemma_take_all(rows);
    }
    push_str(&mut out, "</search_results>\n");
    assert(out@ =~= search_results_text(results@));
    out
}

/// The prompt text of an initiative.
pub open spec fn initiative_text(i: Initiative) -> Seq<char> {
    "<initiative>\n"@ + line("id: "@, i.id@) + line("name: "@, i.name@) + line("status: "@, i.status@)
        + opt_line("owner: "@, i.owner) + opt_line("description: "@, i.description) + list_line(
        "tags: "@,
        optional_strings(i.tags),
        ", "@,
    ) + "</initiative>\n"@
}

/// Formats an initiative for a language model.
pub fn format_initiative(initiative: &Initiative) -> (r: String)
    ensures
        r@ == initiative_text(*initiative),
{
    let mut out = owned("<initiative>\n");
    push_line(&mut out, "id: ", initiative.id.as_str());
    push_line(&mut out, "name: ", initiative.name.as_str());
    push_line(&mut out, "status: ", initiative.status.as_str());
    push_opt_line(&mut out, "owner: ", &initiative.owner);
    push_opt_line(&mut out, "description: ", &initiative.description);
    let tags = initiative.tags_vec();
    push_list_line(&mut out, "tags: ", tags.as_slice(), ", ");
    push_str(&mut out, "</initiative>\n");
    out
}

/// One line of an initiative list: `  - name (id) [status]`.
pub open spec fn initiative_row(i: Initiative) -> Seq<char> {
    "  - "@ + i.name@ + " ("@ + i.id@ + ") ["@ + i.status@ + "]\n"@
}

/// The prompt text of a list of initiatives.
pub open spec fn initiatives_text(is: Seq<Initiative>) -> Seq<char> {
    count_open("initiatives"@, is.len()) + concat(is.map_values(|i: Initiative| initiative_row(i)))
        + "</initiatives>\n"@
}

/// Formats a list of initiatives for a language model.
pub fn format_initiatives(initiatives: &[Initiative]) -> (r: String)
    ensures
        r@ == initiatives_text(initiatives@),
{
    let mut out = String::new();
    push_count_open(&mut out, "initiatives", initiatives.len());
    let ghost head = out@;
    let ghost rows = initiatives@.map_values(|i: Initiative| initiative_row(i));
    let mut k: usize = 0;
    while k < initiatives.len()
        invariant
            0 <= k <= initiatives.len(),
            rows == initiatives@.map_values(|i: Initiative| initiative_row(i)),
            out@ == head + concat(rows.take(k as int)),
        decreases initiatives.len() - k,
    {
        let it = &initiatives[k];
        let ghost before = out@;
        push_str(&mut out, "  - ");
        push_str(&mut out, it.name.as_str());
        push_str(&mut out, " (");
        push_str(&mut out, it.id.as_str());
        push_str(&mut out, ") [");
        push_str(&mut out, it.status.as_str());
        push_str(&mut out, "]\n");
        proof {
            assert(out@ =~= before + initiative_row(initiatives@[k as int]));
            lemma_concat_take(rows, k as int);
        }
        k = k + 1;
    }
    proof {
        lemma_take_all(rows);
    }
    push_str(&mut out, "</initiatives>\n");
    assert(out@ =~= initiatives_text(initiatives@));
    out
}

/// The rows of a section, wrapped in its opening and closing lines when there
/// are rows; nothing otherwise.
pub open spec fn section(open: Seq<char>, rows: Seq<Seq<char>>, close: Seq<char>) -> Seq<char> {
    if rows.len() > 0 {
        open + concat(rows) + close
    } else {
        Seq::empty()
    }
}

/// A blocker line of a summary: `  - title (id)`, the reason if any.
pub open spec fn summary_blocker_row(t: Task) -> Seq<char> {
    "  - "@ + t.title@ + " ("@ + t.id@ + ")"@ + (match t.blocked_reason {
        Some(r) => ": "@ + r@,
        None => Seq::empty(),
    }) + "\n"@
}

/// A next-action line of a summary: `  - [priority] title (id)`.
pub open spec fn next_action_row(t: Task) -> Seq<char> {
    "  - ["@ + t.priority@ + "] "@ + t.title@ + " ("@ + t.id@ + ")\n"@
}

/// A decision line of a summary: `  - author: content`.
pub open spec fn decision_row(c: Comment) -> Seq<char> {
    "  - "@ + or_default(c.author, "unknown"@) + ": "@ + c.content@ + "\n"@
}

/// An artifact line: `  - [type] path`.
pub open spec fn artifact_row(a: Artifact) -> Seq<char> {
    "  - ["@ + a.artifact_type@ + "] "@ + a.path_or_url@ + "\n"@
}

/// The session header of a summary.
pub open spec fn summary_session_text(s: Option<crate::output::json::SessionSummary>) -> Seq<char> {
    match s {
        Some(s) => "<session_header>\n"@ + line("id: "@, s.id@) + opt_line("name: "@, s.name) + opt_line(
            "mode: "@,
            s.mode,
        ) + opt_line("owner: "@, s.owner) + opt_line("focus_task: "@, s.focus_task_id)
            + "</session_header>\n\n"@,
        None => Seq::empty(),
    }
}

/// The state-of-work block of a summary.
pub open spec fn state_text(st: crate::output::json::StateSummary) -> Seq<char> {
    "<state_of_work>\n"@ + line("total_tasks: "@, dec(st.total_tasks as nat)) + "by_status:\n"@ + line(
        "  todo: "@,
        dec(st.by_status.todo as nat),
    ) + line("  in_progress: "@, dec(st.by_status.in_progress as nat)) + line(
        "  done: "@,
        dec(st.by_status.done as nat),
    ) + line("  blocked: "@, dec(st.by_status.blocked as nat)) + "by_priority:\n"@ + line(
        "  P0: "@,
        dec(st.by_priority.p0 as nat),
    ) + line("  P1: "@, dec(st.by_priority.p1 as nat)) + line("  P2: "@, dec(st.by_priority.p2 as nat))
        + line("  P3: "@, dec(st.by_priority.p3 as nat)) + line("  P4: "@, dec(st.by_priority.p4 as nat))
        + "</state_of_work>\n\n"@
}

/// The focus-task block of a summary.
pub open spec fn focus_text(t: Option<Task>) -> Seq<char> {
    match t {
        Some(t) => "<focus_task>\n"@ + line("id: "@, t.id@) + line("title: "@, t.title@) + line(
            "status: "@,
            t.status@,
        ) + line("priority: "@, t.priority@) + opt_line("description: "@, t.description)
            + "</focus_task>\n\n"@,
        None => Seq::empty(),
    }
}

/// The prompt text of a work summary.
pub open spec fn summary_text(s: SummaryOutput) -> Seq<char> {
    "<summary>\n"@ + summary_session_text(s.session) + state_text(s.state) + focus_text(s.focus_task)
        + section(
        "<blockers>\n"@,
        s.blockers@.map_values(|t: Task| summary_blocker_row(t)),
        "</blockers>\n\n"@,
    ) + section(
        "<next_actions>\n"@,
        s.next_actions@.map_values(|t: Task| next_action_row(t)),
        "</next_actions>\n\n"@,
    ) + section(
        "<recent_decisions>\n"@,
        s.recent_decisions@.map_values(|c: Comment| decision_row(c)),
        "</recent_decisions>\n\n"@,
    ) + section(
        "<recent_artifacts>\n"@,
        s.recent_artifacts@.map_values(|a: Artifact| artifact_row(a)),
        "</recent_artifacts>\n"@,
    ) + "</summary>\n"@
}

/// Appends `label`, a count and a newline.
fn push_count_line(out: &mut String, label: &str, n: usize)
    ensures
        final(out)@ == old(out)@ + line(label@, dec(n as nat)),
{
    let ghost start = out@;
    push_str(out, label);
    push_nat(out, n as u64);
    push_char(out, '\n');
    assert(out@ =~= start + line(label@, dec(n as nat)));
}

/// Appends the blockers section of a summary.
fn push_summary_blockers(out: &mut String, tasks: &Vec<Task>)
    ensures
        final(out)@ == old(out)@ + section(
            "<blockers>\n"@,
            tasks@.map_values(|t: Task| summary_blocker_row(t)),
            "</blockers>\n\n"@,
        ),
{
    let ghost rows = tasks@.map_values(|t: Task| summary_blocker_row(t));
    let ghost start = out@;
    if tasks.len() == 0 {
        assert(out@ =~= start + Seq::<char>::empty());
        return;
    }
    push_str(out, "<blockers>\n");
    let ghost head = out@;
    let mut i: usize = 0;
    while i < tasks.len()
        invariant
            0 <= i <= tasks.len(),
            rows == tasks@.map_values(|t: Task| summary_blocker_row(t)),
            out@ == head + concat(rows.take(i as int)),
        decreases tasks.len() - i,
    {
        let t = &tasks[i];
        let ghost before = out@;
        push_str(out, "  - ");
        push_str(out, t.title.as_str());
        push_str(out, " (");
        push_str(out, t.id.as_str());
        push_str(out, ")");
        let ghost mid = out@;
        match &t.blocked_reason {
            Some(r) => {
                push_str(out, ": ");
                push_str(out, r.as_str());
            },
            None => {},
        }
        assert(out@ =~= mid + match tasks@[i as int].blocked_reason {
            Some(r) => ": "@ + r@,
            None => Seq::<char>::empty(),
        });
        push_str(out, "\n");
        proof {
            assert(out@ =~= before + summary_blocker_row(tasks@[i as int]));
            lemma_concat_take(rows, i as int);
        }
        i = i + 1;
    }
    proof {
        lemma_take_all(rows);
    }
    push_str(out, "</blockers>\n\n");
    assert(out@ =~= start + section("<blockers>\n"@, rows, "</blockers>\n\n"@));
}

/// Appends the next-actions section of a summary.
fn push_next_actions(out: &mut String, tasks: &Vec<Task>)
    ensures
        final(out)@ == old(out)@ + section(
            "<next_actions>\n"@,
            tasks@.map_values(|t: Task| next_action_row(t)),
            "</next_actions>\n\n"@,
        ),
{
    let ghost rows = tasks@.map_values(|t: Task| next_action_row(t));
    let ghost start = out@;
    if tasks.len() == 0 {
        assert(out@ =~= start + Seq::<char>::empty());
        return;
    }
    push_str(out, "<next_actions>\n");
    let ghost head = out@;
    let mut i: usize = 0;
    while i < tasks.len()
        invariant
            0 <= i <= tasks.len(),
            rows == tasks@.map_values(|t: Task| next_action_row(t)),
            out@ == head + concat(rows.take(i as int)),
        decreases tasks.len() - i,
    {
        let t = &tasks[i];
        let ghost before = out@;
        push_str(out, "  - [");
        push_str(out, t.priority.as_str());
        push_str(out, "] ");
        push_str(out, t.title.as_str());
        push_str(out, " (");
        push_str(out, t.id.as_str());
        push_str(out, ")\n");
        proof {
            assert(out@ =~= before + next_action_row(tasks@[i as int]));
            lemma_concat_take(rows, i as int);
        }
        i = i + 1;
    }
    proof {
        lemma_take_all(rows);
    }
    push_str(out, "</next_actions>\n\n");
    assert(out@ =~= start + section("<next_actions>\n"@, rows, "</next_actions>\n\n"@));
}

/// Appends the rows `  - author: content` for a list of comments.
fn push_decision_rows(out: &mut String, comments: &Vec<Comment>)
    ensures
        final(out)@ == old(out)@ + concat(comments@.map_values(|c: Comment| decision_row(c))),
{
    let ghost rows = comments@.map_values(|c: Comment| decision_row(c));
    let ghost head = out@;
    assert(rows.take(0) =~= Seq::<Seq<char>>::empty());
    assert(out@ =~= head + concat(rows.take(0)));
    let mut i: usize = 0;
    while i < comments.len()
        invariant
            0 <= i <= comments.len(),
            rows == comments@.map_values(|c: Comment| decision_row(c)),
            out@ == head + concat(rows.take(i as int)),
        decreases comments.len() - i,
    {
        let c = &comments[i];
        let ghost before = out@;
        push_str(out, "  - ");
        push_str(out, text_or(&c.author, "unknown"));
        push_str(out, ": ");
        push_str(out, c.content.as_str());
        push_str(out, "\n");
        proof {
            assert(out@ =~= before + decision_row(comments@[i as int]));
            lemma_concat_take(rows, i as int);
        }
        i = i + 1;
    }
    proof {
        lemma_take_all(rows);
    }
}

/// Appends the rows `  - [type] path` for a list of artifacts.
fn push_artifact_rows(out: &mut String, artifacts: &Vec<Artifact>)
    ensures
        final(out)@ == old(out)@ + concat(artifacts@.map_values(|a: Artifact| artifact_row(a))),
{
    let ghost rows = artifacts@.map_values(|a: Artifact| artifact_row(a));
    let ghost head = out@;
    assert(rows.take(0) =~= Seq::<Seq<char>>::empty());
    assert(out@ =~= head + concat(rows.take(0)));
    let mut i: usize = 0;
    while i < artifacts.len()
        invariant
            0 <= i <= artifacts.len(),
            rows == artifacts@.map_values(|a: Artifact| artifact_row(a)),
            out@ == head + concat(rows.take(i as int)),
        decreases artifacts.len() - i,
    {
        let a = &artifacts[i];
        let ghost before = out@;
        push_str(out, "  - [");
        push_str(out, a.artifact_type.as_str());
        push_str(out, "] ");
        push_str(out, a.path_or_url.as_str());
        push_str(out, "\n");
        proof {
            assert(out@ =~= before + artifact_row(artifacts@[i as int]));
            lemma_concat_take(rows, i as int);
        }
        i = i + 1;
    }
    proof {
        lemma_take_all(rows);
    }
}

fn push_summary_session(out: &mut String, session: &Option<crate::output::json::SessionSummary>)
    ensures
        final(out)@ == old(out)@ + summary_session_text(*session),
{
    let ghost a0 = out@;
    match session {
        Some(session) => {
            push_str(out, "<session_header>\n");
            push_line(out, "id: ", session.id.as_str());
            push_opt_line(out, "name: ", &session.name);
            push_opt_line(out, "mode: ", &session.mode);
            push_opt_line(out, "owner: ", &session.owner);
            push_opt_line(out, "focus_task: ", &session.focus_task_id);
            push_str(out, "</session_header>\n\n");
        },
        None => {},
    }
    assert(out@ =~= a0 + summary_session_text(*session));
}

fn push_state(out: &mut String, st: &crate::output::json::StateSummary)
    ensures
        final(out)@ == old(out)@ + state_text(*st),
{
    let ghost a1 = out@;
    push_str(out, "<state_of_work>\n");
    push_count_line(out, "total_tasks: ", st.total_tasks);
    push_str(out, "by_status:\n");
    push_count_line(out, "  todo: ", st.by_status.todo);
    push_count_line(out, "  in_progress: ", st.by_status.in_progress);
    push_count_line(out, "  done: ", st.by_status.done);
    push_count_line(out, "  blocked: ", st.by_status.blocked);
    push_str(out, "by_priority:\n");
    push_count_line(out, "  P0: ", st.by_priority.p0);
    push_count_line(out, "  P1: ", st.by_priority.p1);
    push_count_line(out, "  P2: ", st.by_priority.p2);
    push_count_line(out, "  P3: ", st.by_priority.p3);
    push_count_line(out, "  P4: ", st.by_priority.p4);
    push_str(out, "</state_of_work>\n\n");
    assert(out@ =~= a1 + state_text(*st));
}

fn push_focus(out: &mut String, focus: &Option<Task>)
    ensures
        final(out)@ == old(out)@ + focus_text(*focus),
{
    let ghost a2 = out@;
    match focus {
        Some(t) => {
            push_str(out, "<focus_task>\n");
            push_line(out, "id: ", t.id.as_str());
            push_line(out, "title: ", t.title.as_str());
            push_line(out, "status: ", t.status.as_str());
            push_line(out, "priority: ", t.priority.as_str());
            push_opt_line(out, "description: ", &t.description);
            push_str(out, "</focus_task>\n\n");
        },
        None => {},
    }
    assert(out@ =~= a2 + focus_text(*focus));
}

fn push_recent_decisions(out: &mut String, comments: &Vec<Comment>)
    ensures
        final(out)@ == old(out)@ + section(
            "<recent_decisions>\n"@,
            comments@.map_values(|c: Comment| decision_row(c)),
            "</recent_decisions>\n\n"@,
        ),
{
    let ghost a3 = out@;
    if comments.len() > 0 {
        push_str(out, "<recent_decisions>\n");
        push_decision_rows(out, comments);
        push_str(out, "</recent_decisions>\n\n");
    }
    assert(out@ =~= a3 + section(
        "<recent_decisions>\n"@,
        comments@.map_values(|c: Comment| decision_row(c)),
        "</recent_decisions>\n\n"@,
    ));
}

fn push_recent_artifacts(out: &mut String, artifacts: &Vec<Artifact>)
    ensures
        final(out)@ == old(out)@ + section(
            "<recent_artifacts>\n"@,
            artifacts@.map_values(|a: Artifact| artifact_row(a)),
            "</recent_artifacts>\n"@,
        ),
{
    let ghost a4 = out@;
    if artifacts.len() > 0 {
        push_str(out, "<recent_artifacts>\n");
        push_artifact_rows(out, artifacts);
        push_str(out, "</recent_artifacts>\n");
    }
    assert(out@ =~= a4 + section(
        "<recent_artifacts>\n"@,
        artifacts@.map_values(|a: Artifact| artifact_row(a)),
        "</recent_artifacts>\n"@,
    ));
}

/// Formats a work summary for a language model.
pub fn format_summary(summary: &SummaryOutput) -> (r: String)
    ensures
        r@ == summary_text(*summary),
{
    let mut out = owned("<summary>\n");
    push_summary_session(&mut out, &summary.session);
    push_state(&mut out, &summary.state);
    push_focus(&mut out, &summary.focus_task);
    push_summary_blockers(&mut out, &summary.blockers);
    push_next_actions(&mut out, &summary.next_actions);
    push_recent_decisions(&mut out, &summary.recent_decisions);
    push_recent_artifacts(&mut out, &summary.recent_artifacts);
    push_str(&mut out, "</summary>\n");
    out
}

/// The rows of a section headed `<tag count="n">`, closed by `close`, when
/// there are rows; nothing otherwise.
pub open spec fn counted_section(tag: Seq<char>, rows: Seq<Seq<char>>, close: Seq<char>) -> Seq<char> {
    if rows.len() > 0 {
        count_open(tag, rows.len()) + concat(rows) + close
    } else {
        Seq::empty()
    }
}

/// A project line of a context pack: `  - name (id)`.
pub open spec fn context_project_row(p: Project) -> Seq<char> {
    "  - "@ + p.name@ + " ("@ + p.id@ + ")\n"@
}

/// A task line of a context pack (as in a task list without blockers).
pub open spec fn context_task_row(t: Task) -> Seq<char> {
    task_row(t, Seq::empty())
}

/// A decision line of a context pack: `  - parent: content`.
pub open spec fn context_decision_row(c: Comment) -> Seq<char> {
    "  - "@ + c.parent_id@ + ": "@ + c.content@ + "\n"@
}

/// A blocker line of a context pack: title, id, reason, unmet dependencies.
pub open spec fn context_blocker_row(b: BlockerInfo) -> Seq<char> {
    "  - "@ + b.task_title@ + " ("@ + b.task_id@ + ")"@ + (match b.reason {
        Some(r) => ": "@ + r@,
        None => Seq::empty(),
    }) + (if b.unmet_deps@.len() > 0 {
        " [deps: "@ + join(views(b.unmet_deps@), ", "@) + "]"@
    } else {
        Seq::empty()
    }) + "\n"@
}

/// A comment line of a context pack: `  - [kind] author: content`.
pub open spec fn context_comment_row(c: Comment) -> Seq<char> {
    "  - ["@ + c.kind@ + "] "@ + or_default(c.author, "unknown"@) + ": "@ + c.content@ + "\n"@
}

/// A steering file of a context pack, its content ending in a newline.
pub open spec fn steering_row(s: SteeringInfo) -> Seq<char> {
    "<steering_file path=\""@ + s.path@ + "\" mode=\""@ + s.mode@ + "\">\n"@ + (match s.content {
        Some(c) => if c@.len() > 0 && c@.last() == '\n' {
            c@
        } else {
            c@ + "\n"@
        },
        None => "(content not available - external reference)\n"@,
    }) + "</steering_file>\n"@
}

/// The session block of a context pack.
pub open spec fn context_session_text(s: Option<crate::output::json::SessionSummary>) -> Seq<char> {
    match s {
        Some(s) => "<session>\n"@ + line("id: "@, s.id@) + opt_line("name: "@, s.name) + opt_line(
            "mode: "@,
            s.mode,
        ) + "</session>\n\n"@,
        None => Seq::empty(),
    }
}

/// The prompt text of a context pack.
pub open spec fn context_text(c: ContextOutput) -> Seq<char> {
    "<context_pack>\n"@ + context_session_text(c.session) + counted_section(
        "projects"@,
        c.projects@.map_values(|x: Project| context_project_row(x)),
        "</projects>\n\n"@,
    ) + counted_section(
        "tasks"@,
        c.tasks@.map_values(|x: Task| context_task_row(x)),
        "</tasks>\n\n"@,
    ) + counted_section(
        "decisions"@,
        c.decisions@.map_values(|x: Comment| context_decision_row(x)),
        "</decisions>\n\n"@,
    ) + counted_section(
        "blockers"@,
        c.blockers@.map_values(|x: BlockerInfo| context_blocker_row(x)),
        "</blockers>\n\n"@,
    ) + counted_section(
        "comments"@,
        c.comments@.map_values(|x: Comment| context_comment_row(x)),
        "</comments>\n\n"@,
    ) + counted_section(
        "artifacts"@,
        c.artifacts@.map_values(|x: Artifact| artifact_row(x)),
        "</artifacts>\n\n"@,
    ) + counted_section(
        "steering"@,
        c.steering@.map_values(|x: SteeringInfo| steering_row(x)),
        "</steering>\n"@,
    ) + "</context_pack>\n"@
}

fn push_context_session(out: &mut String, session: &Option<crate::output::json::SessionSummary>)
    ensures
        final(out)@ == old(out)@ + context_session_text(*session),
{
    let ghost a0 = out@;
    match session {
        Some(session) => {
            push_str(out, "<session>\n");
            push_line(out, "id: ", session.id.as_str());
            push_opt_line(out, "name: ", &session.name);
            push_opt_line(out, "mode: ", &session.mode);
            push_str(out, "</session>\n\n");
        },
        None => {},
    }
    assert(out@ =~= a0 + context_session_text(*session));
}

/// Appends the projects section of a context pack.
fn push_context_projects(out: &mut String, items: &Vec<Project>)
    ensures
        final(out)@ == old(out)@ + counted_section("projects"@, items@.map_values(|x: Project| context_project_row(x)), "</projects>\n\n"@),
{
    let ghost rows = items@.map_values(|x: Project| context_project_row(x));
    let ghost start = out@;
    if items.len() == 0 {
        assert(out@ =~= start + Seq::<char>::empty());
        return;
    }
    push_count_open(out, "projects", items.len());
    let ghost head = out@;
    let mut i: usize = 0;
    while i < items.len()
        invariant
            0 <= i <= items.len(),
            rows == items@.map_values(|x: Project| context_project_row(x)),
            out@ == head + concat(rows.take(i as int)),
        decreases items.len() - i,
    {
        let x = &items[i];
        let ghost before = out@;
        push_str(out, "  - ");
        push_str(out, x.name.as_str());
        push_str(out, " (");
        push_str(out, x.id.as_str());
        push_str(out, ")\n");
        proof {
            assert(out@ =~= before + context_project_row(items@[i as int]));
            lemma_concat_take(rows, i as int);
        }
        i = i + 1;
    }
    proof {
        lemma_take_all(rows);
    }
    push_str(out, "</projects>\n\n");
    assert(out@ =~= start + counted_section("projects"@, rows, "</projects>\n\n"@));
}

/// Appends the tasks section of a context pack.
fn push_context_tasks(out: &mut String, items: &Vec<Task>)
    ensures
        final(out)@ == old(out)@ + counted_section("tasks"@, items@.map_values(|x: Task| context_task_row(x)), "</tasks>\n\n"@),
{
    let ghost rows = items@.map_values(|x: Task| context_task_row(x));
    let ghost start = out@;
    if items.len() == 0 {
        assert(out@ =~= start + Seq::<char>::empty());
        return;
    }
    push_count_open(out, "tasks", items.len());
    let ghost head = out@;
    let mut i: usize = 0;
    while i < items.len()
        invariant
            0 <= i <= items.len(),
            rows == items@.map_values(|x: Task| context_task_row(x)),
            out@ == head + concat(rows.take(i as int)),
        decreases items.len() - i,
    {
        let x = &items[i];
        let ghost before = out@;
        let none: Vec<String> = Vec::new();
        push_task_row(out, x, none.as_slice());
        assert(views(none@) =~= Seq::<Seq<char>>::empty());
        proof {
            assert(out@ =~= before + context_task_row(items@[i as int]));
            lemma_concat_take(rows, i as int);
        }
        i = i + 1;
    }
    proof {
        lemma_take_all(rows);
    }
    push_str(out, "</tasks>\n\n");
    assert(out@ =~= start + counted_section("tasks"@, rows, "</tasks>\n\n"@));
}

/// Appends the decisions section of a context pack.
fn push_context_decisions(out: &mut String, items: &Vec<Comment>)
    ensures
        final(out)@ == old(out)@ + counted_section("decisions"@, items@.map_values(|x: Comment| context_decision_row(x)), "</decisions>\n\n"@),
{
    let ghost rows = items@.map_values(|x: Comment| context_decision_row(x));
    let ghost start = out@;
    if items.len() == 0 {
        assert(out@ =~= start + Seq::<char>::empty());
        return;
    }
    push_count_open(out, "decisions", items.len());
    let ghost head = out@;
    let mut i: usize = 0;
    while i < items.len()
        invariant
            0 <= i <= items.len(),
            rows == items@.map_values(|x: Comment| context_decision_row(x)),
            out@ == head + concat(rows.take(i as int)),
        decreases items.len() - i,
    {
        let x = &items[i];
        let ghost before = out@;
        push_str(out, "  - ");
        push_str(out, x.parent_id.as_str());
        push_str(out, ": ");
        push_str(out, x.content.as_str());
        push_str(out, "\n");
        proof {
            assert(out@ =~= before + context_decision_row(items@[i as int]));
            lemma_concat_take(rows, i as int);
        }
        i = i + 1;
    }
    proof {
        lemma_take_all(rows);
    }
    push_str(out, "</decisions>\n\n");
    assert(out@ =~= start + counted_section("decisions"@, rows, "</decisions>\n\n"@));
}

fn push_context_blockers_row(out: &mut String, x: &BlockerInfo)
    ensures
        final(out)@ == old(out)@ + context_blocker_row(*x),
{
    let ghost before = out@;
        push_str(out, "  - ");
        push_str(out, x.task_title.as_str());
        push_str(out, " (");
        push_str(out, x.task_id.as_str());
        push_str(out, ")");
        let ghost m1 = out@;
        match &x.reason {
            Some(r) => {
                push_str(out, ": ");
                push_str(out, r.as_str());
            },
            None => {},
        }
        assert(out@ =~= m1 + match x.reason {
            Some(r) => ": "@ + r@,
            None => Seq::<char>::empty(),
        });
        let ghost m2 = out@;
        if x.unmet_deps.len() > 0 {
            push_str(out, " [deps: ");
            push_joined(out, x.unmet_deps.as_slice(), ", ");
            push_str(out, "]");
        }
        assert(out@ =~= m2 + if x.unmet_deps@.len() > 0 {
            " [deps: "@ + join(views(x.unmet_deps@), ", "@) + "]"@
        } else {
            Seq::<char>::empty()
        });
        push_str(out, "\n");
    assert(out@ =~= before + context_blocker_row(*x));
}

/// Appends the blockers section of a context pack.
fn push_context_blockers(out: &mut String, items: &Vec<BlockerInfo>)
    ensures
        final(out)@ == old(out)@ + counted_section("blockers"@, items@.map_values(|x: BlockerInfo| context_blocker_row(x)), "</blockers>\n\n"@),
{
    let ghost rows = items@.map_values(|x: BlockerInfo| context_blocker_row(x));
    let ghost start = out@;
    if items.len() == 0 {
        assert(out@ =~= start + Seq::<char>::empty());
        return;
    }
    push_count_open(out, "blockers", items.len());
    let ghost head = out@;
    let mut i: usize = 0;
    while i < items.len()
        invariant
            0 <= i <= items.len(),
            rows == items@.map_values(|x: BlockerInfo| context_blocker_row(x)),
            out@ == head + concat(rows.take(i as int)),
        decreases items.len() - i,
    {
        let x = &items[i];
        let ghost before = out@;
        push_context_blockers_row(out, x);
        proof {
            assert(out@ =~= before + context_blocker_row(items@[i as int]));
            lemma_concat_take(rows, i as int);
        }
        i = i + 1;
    }
    proof {
        lemma_take_all(rows);
    }
    push_str(out, "</blockers>\n\n");
    assert(out@ =~= start + counted_section("blockers"@, rows, "</blockers>\n\n"@));
}

/// Appends the comments section of a context pack.
fn push_context_comments(out: &mut String, items: &Vec<Comment>)
    ensures
        final(out)@ == old(out)@ + counted_section("comments"@, items@.map_values(|x: Comment| context_comment_row(x)), "</comments>\n\n"@),
{
    let ghost rows = items@.map_values(|x: Comment| context_comment_row(x));
    let ghost start = out@;
    if items.len() == 0 {
        assert(out@ =~= start + Seq::<char>::empty());
        return;
    }
    push_count_open(out, "comments", items.len());
    let ghost head = out@;
    let mut i: usize = 0;
    while i < items.len()
        invariant
            0 <= i <= items.len(),
            rows == items@.map_values(|x: Comment| context_comment_row(x)),
            out@ == head + concat(rows.take(i as int)),
        decreases items.len() - i,
    {
        let x = &items[i];
        let ghost before = out@;
        push_str(out, "  - [");
        push_str(out, x.kind.as_str());
        push_str(out, "] ");
        push_str(out, text_or(&x.author, "unknown"));
        push_str(out, ": ");
        push_str(out, x.content.as_str());
        push_str(out, "\n");
        proof {
            assert(out@ =~= before + context_comment_row(items@[i as int]));
            lemma_concat_take(rows, i as int);
        }
        i = i + 1;
    }
    proof {
        lemma_take_all(rows);
    }
    push_str(out, "</comments>\n\n");
    assert(out@ =~= start + counted_section("comments"@, rows, "</comments>\n\n"@));
}

/// Appends the artifacts section of a context pack.
fn push_context_artifacts(out: &mut String, items: &Vec<Artifact>)
    ensures
        final(out)@ == old(out)@ + counted_section("artifacts"@, items@.map_values(|x: Artifact| artifact_row(x)), "</artifacts>\n\n"@),
{
    let ghost rows = items@.map_values(|x: Artifact| artifact_row(x));
    let ghost start = out@;
    if items.len() == 0 {
        assert(out@ =~= start + Seq::<char>::empty());
        return;
    }
    push_count_open(out, "artifacts", items.len());
    let ghost head = out@;
    let mut i: usize = 0;
    while i < items.len()
        invariant
            0 <= i <= items.len(),
            rows == items@.map_values(|x: Artifact| artifact_row(x)),
            out@ == head + concat(rows.take(i as int)),
        decreases items.len() - i,
    {
        let x = &items[i];
        let ghost before = out@;
        push_str(out, "  - [");
        push_str(out, x.artifact_type.as_str());
        push_str(out, "] ");
        push_str(out, x.path_or_url.as_str());
        push_str(out, "\n");
        proof {
            assert(out@ =~= before + artifact_row(items@[i as int]));
            lemma_concat_take(rows, i as int);
        }
        i = i + 1;
    }
    proof {
        lemma_take_all(rows);
    }
    push_str(out, "</artifacts>\n\n");
    assert(out@ =~= start + counted_section("artifacts"@, rows, "</artifacts>\n\n"@));
}

fn push_context_steering_row(out: &mut String, x: &SteeringInfo)
    ensures
        final(out)@ == old(out)@ + steering_row(*x),
{
    let ghost before = out@;
        push_str(out, "<steering_file path=\"");
        push_str(out, x.path.as_str());
        push_str(out, "\" mode=\"");
        push_str(out, x.mode.as_str());
        push_str(out, "\">\n");
        let ghost m1 = out@;
        match &x.content {
            Some(c) => {
                push_str(out, c.as_str());
                if !ends_with_char(c.as_str(), '\n') {
                    push_str(out, "\n");
                }
            },
            None => {
                push_str(out, "(content not available - external reference)\n");
            },
        }
        assert(out@ =~= m1 + match x.content {
            Some(c) => if c@.len() > 0 && c@.last() == '\n' {
                c@
            } else {
                c@ + "\n"@
            },
            None => "(content not available - external reference)\n"@,
        });
        push_str(out, "</steering_file>\n");
    assert(out@ =~= before + steering_row(*x));
}

/// Appends the steering section of a context pack.
fn push_context_steering(out: &mut String, items: &Vec<SteeringInfo>)
    ensures
        final(out)@ == old(out)@ + counted_section("steering"@, items@.map_values(|x: SteeringInfo| steering_row(x)), "</steering>\n"@),
{
    let ghost rows = items@.map_values(|x: SteeringInfo| steering_row(x));
    let ghost start = out@;
    if items.len() == 0 {
        assert(out@ =~= start + Seq::<char>::empty());
        return;
    }
    push_count_open(out, "steering", items.len());
    let ghost head = out@;
    let mut i: usize = 0;
    while i < items.len()
        invariant
            0 <= i <= items.len(),
            rows == items@.map_values(|x: SteeringInfo| steering_row(x)),
            out@ == head + concat(rows.take(i as int)),
        decreases items.len() - i,
    {
        let x = &items[i];
        let ghost before = out@;
        push_context_steering_row(out, x);
        proof {
            assert(out@ =~= before + steering_row(items@[i as int]));
            lemma_concat_take(rows, i as int);
        }
        i = i + 1;
    }
    proof {
        lemma_take_all(rows);
    }
    push_str(out, "</steering>\n");
    assert(out@ =~= start + counted_section("steering"@, rows, "</steering>\n"@));
}

/// Formats a context pack for a language model.
pub fn format_context(context: &ContextOutput) -> (r: String)
    ensures
        r@ == context_text(*context),
{
    let mut out = owned("<context_pack>\n");
    push_context_session(&mut out, &context.session);
    push_context_projects(&mut out, &context.projects);
    push_context_tasks(&mut out, &context.tasks);
    push_context_decisions(&mut out, &context.decisions);
    push_context_blockers(&mut out, &context.blockers);
    push_context_comments(&mut out, &context.comments);
    push_context_artifacts(&mut out, &context.artifacts);
    push_context_steering(&mut out, &context.steering);
    push_str(&mut out, "</context_pack>\n");
    out
}

/// A task of a handoff.
pub open spec fn handoff_task_row(t: Task) -> Seq<char> {
    "- id: "@ + t.id@ + "\n"@ + "  title: "@ + t.title@ + "\n"@ + "  priority: "@ + t.priority@ + "\n"@
        + "  status: "@ + t.status@ + "\n"@ + match t.description {
        Some(d) => "  description: "@ + d@ + "\n"@,
        None => Seq::empty(),
    }
}

/// A comment of a handoff's context: `- [kind] author: content`.
pub open spec fn handoff_comment_row(c: Comment) -> Seq<char> {
    "- ["@ + c.kind@ + "] "@ + (match c.author {
        Some(a) => a@,
        None => "unknown"@,
    }) + ": "@ + c.content@ + "\n"@
}

/// A steering file of a handoff.
pub open spec fn handoff_steering_row(s: SteeringInfo) -> Seq<char> {
    "<steering_file path=\""@ + s.path@ + "\">\n"@ + (match s.content {
        Some(c) => if c@.len() > 0 && c@.last() == '\n' {
            c@
        } else {
            c@ + "\n"@
        },
        None => "(reference to external document)\n"@,
    }) + "</steering_file>\n"@
}

/// An optional block `<tag>\nvalue\n</tag>\n\n`.
pub open spec fn tagged_block(open: Seq<char>, value: Option<String>, close: Seq<char>) -> Seq<char> {
    match value {
        Some(v) => open + v@ + close,
        None => Seq::empty(),
    }
}

/// The output schema block of a handoff: the schema printed pretty, or `{}`
/// when it cannot be printed.
pub open spec fn schema_block(schema: Option<String>) -> Seq<char> {
    match schema {
        Some(t) => "<output_schema>\n"@ + (match pretty_json_text(t@) {
            Some(p) => p,
            None => "{}"@,
        }) + "\n</output_schema>\n\n"@,
        None => Seq::empty(),
    }
}

/// The closing instructions of a handoff.
pub open spec fn handoff_instructions() -> Seq<char> {
    "<instructions>\n"@ + "1. Complete the assigned task(s) according to the context provided.\n"@
        + "2. Follow any constraints specified.\n"@
        + "3. Follow the steering documents for coding standards and conventions.\n"@
        + "4. Ensure acceptance criteria are met.\n"@
        + "5. Report findings using the output schema if provided.\n"@
        + "6. Update task status upon completion.\n"@ + "</instructions>\n"@
}

/// The prompt text of a handoff.
pub open spec fn handoff_text(h: HandoffOutput) -> Seq<char> {
    "<handoff>\n"@ + "to: "@ + h.to@ + "\n\n"@ + "<tasks>\n"@ + concat(
        h.tasks@.map_values(|t: Task| handoff_task_row(t)),
    ) + "</tasks>\n\n"@ + (if h.context@.len() > 0 {
        "<context>\n"@ + concat(h.context@.map_values(|c: Comment| handoff_comment_row(c)))
            + "</context>\n\n"@
    } else {
        Seq::empty()
    }) + tagged_block("<constraints>\n"@, h.constraints, "\n</constraints>\n\n"@) + tagged_block(
        "<acceptance_criteria>\n"@,
        h.acceptance_criteria,
        "\n</acceptance_criteria>\n\n"@,
    ) + schema_block(h.output_schema) + (if h.steering@.len() > 0 {
        count_open("steering"@, h.steering@.len()) + "The following standards and conventions must be followed:\n\n"@
            + concat(h.steering@.map_values(|s: SteeringInfo| handoff_steering_row(s))) + "</steering>\n\n"@
    } else {
        Seq::empty()
    }) + handoff_instructions() + "</handoff>\n"@
}

fn push_handoff_task(out: &mut String, t: &Task)
    ensures
        final(out)@ == old(out)@ + handoff_task_row(*t),
{
    let ghost before = out@;
    push_str(out, "- id: ");
    push_str(out, t.id.as_str());
    push_str(out, "\n");
    push_str(out, "  title: ");
    push_str(out, t.title.as_str());
    push_str(out, "\n");
    push_str(out, "  priority: ");
    push_str(out, t.priority.as_str());
    push_str(out, "\n");
    push_str(out, "  status: ");
    push_str(out, t.status.as_str());
    push_str(out, "\n");
    let ghost mid = out@;
    match &t.description {
        Some(d) => {
            push_str(out, "  description: ");
            push_str(out, d.as_str());
            push_str(out, "\n");
        },
        None => {},
    }
    assert(out@ =~= before + handoff_task_row(*t));
}

fn push_handoff_tasks(out: &mut String, items: &Vec<Task>)
    ensures
        final(out)@ == old(out)@ + concat(items@.map_values(|t: Task| handoff_task_row(t))),
{
    let ghost rows = items@.map_values(|t: Task| handoff_task_row(t));
    let ghost head = out@;
    let mut i: usize = 0;
    while i < items.len()
        invariant
            0 <= i <= items.len(),
            rows == items@.map_values(|t: Task| handoff_task_row(t)),
            out@ == head + concat(rows.take(i as int)),
        decreases items.len() - i,
    {
        push_handoff_task(out, &items[i]);
        proof {
            lemma_concat_take(rows, i as int);
        }
        i = i + 1;
    }
    proof {
        lemma_take_all(rows);
    }
}

fn push_handoff_comment(out: &mut String, c: &Comment)
    ensures
        final(out)@ == old(out)@ + handoff_comment_row(*c),
{
    let ghost before = out@;
    push_str(out, "- [");
    push_str(out, c.kind.as_str());
    push_str(out, "] ");
    match &c.author {
        Some(a) => push_str(out, a.as_str()),
        None => push_str(out, "unknown"),
    }
    push_str(out, ": ");
    push_str(out, c.content.as_str());
    push_str(out, "\n");
    assert(out@ =~= before + handoff_comment_row(*c));
}

fn push_handoff_context(out: &mut String, items: &Vec<Comment>)
    ensures
        final(out)@ == old(out)@ + (if items@.len() > 0 {
            "<context>\n"@ + concat(items@.map_values(|c: Comment| handoff_comment_row(c)))
                + "</context>\n\n"@
        } else {
            Seq::empty()
        }),
{
    let ghost rows = items@.map_values(|c: Comment| handoff_comment_row(c));
    let ghost start = out@;
    if items.len() == 0 {
        assert(out@ =~= start + Seq::<char>::empty());
        return;
    }
    push_str(out, "<context>\n");
    let ghost head = out@;
    let mut i: usize = 0;
    while i < items.len()
        invariant
            0 <= i <= items.len(),
            rows == items@.map_values(|c: Comment| handoff_comment_row(c)),
            out@ == head + concat(rows.take(i as int)),
        decreases items.len() - i,
    {
        push_handoff_comment(out, &items[i]);
        proof {
            lemma_concat_take(rows, i as int);
        }
        i = i + 1;
    }
    proof {
        lemma_take_all(rows);
    }
    push_str(out, "</context>\n\n");
    assert(out@ =~= start + ("<context>\n"@ + concat(rows) + "</context>\n\n"@));
}

fn push_tagged_block(out: &mut String, open: &str, value: &Option<String>, close: &str)
    ensures
        final(out)@ == old(out)@ + tagged_block(open@, *value, close@),
{
    let ghost before = out@;
    match value {
        Some(v) => {
            push_str(out, open);
            push_str(out, v.as_str());
            push_str(out, close);
        },
        None => {},
    }
    assert(out@ =~= before + tagged_block(open@, *value, close@));
}

fn push_schema_block(out: &mut String, schema: &Option<String>)
    ensures
        final(out)@ == old(out)@ + schema_block(*schema),
{
    let ghost before = out@;
    match schema {
        Some(t) => {
            push_str(out, "<output_schema>\n");
            match pretty_json(t.as_str()) {
                Some(p) => push_str(out, p.as_str()),
                None => push_str(out, "{}"),
            }
            push_str(out, "\n</output_schema>\n\n");
        },
        None => {},
    }
    assert(out@ =~= before + schema_block(*schema));
}

fn push_handoff_steering_row(out: &mut String, x: &SteeringInfo)
    ensures
        final(out)@ == old(out)@ + handoff_steering_row(*x),
{
    let ghost before = out@;
    push_str(out, "<steering_file path=\"");
    push_str(out, x.path.as_str());
    push_str(out, "\">\n");
    let ghost m1 = out@;
    match &x.content {
        Some(c) => {
            push_str(out, c.as_str());
            if !ends_with_char(c.as_str(), '\n') {
                push_str(out, "\n");
            }
        },
        None => {
            push_str(out, "(reference to external document)\n");
        },
    }
    assert(out@ =~= m1 + match x.content {
        Some(c) => if c@.len() > 0 && c@.last() == '\n' {
            c@
        } else {
            c@ + "\n"@
        },
        None => "(reference to external document)\n"@,
    });
    push_str(out, "</steering_file>\n");
    assert(out@ =~= before + handoff_steering_row(*x));
}

fn push_handoff_steering(out: &mut String, items: &Vec<SteeringInfo>)
    ensures
        final(out)@ == old(out)@ + (if items@.len() > 0 {
            count_open("steering"@, items@.len()) + "The following standards and conventions must be followed:\n\n"@
                + concat(items@.map_values(|s: SteeringInfo| handoff_steering_row(s))) + "</steering>\n\n"@
        } else {
            Seq::empty()
        }),
{
    let ghost rows = items@.map_values(|s: SteeringInfo| handoff_steering_row(s));
    let ghost start = out@;
    if items.len() == 0 {
        assert(out@ =~= start + Seq::<char>::empty());
        return;
    }
    push_count_open(out, "steering", items.len());
    push_str(out, "The following standards and conventions must be followed:\n\n");
    let ghost head = out@;
    let mut i: usize = 0;
    while i < items.len()
        invariant
            0 <= i <= items.len(),
            rows == items@.map_values(|s: SteeringInfo| handoff_steering_row(s)),
            out@ == head + concat(rows.take(i as int)),
        decreases items.len() - i,
    {
        push_handoff_steering_row(out, &items[i]);
        proof {
            lemma_concat_take(rows, i as int);
        }
        i = i + 1;
    }
    proof {
        lemma_take_all(rows);
    }
    push_str(out, "</steering>\n\n");
    assert(out@ =~= start + (count_open("steering"@, items@.len())
        + "The following standards and conventions must be followed:\n\n"@ + concat(rows) + "</steering>\n\n"@));
}

fn push_handoff_instructions(out: &mut String)
    ensures
        final(out)@ == old(out)@ + handoff_instructions(),
{
    let ghost before = out@;
    push_str(out, "<instructions>\n");
    push_str(out, "1. Complete the assigned task(s) according to the context provided.\n");
    push_str(out, "2. Follow any constraints specified.\n");
    push_str(out, "3. Follow the steering documents for coding standards and conventions.\n");
    push_str(out, "4. Ensure acceptance criteria are met.\n");
    push_str(out, "5. Report findings using the output schema if provided.\n");
    push_str(out, "6. Update task status upon completion.\n");
    push_str(out, "</instructions>\n");
    assert(out@ =~= before + handoff_instructions());
}

/// Formats a handoff for the agent it is addressed to: the tasks, the
/// context comments, the constraints, acceptance criteria and output schema
/// where given, the steering files, and the instructions.
pub fn format_handoff(handoff: &HandoffOutput) -> (r: String)
    ensures
        r@ == handoff_text(*handoff),
{
    let mut out = owned("<handoff>\n");
    push_str(&mut out, "to: ");
    push_str(&mut out, handoff.to.as_str());
    push_str(&mut out, "\n\n");
    push_str(&mut out, "<tasks>\n");
    push_handoff_tasks(&mut out, &handoff.tasks);
    push_str(&mut out, "</tasks>\n\n");
    push_handoff_context(&mut out, &handoff.context);
    push_tagged_block(&mut out, "<constraints>\n", &handoff.constraints, "\n</constraints>\n\n");
    push_tagged_block(
        &mut out,
        "<acceptance_criteria>\n",
        &handoff.acceptance_criteria,
        "\n</acceptance_criteria>\n\n",
    );
    push_schema_block(&mut out, &handoff.output_schema);
    push_handoff_steering(&mut out, &handoff.steering);
    push_handoff_instructions(&mut out);
    push_str(&mut out, "</handoff>\n");
    out
}

/// `- [type] project: description`
pub open spec fn initiative_blocker_line(b: InitiativeBlockerInfo) -> Seq<char> {
    "- ["@ + b.blocker_type@ + "] "@ + b.project_name@ + ": "@ + b.description@
}

/// `- [priority] project > task`
pub open spec fn initiative_action_line(a: NextAction) -> Seq<char> {
    "- ["@ + a.priority@ + "] "@ + a.project_name@ + " > "@ + a.task_title@
}

/// The lines of an initiative summary, with the completion percentage given
/// as text (rounded to a whole number).
pub open spec fn initiative_summary_lines(s: InitiativeSummary, percent: Seq<char>) -> Seq<Seq<char>> {
    seq![
        "# Initiative: "@ + s.initiative.name@,
        "Progress: "@ + percent + "% ("@ + dec(s.status.tasks_done as nat) + "/"@ + dec(
            s.status.total_tasks as nat,
        ) + " tasks)"@,
        "Projects: "@ + dec(s.status.total_projects as nat) + " total, "@ + dec(
            s.status.completed_projects as nat,
        ) + " complete, "@ + dec(s.status.blocked_projects as nat) + " blocked"@,
    ] + (if s.blockers@.len() > 0 {
        seq![Seq::empty(), "## Blockers"@] + s.blockers@.map_values(
            |b: InitiativeBlockerInfo| initiative_blocker_line(b),
        )
    } else {
        Seq::empty()
    }) + (if s.next_actions@.len() > 0 {
        seq![Seq::empty(), "## Next Actions"@] + s.next_actions@.map_values(
            |a: NextAction| initiative_action_line(a),
        )
    } else {
        Seq::empty()
    })
}

/// Formats an initiative summary for a language model, compactly; `percent`
/// is the completion percentage rounded to a whole number.
pub fn format_initiative_summary(summary: &InitiativeSummary, percent: &str) -> (r: String)
    ensures
        r@ == join(initiative_summary_lines(*summary, percent@), "\n"@),
{
    let mut lines: Vec<String> = Vec::new();
    let mut l1 = owned("# Initiative: ");
    push_str(&mut l1, summary.initiative.name.as_str());
    lines.push(l1);
    let mut l2 = owned("Progress: ");
    push_str(&mut l2, percent);
    push_str(&mut l2, "% (");
    push_nat(&mut l2, summary.status.tasks_done as u64);
    push_str(&mut l2, "/");
    push_nat(&mut l2, summary.status.total_tasks as u64);
    push_str(&mut l2, " tasks)");
    lines.push(l2);
    let mut l3 = owned("Projects: ");
    push_nat(&mut l3, summary.status.total_projects as u64);
    push_str(&mut l3, " total, ");
    push_nat(&mut l3, summary.status.completed_projects as u64);
    push_str(&mut l3, " complete, ");
    push_nat(&mut l3, summary.status.blocked_projects as u64);
    push_str(&mut l3, " blocked");
    lines.push(l3);
    let ghost head = views(lines@);
    assert(head =~= initiative_summary_lines(*summary, percent@).take(3));
    let ghost brows = summary.blockers@.map_values(|b: InitiativeBlockerInfo| initiative_blocker_line(b));
    if summary.blockers.len() > 0 {
        lines.push(String::new());
        lines.push(owned("## Blockers"));
        let ghost h2 = views(lines@);
        let mut i: usize = 0;
        while i < summary.blockers.len()
            invariant
                0 <= i <= summary.blockers.len(),
                brows == summary.blockers@.map_values(|b: InitiativeBlockerInfo| initiative_blocker_line(b)),
                views(lines@) == h2 + brows.take(i as int),
            decreases summary.blockers.len() - i,
        {
            let b = &summary.blockers[i];
            let mut l = owned("- [");
            push_str(&mut l, b.blocker_type.as_str());
            push_str(&mut l, "] ");
            push_str(&mut l, b.project_name.as_str());
            push_str(&mut l, ": ");
            push_str(&mut l, b.description.as_str());
            let ghost before = views(lines@);
            lines.push(l);
            proof {
                assert(l@ =~= brows[i as int]);
                assert(views(lines@) =~= before.push(l@));
                assert(brows.take(i as int + 1) =~= brows.take(i as int).push(brows[i as int]));
            }
            i = i + 1;
        }
        proof {
            lemma_take_all(brows);
            assert(views(lines@) =~= head + (seq![Seq::<char>::empty(), "## Blockers"@] + brows));
        }
    } else {
        assert(views(lines@) =~= head + Seq::<Seq<char>>::empty());
    }
    let ghost mid = views(lines@);
    let ghost arows = summary.next_actions@.map_values(|a: NextAction| initiative_action_line(a));
    if summary.next_actions.len() > 0 {
        lines.push(String::new());
        lines.push(owned("## Next Actions"));
        let ghost h3 = views(lines@);
        let mut i: usize = 0;
        while i < summary.next_actions.len()
            invariant
                0 <= i <= summary.next_actions.len(),
                arows == summary.next_actions@.map_values(|a: NextAction| initiative_action_line(a)),
                views(lines@) == h3 + arows.take(i as int),
            decreases summary.next_actions.len() - i,
        {
            let a = &summary.next_actions[i];
            let mut l = owned("- [");
            push_str(&mut l, a.priority.as_str());
            push_str(&mut l, "] ");
            push_str(&mut l, a.project_name.as_str());
            push_str(&mut l, " > ");
            push_str(&mut l, a.task_title.as_str());
            let ghost before = views(lines@);
            lines.push(l);
            proof {
                assert(l@ =~= arows[i as int]);
                assert(views(lines@) =~= before.push(l@));
                assert(arows.take(i as int + 1) =~= arows.take(i as int).push(arows[i as int]));
            }
            i = i + 1;
        }
        proof {
            lemma_take_all(arows);
            assert(views(lines@) =~= mid + (seq![Seq::<char>::empty(), "## Next Actions"@] + arows));
        }
    } else {
        assert(views(lines@) =~= mid + Seq::<Seq<char>>::empty());
    }
    assert(views(lines@) =~= initiative_summary_lines(*summary, percent@));
    joined(lines.as_slice(), "\n")
}

} // verus!
