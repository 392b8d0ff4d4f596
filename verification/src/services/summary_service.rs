//! Work summaries, context packs and handoffs: which tasks, comments and
//! artifacts go into each, counted, filtered, merged and cut to size.
//!
//! The store is read by the caller; these functions decide what is kept.
use vstd::prelude::*;
use crate::models::artifact::Artifact;
use crate::models::project::Project;
use crate::models::session::Session;
use crate::models::task::{Comment, Task};
use crate::output::json::{
    BlockerInfo, ContextOutput, HandoffOutput, PriorityCounts, SessionSummary, StateSummary, StatusCounts,
    SteeringInfo, SummaryOutput,
};
use crate::text::{
    lemma_text_lt_asymmetric, lemma_text_lt_transitive, owned, text_before, text_eq, text_lt,
};

verus! {

/// How many of `tasks` have the status `status`.
pub open spec fn status_count(tasks: Seq<Task>, status: Seq<char>) -> nat
    decreases tasks.len(),
{
    if tasks.len() == 0 {
        0
    } else {
        status_count(tasks.drop_last(), status) + if tasks.last().status@ == status { 1nat } else { 0nat }
    }
}

/// How many of `tasks` have the priority `priority`.
pub open spec fn priority_count(tasks: Seq<Task>, priority: Seq<char>) -> nat
    decreases tasks.len(),
{
    if tasks.len() == 0 {
        0
    } else {
        priority_count(tasks.drop_last(), priority) + if tasks.last().priority@ == priority { 1nat } else { 0nat }
    }
}

/// A task that is blocked: it has a blocked reason, or the status `blocked`.
pub open spec fn is_blocker(t: Task) -> bool {
    t.blocked_reason is Some || t.status@ == "blocked"@
}

/// A task that can be worked on next: `todo` or `in_progress`, with no
/// blocked reason.
pub open spec fn is_actionable(t: Task) -> bool {
    (t.status@ == "todo"@ || t.status@ == "in_progress"@) && t.blocked_reason is None
}

/// The first `n` items of `s`, or all of them when there are fewer.
pub open spec fn first_n<A>(s: Seq<A>, n: nat) -> Seq<A> {
    if n < s.len() { s.take(n as int) } else { s }
}

/// How many next actions a summary lists: a hundredth of the token budget,
/// five without one, and never fewer than three.
pub open spec fn action_limit(token_budget: Option<usize>) -> nat {
    let base: nat = match token_budget {
        Some(b) => (b / 100) as nat,
        None => 5,
    };
    if base < 3 { 3 } else { base }
}

proof fn lemma_take_next<A>(s: Seq<A>, i: int)
    requires
        0 <= i < s.len(),
    ensures
        s.take(i + 1).drop_last() == s.take(i),
        s.take(i + 1).last() == s[i],
{
    assert(s.take(i + 1).drop_last() =~= s.take(i));
}

/// The number of tasks with the status `status`.
pub(crate) fn count_status(tasks: &Vec<Task>, status: &str) -> (r: usize)
    ensures
        r == status_count(tasks@, status@),
{
    let mut n: usize = 0;
    let mut i: usize = 0;
    while i < tasks.len()
        invariant
            i <= tasks.len(),
            n <= i,
            n == status_count(tasks@.take(i as int), status@),
        decreases tasks.len() - i,
    {
        proof { lemma_take_next(tasks@, i as int); }
        if text_eq(tasks[i].status.as_str(), status) {
            n = n + 1;
        }
        i = i + 1;
    }
    assert(tasks@.take(i as int) =~= tasks@);
    n
}

/// The number of tasks with the priority `priority`.
fn count_priority(tasks: &Vec<Task>, priority: &str) -> (r: usize)
    ensures
        r == priority_count(tasks@, priority@),
{
    let mut n: usize = 0;
    let mut i: usize = 0;
    while i < tasks.len()
        invariant
            i <= tasks.len(),
            n <= i,
            n == priority_count(tasks@.take(i as int), priority@),
        decreases tasks.len() - i,
    {
        proof { lemma_take_next(tasks@, i as int); }
        if text_eq(tasks[i].priority.as_str(), priority) {
            n = n + 1;
        }
        i = i + 1;
    }
    assert(tasks@.take(i as int) =~= tasks@);
    n
}

/// The counts of a summary: all tasks, by status (`todo`, `in_progress`,
/// `done`, `blocked`) and by priority (`P0` to `P4`). Other statuses and
/// priorities count only in the total.
pub fn state_summary(tasks: &Vec<Task>) -> (r: StateSummary)
    ensures
        r.total_tasks == tasks.len(),
        r.by_status.todo == status_count(tasks@, "todo"@),
        r.by_status.in_progress == status_count(tasks@, "in_progress"@),
        r.by_status.done == status_count(tasks@, "done"@),
        r.by_status.blocked == status_count(tasks@, "blocked"@),
        r.by_priority.p0 == priority_count(tasks@, "P0"@),
        r.by_priority.p1 == priority_count(tasks@, "P1"@),
        r.by_priority.p2 == priority_count(tasks@, "P2"@),
        r.by_priority.p3 == priority_count(tasks@, "P3"@),
        r.by_priority.p4 == priority_count(tasks@, "P4"@),
{
    let by_status = StatusCounts {
        todo: count_status(tasks, "todo"),
        in_progress: count_status(tasks, "in_progress"),
        done: count_status(tasks, "done"),
        blocked: count_status(tasks, "blocked"),
    };
    let by_priority = PriorityCounts {
        p0: count_priority(tasks, "P0"),
        p1: count_priority(tasks, "P1"),
        p2: count_priority(tasks, "P2"),
        p3: count_priority(tasks, "P3"),
        p4: count_priority(tasks, "P4"),
    };
    StateSummary { total_tasks: tasks.len(), by_status, by_priority }
}

/// Whether a task is blocked (see [`is_blocker`]).
pub fn task_is_blocker(t: &Task) -> (r: bool)
    ensures
        r == is_blocker(*t),
{
    t.blocked_reason.is_some() || text_eq(t.status.as_str(), "blocked")
}

/// Whether a task can be worked on next (see [`is_actionable`]).
pub fn task_is_actionable(t: &Task) -> (r: bool)
    ensures
        r == is_actionable(*t),
{
    (text_eq(t.status.as_str(), "todo") || text_eq(t.status.as_str(), "in_progress"))
        && t.blocked_reason.is_none()
}

/// The blocked tasks, in their order.
pub fn blocked_tasks(tasks: &Vec<Task>) -> (r: Vec<Task>)
    ensures
        r@ == tasks@.filter(|t: Task| is_blocker(t)),
{
    let ghost p = |t: Task| is_blocker(t);
    let mut out: Vec<Task> = Vec::new();
    let mut i: usize = 0;
    while i < tasks.len()
        invariant
            i <= tasks.len(),
            p == (|t: Task| is_blocker(t)),
            out@ == tasks@.take(i as int).filter(p),
        decreases tasks.len() - i,
    {
        proof {
            lemma_take_next(tasks@, i as int);
            reveal_with_fuel(Seq::filter, 1);
        }
        if task_is_blocker(&tasks[i]) {
            out.push(tasks[i].clone());
        }
        i = i + 1;
    }
    assert(tasks@.take(i as int) =~= tasks@);
    out
}

/// The first `limit` tasks that can be worked on next, in their order.
pub fn next_actions(tasks: &Vec<Task>, limit: usize) -> (r: Vec<Task>)
    ensures
        r@ == first_n(tasks@.filter(|t: Task| is_actionable(t)), limit as nat),
{
    let ghost p = |t: Task| is_actionable(t);
    let mut out: Vec<Task> = Vec::new();
    let mut i: usize = 0;
    while i < tasks.len()
        invariant
            i <= tasks.len(),
            p == (|t: Task| is_actionable(t)),
            out@ == first_n(tasks@.take(i as int).filter(p), limit as nat),
        decreases tasks.len() - i,
    {
        proof {
            lemma_take_next(tasks@, i as int);
            reveal_with_fuel(Seq::filter, 1);
        }
        let ghost before = tasks@.take(i as int).filter(p);
        if task_is_actionable(&tasks[i]) {
            if out.len() < limit {
                out.push(tasks[i].clone());
            } else {
                assert(before.push(tasks@[i as int]).take(limit as int) =~= before.take(limit as int));
            }
        }
        i = i + 1;
    }
    assert(tasks@.take(i as int) =~= tasks@);
    out
}

/// How many next actions a summary lists (see [`action_limit`]).
pub fn next_action_limit(token_budget: Option<usize>) -> (r: usize)
    ensures
        r == action_limit(token_budget),
{
    let base: usize = match token_budget {
        Some(b) => b / 100,
        None => 5,
    };
    if base < 3 { 3 } else { base }
}

/// The session part of a summary or context pack.
pub fn session_summary(session: Option<Session>) -> (r: Option<SessionSummary>)
    ensures
        r is Some <==> session is Some,
        r matches Some(x) ==> ({
            let s = session->0;
            &&& x.id == s.id
            &&& x.name == s.name
            &&& x.mode == s.mode
            &&& x.owner == s.owner
            &&& x.focus_task_id == s.focus_task_id
        }),
{
    match session {
        Some(s) => Some(SessionSummary {
            id: s.id,
            name: s.name,
            mode: s.mode,
            owner: s.owner,
            focus_task_id: s.focus_task_id,
        }),
        None => None,
    }
}

/// The ids of the tasks whose artifacts a summary shows: the first ten.
pub fn artifact_source_ids(tasks: &Vec<Task>) -> (r: Vec<String>)
    ensures
        r@.len() == first_n(tasks@, 10).len(),
        forall|i: int| 0 <= i < r@.len() ==> #[trigger] r@[i] == tasks@[i].id,
{
    let mut out: Vec<String> = Vec::new();
    let mut i: usize = 0;
    while i < tasks.len() && i < 10
        invariant
            i <= tasks.len(),
            i <= 10,
            out@.len() == i,
            forall|k: int| 0 <= k < i ==> #[trigger] out@[k] == tasks@[k].id,
        decreases tasks.len() - i,
    {
        out.push(tasks[i].id.clone());
        i = i + 1;
    }
    out
}

/// A work summary from what was read: the current session, the tasks in its
/// scope (or all tasks), its focus task, the token budget, the decision
/// comments, and the artifacts of the first ten tasks.
///
/// It counts the tasks, lists the blocked ones, lists the first
/// [`action_limit`] actionable ones, and keeps the first five decisions and
/// the first five artifacts.
pub fn summarize(
    session: Option<Session>,
    tasks: Vec<Task>,
    focus_task: Option<Task>,
    token_budget: Option<usize>,
    decisions: Vec<Comment>,
    artifacts: Vec<Artifact>,
) -> (r: SummaryOutput)
    ensures
        r.session is Some <==> session is Some,
        r.session matches Some(x) ==> x.id == session->0.id && x.name == session->0.name
            && x.mode == session->0.mode && x.owner == session->0.owner
            && x.focus_task_id == session->0.focus_task_id,
        r.state.total_tasks == tasks.len(),
        r.state.by_status.todo == status_count(tasks@, "todo"@),
        r.state.by_status.in_progress == status_count(tasks@, "in_progress"@),
        r.state.by_status.done == status_count(tasks@, "done"@),
        r.state.by_status.blocked == status_count(tasks@, "blocked"@),
        r.state.by_priority.p0 == priority_count(tasks@, "P0"@),
        r.state.by_priority.p1 == priority_count(tasks@, "P1"@),
        r.state.by_priority.p2 == priority_count(tasks@, "P2"@),
        r.state.by_priority.p3 == priority_count(tasks@, "P3"@),
        r.state.by_priority.p4 == priority_count(tasks@, "P4"@),
        r.focus_task == focus_task,
        r.blockers@ == tasks@.filter(|t: Task| is_blocker(t)),
        r.next_actions@ == first_n(tasks@.filter(|t: Task| is_actionable(t)), action_limit(token_budget)),
        r.recent_decisions@ == first_n(decisions@, 5),
        r.recent_artifacts@ == first_n(artifacts@, 5),
{
    let state = state_summary(&tasks);
    let blockers = blocked_tasks(&tasks);
    let limit = next_action_limit(token_budget);
    let next = next_actions(&tasks, limit);
    let mut recent_decisions = decisions;
    recent_decisions.truncate(5);
    let mut recent_artifacts = artifacts;
    recent_artifacts.truncate(5);
    SummaryOutput {
        session: session_summary(session),
        state,
        focus_task,
        blockers,
        next_actions: next,
        recent_decisions,
        recent_artifacts,
    }
}

/// Whether a context pack wants the section `name`: every section when no
/// list is given, else the sections the list names.
pub open spec fn section_wanted(wanted: Option<Vec<String>>, name: Seq<char>) -> bool {
    match wanted {
        None => true,
        Some(v) => exists|k: int| 0 <= k < v@.len() && #[trigger] v@[k]@ == name,
    }
}

/// The sections a context pack holds.
#[derive(Debug, Clone, Copy)]
pub struct ContextSections {
    pub projects: bool,
    pub tasks: bool,
    pub comments: bool,
    pub decisions: bool,
    pub blockers: bool,
    pub artifacts: bool,
}

fn names_item(v: &Vec<String>, name: &str) -> (r: bool)
    ensures
        r == exists|k: int| 0 <= k < v@.len() && #[trigger] v@[k]@ == name@,
{
    let mut i: usize = 0;
    while i < v.len()
        invariant
            i <= v.len(),
            forall|k: int| 0 <= k < i ==> #[trigger] v@[k]@ != name@,
        decreases v.len() - i,
    {
        if text_eq(v[i].as_str(), name) {
            assert(v@[i as int]@ == name@);
            return true;
        }
        i = i + 1;
    }
    false
}

fn wants(wanted: &Option<Vec<String>>, name: &str) -> (r: bool)
    ensures
        r == section_wanted(*wanted, name@),
{
    match wanted {
        None => true,
        Some(v) => names_item(v, name),
    }
}

/// The sections named by `wanted` (see [`section_wanted`]).
pub fn context_sections(wanted: &Option<Vec<String>>) -> (r: ContextSections)
    ensures
        r.projects == section_wanted(*wanted, "projects"@),
        r.tasks == section_wanted(*wanted, "tasks"@),
        r.comments == section_wanted(*wanted, "comments"@),
        r.decisions == section_wanted(*wanted, "decisions"@),
        r.blockers == section_wanted(*wanted, "blockers"@),
        r.artifacts == section_wanted(*wanted, "artifacts"@),
{
    ContextSections {
        projects: wants(wanted, "projects"),
        tasks: wants(wanted, "tasks"),
        comments: wants(wanted, "comments"),
        decisions: wants(wanted, "decisions"),
        blockers: wants(wanted, "blockers"),
        artifacts: wants(wanted, "artifacts"),
    }
}

/// How many items each section of a context pack holds at most: fifty
/// unless given.
pub fn context_max(max_items: Option<usize>) -> (r: usize)
    ensures
        r == (match max_items {
            Some(m) => m as nat,
            None => 50,
        }),
{
    match max_items {
        Some(m) => m,
        None => 50,
    }
}

/// Whether some task of `s` has the id `id`.
pub open spec fn has_id(s: Seq<Task>, id: Seq<char>) -> bool {
    exists|k: int| 0 <= k < s.len() && #[trigger] s[k].id@ == id
}

/// `acc` followed by the tasks of `ts` whose id is not there yet, in order.
pub open spec fn add_new(acc: Seq<Task>, ts: Seq<Task>) -> Seq<Task>
    decreases ts.len(),
{
    if ts.len() == 0 {
        acc
    } else {
        let a = add_new(acc, ts.drop_last());
        if has_id(a, ts.last().id@) { a } else { a.push(ts.last()) }
    }
}

fn holds_id(s: &Vec<Task>, id: &str) -> (r: bool)
    ensures
        r == has_id(s@, id@),
{
    let mut i: usize = 0;
    while i < s.len()
        invariant
            i <= s.len(),
            forall|k: int| 0 <= k < i ==> #[trigger] s@[k].id@ != id@,
        decreases s.len() - i,
    {
        if text_eq(s[i].id.as_str(), id) {
            assert(s@[i as int].id@ == id@);
            return true;
        }
        i = i + 1;
    }
    false
}

/// The tasks of a context pack: the pinned tasks, then the tasks of the
/// pinned projects not already there, cut to `max`.
pub fn merge_context_tasks(pinned: Vec<Task>, project_tasks: &Vec<Task>, max: usize) -> (r: Vec<Task>)
    ensures
        r@ == first_n(add_new(pinned@, project_tasks@), max as nat),
{
    let mut out = pinned;
    let ghost start = out@;
    let mut i: usize = 0;
    while i < project_tasks.len()
        invariant
            i <= project_tasks.len(),
            out@ == add_new(start, project_tasks@.take(i as int)),
        decreases project_tasks.len() - i,
    {
        proof { lemma_take_next(project_tasks@, i as int); }
        if !holds_id(&out, project_tasks[i].id.as_str()) {
            out.push(project_tasks[i].clone());
        }
        i = i + 1;
    }
    assert(project_tasks@.take(i as int) =~= project_tasks@);
    out.truncate(max);
    out
}

/// What a context pack says of a blocked task.
pub open spec fn blocker_info(t: Task, unmet_deps: Vec<String>) -> BlockerInfo {
    BlockerInfo { task_id: t.id, task_title: t.title, reason: t.blocked_reason, unmet_deps }
}

/// The blocker entries for the first `n` tasks: one for each blocked task,
/// with the ids of its unmet dependencies.
pub open spec fn blocker_infos(tasks: Seq<Task>, unmet: Seq<Vec<String>>, n: nat) -> Seq<BlockerInfo>
    decreases n,
{
    if n == 0 {
        Seq::empty()
    } else {
        let pre = blocker_infos(tasks, unmet, (n - 1) as nat);
        let t = tasks[n - 1];
        if is_blocker(t) { pre.push(blocker_info(t, unmet[n - 1])) } else { pre }
    }
}

/// The blockers of a context pack: for each blocked task, in order, its id,
/// title and reason, with `unmet[i]` the unmet dependencies of `tasks[i]`;
/// cut to `max`.
pub fn context_blockers(tasks: &Vec<Task>, unmet: Vec<Vec<String>>, max: usize) -> (r: Vec<BlockerInfo>)
    requires
        unmet.len() == tasks.len(),
    ensures
        r@ == first_n(blocker_infos(tasks@, unmet@, tasks.len() as nat), max as nat),
{
    let ghost all = unmet@;
    let mut rest = unmet;
    let mut out: Vec<BlockerInfo> = Vec::new();
    let mut i: usize = 0;
    while i < tasks.len()
        invariant
            i <= tasks.len(),
            all.len() == tasks.len(),
            rest@ == all.skip(i as int),
            out@ == blocker_infos(tasks@, all, i as nat),
        decreases tasks.len() - i,
    {
        let deps = rest.remove(0);
        assert(deps == all[i as int]);
        assert(rest@ =~= all.skip(i as int + 1));
        let t = &tasks[i];
        if task_is_blocker(t) {
            let info = BlockerInfo {
                task_id: t.id.clone(),
                task_title: t.title.clone(),
                reason: crate::text::copy_opt(&t.blocked_reason),
                unmet_deps: deps,
            };
            out.push(info);
        }
        i = i + 1;
    }
    out.truncate(max);
    out
}

/// Keeps a section when it is wanted, cut to `max`; else nothing.
pub open spec fn section<A>(wanted: bool, items: Seq<A>, max: nat) -> Seq<A> {
    if wanted { first_n(items, max) } else { Seq::empty() }
}

fn keep_projects(wanted: bool, items: Vec<Project>, max: usize) -> (r: Vec<Project>)
    ensures
        r@ == section(wanted, items@, max as nat),
{
    let mut v = items;
    if wanted { v.truncate(max); v } else { Vec::new() }
}

fn keep_tasks(wanted: bool, items: Vec<Task>, max: usize) -> (r: Vec<Task>)
    ensures
        r@ == section(wanted, items@, max as nat),
{
    let mut v = items;
    if wanted { v.truncate(max); v } else { Vec::new() }
}

fn keep_comments(wanted: bool, items: Vec<Comment>, max: usize) -> (r: Vec<Comment>)
    ensures
        r@ == section(wanted, items@, max as nat),
{
    let mut v = items;
    if wanted { v.truncate(max); v } else { Vec::new() }
}

fn keep_artifacts(wanted: bool, items: Vec<Artifact>, max: usize) -> (r: Vec<Artifact>)
    ensures
        r@ == section(wanted, items@, max as nat),
{
    let mut v = items;
    if wanted { v.truncate(max); v } else { Vec::new() }
}

fn keep_blockers(wanted: bool, items: Vec<BlockerInfo>, max: usize) -> (r: Vec<BlockerInfo>)
    ensures
        r@ == section(wanted, items@, max as nat),
{
    let mut v = items;
    if wanted { v.truncate(max); v } else { Vec::new() }
}

/// A context pack from what was read for it: each section is kept when
/// `sections` wants it, cut to `max` items, and left empty otherwise. The
/// steering files are passed through.
pub fn assemble_context(
    session: Option<Session>,
    sections: ContextSections,
    projects: Vec<Project>,
    tasks: Vec<Task>,
    comments: Vec<Comment>,
    decisions: Vec<Comment>,
    blockers: Vec<BlockerInfo>,
    artifacts: Vec<Artifact>,
    steering: Vec<SteeringInfo>,
    max: usize,
) -> (r: ContextOutput)
    ensures
        r.session is Some <==> session is Some,
        r.session matches Some(x) ==> x.id == session->0.id && x.name == session->0.name
            && x.mode == session->0.mode && x.owner == session->0.owner
            && x.focus_task_id == session->0.focus_task_id,
        r.projects@ == section(sections.projects, projects@, max as nat),
        r.tasks@ == section(sections.tasks, tasks@, max as nat),
        r.comments@ == section(sections.comments, comments@, max as nat),
        r.decisions@ == section(sections.decisions, decisions@, max as nat),
        r.blockers@ == section(sections.blockers, blockers@, max as nat),
        r.artifacts@ == section(sections.artifacts, artifacts@, max as nat),
        r.steering == steering,
{
    ContextOutput {
        session: session_summary(session),
        projects: keep_projects(sections.projects, projects, max),
        tasks: keep_tasks(sections.tasks, tasks, max),
        comments: keep_comments(sections.comments, comments, max),
        artifacts: keep_artifacts(sections.artifacts, artifacts, max),
        decisions: keep_comments(sections.decisions, decisions, max),
        blockers: keep_blockers(sections.blockers, blockers, max),
        steering,
    }
}

/// `c` placed into `s` (newest first) after every comment not older than it.
pub open spec fn insert_newest(s: Seq<Comment>, c: Comment) -> Seq<Comment>
    decreases s.len(),
{
    if s.len() == 0 {
        seq![c]
    } else if text_lt(s[0].created_at@, c.created_at@) {
        seq![c] + s
    } else {
        seq![s[0]] + insert_newest(s.drop_first(), c)
    }
}

/// The comments newest first by creation time, comments created at the same
/// time keeping their order.
pub open spec fn newest_first(s: Seq<Comment>) -> Seq<Comment>
    decreases s.len(),
{
    if s.len() == 0 {
        s
    } else {
        insert_newest(newest_first(s.drop_last()), s.last())
    }
}

proof fn lemma_insert_at(s: Seq<Comment>, c: Comment, j: int)
    requires
        0 <= j <= s.len(),
        forall|k: int| 0 <= k < j ==> !text_lt(#[trigger] s[k].created_at@, c.created_at@),
        j == s.len() || text_lt(s[j].created_at@, c.created_at@),
    ensures
        insert_newest(s, c) == s.insert(j, c),
    decreases j,
{
    if j == 0 {
        if s.len() == 0 {
            assert(s.insert(0, c) =~= seq![c]);
        } else {
            assert(s.insert(0, c) =~= seq![c] + s);
        }
    } else {
        assert(!text_lt(s[0].created_at@, c.created_at@));
        let t = s.drop_first();
        assert forall|k: int| 0 <= k < j - 1 implies !text_lt(#[trigger] t[k].created_at@, c.created_at@) by {
            assert(t[k] == s[k + 1]);
        }
        lemma_insert_at(t, c, j - 1);
        assert(seq![s[0]] + t.insert(j - 1, c) =~= s.insert(j, c));
    }
}

/// Where a comment goes in a newest-first list.
fn insert_position(s: &Vec<Comment>, c: &Comment) -> (j: usize)
    ensures
        j <= s.len(),
        insert_newest(s@, *c) == s@.insert(j as int, *c),
{
    let mut j: usize = 0;
    while j < s.len() && !text_before(s[j].created_at.as_str(), c.created_at.as_str())
        invariant
            j <= s.len(),
            forall|k: int| 0 <= k < j ==> !text_lt(#[trigger] s@[k].created_at@, c.created_at@),
        decreases s.len() - j,
    {
        j = j + 1;
    }
    proof { lemma_insert_at(s@, *c, j as int); }
    j
}

/// The comments newest first (see [`newest_first`]).
pub fn sort_newest_first(comments: Vec<Comment>) -> (r: Vec<Comment>)
    ensures
        r@ == newest_first(comments@),
{
    let ghost all = comments@;
    let mut rest = comments;
    let total: usize = rest.len();
    let mut out: Vec<Comment> = Vec::new();
    let mut i: usize = 0;
    while rest.len() > 0
        invariant
            i + rest.len() == all.len(),
            all.len() == total,
            rest@ == all.skip(i as int),
            out@ == newest_first(all.take(i as int)),
        decreases rest.len(),
    {
        let c = rest.remove(0);
        assert(c == all[i as int]);
        assert(rest@ =~= all.skip(i as int + 1));
        proof { lemma_take_next(all, i as int); }
        let j = insert_position(&out, &c);
        out.insert(j, c);
        i = i + 1;
    }
    assert(all.take(i as int) =~= all);
    out
}

/// Comments newest first: none is older than a comment after it.
pub open spec fn is_newest_first(s: Seq<Comment>) -> bool {
    forall|i: int, j: int|
        0 <= i < j < s.len() ==> !text_lt(#[trigger] s[i].created_at@, #[trigger] s[j].created_at@)
}

/// `x` is not older than any comment of `s`.
pub open spec fn not_older_than_all(x: Comment, s: Seq<Comment>) -> bool {
    forall|k: int| 0 <= k < s.len() ==> !text_lt(x.created_at@, #[trigger] s[k].created_at@)
}

proof fn lemma_insert_keeps_bound(x: Comment, s: Seq<Comment>, c: Comment)
    requires
        not_older_than_all(x, s),
        !text_lt(x.created_at@, c.created_at@),
    ensures
        not_older_than_all(x, insert_newest(s, c)),
    decreases s.len(),
{
    if s.len() > 0 && !text_lt(s[0].created_at@, c.created_at@) {
        let t = s.drop_first();
        assert(not_older_than_all(x, t)) by {
            assert forall|k: int| 0 <= k < t.len() implies !text_lt(x.created_at@, #[trigger] t[k].created_at@) by {
                assert(t[k] == s[k + 1]);
            }
        }
        lemma_insert_keeps_bound(x, t, c);
        let r = insert_newest(s, c);
        assert forall|k: int| 0 <= k < r.len() implies !text_lt(x.created_at@, #[trigger] r[k].created_at@) by {
            if k > 0 {
                assert(r[k] == insert_newest(t, c)[k - 1]);
            }
        }
    }
}

proof fn lemma_insert_newest_sorted(s: Seq<Comment>, c: Comment)
    requires
        is_newest_first(s),
    ensures
        is_newest_first(insert_newest(s, c)),
    decreases s.len(),
{
    if s.len() == 0 {
    } else if text_lt(s[0].created_at@, c.created_at@) {
        let r = insert_newest(s, c);
        assert forall|i: int, j: int| 0 <= i < j < r.len() implies !text_lt(
            #[trigger] r[i].created_at@,
            #[trigger] r[j].created_at@,
        ) by {
            if i == 0 {
                assert(r[j] == s[j - 1]);
                if text_lt(c.created_at@, s[j - 1].created_at@) {
                    if j - 1 == 0 {
                        lemma_text_lt_asymmetric(c.created_at@, s[0].created_at@);
                    } else {
                        lemma_text_lt_transitive(s[0].created_at@, c.created_at@, s[j - 1].created_at@);
                    }
                }
            } else {
                assert(r[i] == s[i - 1] && r[j] == s[j - 1]);
            }
        }
    } else {
        let t = s.drop_first();
        assert(is_newest_first(t)) by {
            assert forall|i: int, j: int| 0 <= i < j < t.len() implies !text_lt(
                #[trigger] t[i].created_at@,
                #[trigger] t[j].created_at@,
            ) by {
                assert(t[i] == s[i + 1] && t[j] == s[j + 1]);
            }
        }
        lemma_insert_newest_sorted(t, c);
        assert(not_older_than_all(s[0], t)) by {
            assert forall|k: int| 0 <= k < t.len() implies !text_lt(s[0].created_at@, #[trigger] t[k].created_at@) by {
                assert(t[k] == s[k + 1]);
            }
        }
        lemma_insert_keeps_bound(s[0], t, c);
        let it = insert_newest(t, c);
        let r = insert_newest(s, c);
        assert forall|i: int, j: int| 0 <= i < j < r.len() implies !text_lt(
            #[trigger] r[i].created_at@,
            #[trigger] r[j].created_at@,
        ) by {
            assert(r[j] == it[j - 1]);
            if i > 0 {
                assert(r[i] == it[i - 1]);
            }
        }
    }
}

/// Where `insert_newest` puts `c` in `s`.
pub open spec fn newest_position(s: Seq<Comment>, c: Comment) -> int
    decreases s.len(),
{
    if s.len() == 0 {
        0
    } else if text_lt(s[0].created_at@, c.created_at@) {
        0
    } else {
        1 + newest_position(s.drop_first(), c)
    }
}

proof fn lemma_insert_newest_is_insert(s: Seq<Comment>, c: Comment)
    ensures
        0 <= newest_position(s, c) <= s.len(),
        insert_newest(s, c) == s.insert(newest_position(s, c), c),
    decreases s.len(),
{
    if s.len() == 0 {
        assert(s.insert(0, c) =~= seq![c]);
    } else if text_lt(s[0].created_at@, c.created_at@) {
        assert(s.insert(0, c) =~= seq![c] + s);
    } else {
        lemma_insert_newest_is_insert(s.drop_first(), c);
        assert(seq![s[0]] + s.drop_first().insert(newest_position(s.drop_first(), c), c) =~= s.insert(
            newest_position(s, c),
            c,
        ));
    }
}

/// The context of a handoff is newest first, and holds exactly the comments
/// it was made from, each as many times as it was given.
pub proof fn law_context_newest_first(comments: Seq<Comment>)
    ensures
        is_newest_first(newest_first(comments)),
        newest_first(comments).to_multiset() == comments.to_multiset(),
    decreases comments.len(),
{
    if comments.len() > 0 {
        let pre = comments.drop_last();
        law_context_newest_first(pre);
        lemma_insert_newest_sorted(newest_first(pre), comments.last());
        lemma_insert_newest_is_insert(newest_first(pre), comments.last());
        vstd::seq_lib::to_multiset_insert(newest_first(pre), newest_position(newest_first(pre), comments.last()), comments.last());
        assert(comments =~= pre.push(comments.last()));
        vstd::seq_lib::to_multiset_build(pre, comments.last());
    } else {
        assert(newest_first(comments) == comments);
    }
}

/// A handoff of tasks to the agent `to`: the tasks, the twenty newest of the
/// comments read for them (newest first), the constraints and acceptance
/// criteria, the output schema's JSON text and the steering files.
pub fn handoff(
    to: &str,
    tasks: Vec<Task>,
    comments: Vec<Comment>,
    constraints: Option<&str>,
    acceptance_criteria: Option<&str>,
    output_schema: Option<String>,
    steering: Vec<SteeringInfo>,
) -> (r: HandoffOutput)
    ensures
        r.to@ == to@,
        r.tasks == tasks,
        r.context@ == first_n(newest_first(comments@), 20),
        r.constraints is Some <==> constraints is Some,
        r.constraints matches Some(x) ==> x@ == constraints->0@,
        r.acceptance_criteria is Some <==> acceptance_criteria is Some,
        r.acceptance_criteria matches Some(x) ==> x@ == acceptance_criteria->0@,
        r.output_schema == output_schema,
        r.steering == steering,
{
    let mut context = sort_newest_first(comments);
    context.truncate(20);
    HandoffOutput {
        to: owned(to),
        tasks,
        context,
        constraints: match constraints {
            Some(c) => Some(owned(c)),
            None => None,
        },
        acceptance_criteria: match acceptance_criteria {
            Some(a) => Some(owned(a)),
            None => None,
        },
        output_schema,
        steering,
    }
}

} // verus!
