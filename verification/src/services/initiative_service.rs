//! The progress summary of an initiative: counts over its projects' tasks,
//! which projects are done or blocked and why, and what to work on next.
//!
//! The caller reads the projects, each project's tasks and unmet project
//! dependencies, and the actionable tasks; the percentage of work done, a
//! float, is computed by the caller from the counts.
use vstd::prelude::*;
use crate::models::initiative::{
    Initiative, InitiativeBlockerInfo, InitiativeInfo, InitiativeStatusSummary, InitiativeSummary,
    NextAction, ProjectSummary,
};
use crate::models::project::Project;
use crate::models::task::Task;
use crate::services::summary_service::{
    blocked_tasks, count_status, first_n, is_blocker, status_count,
};
use crate::text::{copy_opt, owned, push_str, text_eq};

verus! {

/// How many of `tasks` are blocked.
pub open spec fn blocker_count(tasks: Seq<Task>) -> nat {
    tasks.filter(|t: Task| is_blocker(t)).len()
}

/// The number of tasks over all the lists.
pub open spec fn task_total(lists: Seq<Vec<Task>>) -> nat
    decreases lists.len(),
{
    if lists.len() == 0 { 0 } else { task_total(lists.drop_last()) + lists.last()@.len() }
}

/// The number of tasks with the status `status` over all the lists.
pub open spec fn status_total(lists: Seq<Vec<Task>>, status: Seq<char>) -> nat
    decreases lists.len(),
{
    if lists.len() == 0 { 0 } else { status_total(lists.drop_last(), status) + status_count(lists.last()@, status) }
}

/// The number of blocked tasks over all the lists.
pub open spec fn blocker_total(lists: Seq<Vec<Task>>) -> nat
    decreases lists.len(),
{
    if lists.len() == 0 { 0 } else { blocker_total(lists.drop_last()) + blocker_count(lists.last()@) }
}

proof fn lemma_status_count_le(tasks: Seq<Task>, status: Seq<char>)
    ensures
        status_count(tasks, status) <= tasks.len(),
    decreases tasks.len(),
{
    if tasks.len() > 0 {
        lemma_status_count_le(tasks.drop_last(), status);
    }
}

proof fn lemma_blocker_count_le(tasks: Seq<Task>)
    ensures
        blocker_count(tasks) <= tasks.len(),
{
    tasks.lemma_filter_len(|t: Task| is_blocker(t));
}

proof fn lemma_totals_le(lists: Seq<Vec<Task>>, status: Seq<char>)
    ensures
        status_total(lists, status) <= task_total(lists),
        blocker_total(lists) <= task_total(lists),
    decreases lists.len(),
{
    if lists.len() > 0 {
        lemma_totals_le(lists.drop_last(), status);
        lemma_status_count_le(lists.last()@, status);
        lemma_blocker_count_le(lists.last()@);
    }
}

proof fn lemma_task_total_prefix(lists: Seq<Vec<Task>>, i: int)
    requires
        0 <= i <= lists.len(),
    ensures
        task_total(lists.take(i)) <= task_total(lists),
    decreases lists.len() - i,
{
    if i < lists.len() {
        lemma_task_total_prefix(lists, i + 1);
        assert(lists.take(i + 1).drop_last() =~= lists.take(i));
    } else {
        assert(lists.take(i) =~= lists);
    }
}

/// The first project of `all` with the id `id`.
pub open spec fn find_project(all: Seq<Project>, id: Seq<char>) -> Option<Project>
    decreases all.len(),
{
    if all.len() == 0 {
        None
    } else if all[0].id@ == id {
        Some(all[0])
    } else {
        find_project(all.drop_first(), id)
    }
}

/// A blocker as text: project id, project name, kind and description.
pub open spec fn blocker_view(b: InitiativeBlockerInfo) -> (Seq<char>, Seq<char>, Seq<char>, Seq<char>) {
    (b.project_id@, b.project_name@, b.blocker_type@, b.description@)
}

/// The blockers of `p` for its unmet project dependencies `deps` that are
/// projects of the initiative: "Waiting for <name> to complete".
pub open spec fn dependency_blockers(all: Seq<Project>, p: Project, deps: Seq<String>) -> Seq<(Seq<char>, Seq<char>, Seq<char>, Seq<char>)>
    decreases deps.len(),
{
    if deps.len() == 0 {
        Seq::empty()
    } else {
        let pre = dependency_blockers(all, p, deps.drop_last());
        match find_project(all, deps.last()@) {
            Some(d) => pre.push(
                (p.id@, p.name@, "project_dependency"@, "Waiting for "@ + d.name@ + " to complete"@),
            ),
            None => pre,
        }
    }
}

/// The blocker of `p` for its blocked task `t`: the task's reason, or
/// "Task '<title>' is blocked".
pub open spec fn task_blocker(p: Project, t: Task) -> (Seq<char>, Seq<char>, Seq<char>, Seq<char>) {
    (p.id@, p.name@, "task_blocked"@, match t.blocked_reason {
        Some(r) => r@,
        None => "Task '"@ + t.title@ + "' is blocked"@,
    })
}

/// The blockers of `p` for its blocked tasks, in order.
pub open spec fn task_blockers(p: Project, tasks: Seq<Task>) -> Seq<(Seq<char>, Seq<char>, Seq<char>, Seq<char>)> {
    tasks.filter(|t: Task| is_blocker(t)).map_values(|t: Task| task_blocker(p, t))
}

/// The blockers of the first `n` projects.
pub open spec fn initiative_blockers(
    all: Seq<Project>,
    tasks: Seq<Vec<Task>>,
    unmet: Seq<Vec<String>>,
    n: nat,
) -> Seq<(Seq<char>, Seq<char>, Seq<char>, Seq<char>)>
    decreases n,
{
    if n == 0 {
        Seq::empty()
    } else {
        initiative_blockers(all, tasks, unmet, (n - 1) as nat) + dependency_blockers(all, all[n - 1], unmet[n - 1]@)
            + task_blockers(all[n - 1], tasks[n - 1]@)
    }
}

/// What the summary says of one project.
pub open spec fn summarizes_project(s: ProjectSummary, p: Project, tasks: Seq<Task>, unmet: Vec<String>) -> bool {
    &&& s.id == p.id
    &&& s.name == p.name
    &&& s.task_count == tasks.len()
    &&& s.done_count == status_count(tasks, "done"@)
    &&& s.blocked == (unmet@.len() > 0 || blocker_count(tasks) > 0)
    &&& s.blocked_by == unmet
}

/// A project all of whose tasks, and at least one, are done.
pub open spec fn project_complete(s: ProjectSummary) -> bool {
    s.done_count == s.task_count && s.task_count > 0
}

/// How many of the first `n` summaries are complete.
pub open spec fn complete_count(s: Seq<ProjectSummary>, n: nat) -> nat
    decreases n,
{
    if n == 0 { 0 } else { complete_count(s, (n - 1) as nat) + if project_complete(s[n - 1]) { 1nat } else { 0nat } }
}

/// How many of the first `n` summaries are blocked.
pub open spec fn blocked_count(s: Seq<ProjectSummary>, n: nat) -> nat
    decreases n,
{
    if n == 0 { 0 } else { blocked_count(s, (n - 1) as nat) + if s[n - 1].blocked { 1nat } else { 0nat } }
}

/// The name of the first summarised project with the id `id`, empty when
/// there is none.
pub open spec fn project_name_of(s: Seq<ProjectSummary>, id: Seq<char>) -> Seq<char>
    decreases s.len(),
{
    if s.len() == 0 {
        Seq::empty()
    } else if s[0].id@ == id {
        s[0].name@
    } else {
        project_name_of(s.drop_first(), id)
    }
}

/// A next action as text: task id, title, project id, project name and
/// priority.
pub open spec fn action_view(a: NextAction) -> (Seq<char>, Seq<char>, Seq<char>, Seq<char>, Seq<char>) {
    (a.task_id@, a.task_title@, a.project_id@, a.project_name@, a.priority@)
}

/// The next action for the task `t`, named after its project in `s`.
pub open spec fn next_action_of(s: Seq<ProjectSummary>, t: Task) -> (Seq<char>, Seq<char>, Seq<char>, Seq<char>, Seq<char>) {
    (t.id@, t.title@, t.project_id@, project_name_of(s, t.project_id@), t.priority@)
}

fn find_project_exec<'a>(all: &'a Vec<Project>, id: &str) -> (r: Option<&'a Project>)
    ensures
        match r {
            Some(p) => find_project(all@, id@) == Some(*p),
            None => find_project(all@, id@) is None,
        },
{
    let mut i: usize = 0;
    assert(all@.skip(0) =~= all@);
    while i < all.len()
        invariant
            i <= all.len(),
            find_project(all@, id@) == find_project(all@.skip(i as int), id@),
        decreases all.len() - i,
    {
        assert(all@.skip(i as int).drop_first() =~= all@.skip(i as int + 1));
        if text_eq(all[i].id.as_str(), id) {
            return Some(&all[i]);
        }
        i = i + 1;
    }
    None
}

fn push_dependency_blockers(out: &mut Vec<InitiativeBlockerInfo>, all: &Vec<Project>, p: &Project, deps: &Vec<String>)
    ensures
        final(out)@.map_values(|b: InitiativeBlockerInfo| blocker_view(b)) == old(out)@.map_values(
            |b: InitiativeBlockerInfo| blocker_view(b),
        ) + dependency_blockers(all@, *p, deps@),
{
    let ghost start = out@.map_values(|b: InitiativeBlockerInfo| blocker_view(b));
    let mut i: usize = 0;
    while i < deps.len()
        invariant
            i <= deps.len(),
            out@.map_values(|b: InitiativeBlockerInfo| blocker_view(b)) == start + dependency_blockers(
                all@,
                *p,
                deps@.take(i as int),
            ),
        decreases deps.len() - i,
    {
        assert(deps@.take(i as int + 1).drop_last() =~= deps@.take(i as int));
        let ghost before = out@.map_values(|b: InitiativeBlockerInfo| blocker_view(b));
        match find_project_exec(all, deps[i].as_str()) {
            Some(d) => {
                let mut desc = owned("Waiting for ");
                push_str(&mut desc, d.name.as_str());
                push_str(&mut desc, " to complete");
                out.push(InitiativeBlockerInfo {
                    project_id: p.id.clone(),
                    project_name: p.name.clone(),
                    blocker_type: owned("project_dependency"),
                    description: desc,
                });
                assert(out@.map_values(|b: InitiativeBlockerInfo| blocker_view(b)) =~= before.push(
                    (p.id@, p.name@, "project_dependency"@, "Waiting for "@ + d.name@ + " to complete"@),
                ));
            },
            None => {},
        }
        i = i + 1;
    }
    assert(deps@.take(i as int) =~= deps@);
}

fn push_task_blockers(out: &mut Vec<InitiativeBlockerInfo>, p: &Project, tasks: &Vec<Task>)
    ensures
        final(out)@.map_values(|b: InitiativeBlockerInfo| blocker_view(b)) == old(out)@.map_values(
            |b: InitiativeBlockerInfo| blocker_view(b),
        ) + task_blockers(*p, tasks@),
{
    let ghost start = out@.map_values(|b: InitiativeBlockerInfo| blocker_view(b));
    let ghost pred = |t: Task| is_blocker(t);
    let ghost f = |t: Task| task_blocker(*p, t);
    let mut i: usize = 0;
    while i < tasks.len()
        invariant
            i <= tasks.len(),
            pred == (|t: Task| is_blocker(t)),
            f == (|t: Task| task_blocker(*p, t)),
            out@.map_values(|b: InitiativeBlockerInfo| blocker_view(b)) == start + tasks@.take(i as int).filter(
                pred,
            ).map_values(f),
        decreases tasks.len() - i,
    {
        assert(tasks@.take(i as int + 1).drop_last() =~= tasks@.take(i as int));
        proof { reveal_with_fuel(Seq::filter, 1); }
        let ghost before = out@.map_values(|b: InitiativeBlockerInfo| blocker_view(b));
        let ghost fb = tasks@.take(i as int).filter(pred);
        let t = &tasks[i];
        if crate::services::summary_service::task_is_blocker(t) {
            let desc = match &t.blocked_reason {
                Some(r) => r.clone(),
                None => {
                    let mut d = owned("Task '");
                    push_str(&mut d, t.title.as_str());
                    push_str(&mut d, "' is blocked");
                    d
                },
            };
            out.push(InitiativeBlockerInfo {
                project_id: p.id.clone(),
                project_name: p.name.clone(),
                blocker_type: owned("task_blocked"),
                description: desc,
            });
            assert(fb.push(*t).map_values(f) =~= fb.map_values(f).push(f(*t)));
            assert(out@.map_values(|b: InitiativeBlockerInfo| blocker_view(b)) =~= before.push(task_blocker(*p, *t)));
        }
        i = i + 1;
    }
    assert(tasks@.take(i as int) =~= tasks@);
}

fn project_summary(p: &Project, tasks: &Vec<Task>, unmet: Vec<String>) -> (r: ProjectSummary)
    ensures
        summarizes_project(r, *p, tasks@, unmet),
{
    let blocked = blocked_tasks(tasks);
    let done = count_status(tasks, "done");
    let is_blocked = unmet.len() > 0 || blocked.len() > 0;
    ProjectSummary {
        id: p.id.clone(),
        name: p.name.clone(),
        task_count: tasks.len(),
        done_count: done,
        blocked: is_blocked,
        blocked_by: unmet,
    }
}

fn project_name_exec(s: &Vec<ProjectSummary>, id: &str) -> (r: String)
    ensures
        r@ == project_name_of(s@, id@),
{
    let mut i: usize = 0;
    assert(s@.skip(0) =~= s@);
    while i < s.len()
        invariant
            i <= s.len(),
            project_name_of(s@, id@) == project_name_of(s@.skip(i as int), id@),
        decreases s.len() - i,
    {
        assert(s@.skip(i as int).drop_first() =~= s@.skip(i as int + 1));
        if text_eq(s[i].id.as_str(), id) {
            return s[i].name.clone();
        }
        i = i + 1;
    }
    String::new()
}

fn next_action_list(s: &Vec<ProjectSummary>, next_tasks: &Vec<Task>, max: usize) -> (r: Vec<NextAction>)
    ensures
        r@.map_values(|a: NextAction| action_view(a)) == first_n(next_tasks@, max as nat).map_values(
            |t: Task| next_action_of(s@, t),
        ),
{
    let ghost src = first_n(next_tasks@, max as nat);
    let mut out: Vec<NextAction> = Vec::new();
    let mut i: usize = 0;
    while i < next_tasks.len() && i < max
        invariant
            i <= next_tasks.len(),
            i <= max,
            src == first_n(next_tasks@, max as nat),
            out@.map_values(|a: NextAction| action_view(a)) == next_tasks@.take(i as int).map_values(
                |t: Task| next_action_of(s@, t),
            ),
        decreases next_tasks.len() - i,
    {
        let ghost before = out@.map_values(|a: NextAction| action_view(a));
        let t = &next_tasks[i];
        let name = project_name_exec(s, t.project_id.as_str());
        let a = NextAction {
            task_id: t.id.clone(),
            task_title: t.title.clone(),
            project_id: t.project_id.clone(),
            project_name: name,
            priority: t.priority.clone(),
        };
        assert(action_view(a) == next_action_of(s@, *t));
        let ghost old_out = out@;
        out.push(a);
        assert(out@.map_values(|a: NextAction| action_view(a)) =~= old_out.map_values(|a: NextAction| action_view(a)).push(action_view(a)));
        assert(next_tasks@.take(i as int + 1) =~= next_tasks@.take(i as int).push(*t));
        assert(out@.map_values(|a: NextAction| action_view(a)) =~= next_tasks@.take(i as int + 1).map_values(
            |t: Task| next_action_of(s@, t),
        ));
        i = i + 1;
    }
    assert(next_tasks@.take(i as int) =~= src);
    out
}

/// The summary of an initiative from what was read for it: its projects,
/// with `tasks[i]` the tasks and `unmet[i]` the ids of the unmet project
/// dependencies of `projects[i]`, and the actionable tasks (in the order they
/// should be picked).
///
/// It counts tasks over all projects (done, in progress, blocked, todo),
/// summarises each project (done when all of at least one task are done;
/// blocked when it waits for other projects or has blocked tasks), lists the
/// blockers (each unmet dependency on a project of the initiative, then each
/// blocked task, project by project), and names up to `max_next_actions`
/// next actions after their projects.
pub fn initiative_summary(
    initiative: &Initiative,
    projects: &Vec<Project>,
    tasks: &Vec<Vec<Task>>,
    unmet: Vec<Vec<String>>,
    next_tasks: &Vec<Task>,
    max_next_actions: usize,
) -> (r: InitiativeSummary)
    requires
        tasks.len() == projects.len(),
        unmet.len() == projects.len(),
        task_total(tasks@) <= usize::MAX,
    ensures
        r.initiative.id == initiative.id,
        r.initiative.name == initiative.name,
        r.initiative.description == initiative.description,
        r.projects.len() == projects.len(),
        forall|i: int| 0 <= i < projects.len() ==> summarizes_project(#[trigger] r.projects@[i], projects@[i], tasks@[i]@, unmet@[i]),
        r.status.total_projects == projects.len(),
        r.status.total_tasks == task_total(tasks@),
        r.status.tasks_done == status_total(tasks@, "done"@),
        r.status.tasks_in_progress == status_total(tasks@, "in_progress"@),
        r.status.tasks_todo == status_total(tasks@, "todo"@),
        r.status.tasks_blocked == blocker_total(tasks@),
        r.status.completed_projects == complete_count(r.projects@, projects.len() as nat),
        r.status.blocked_projects == blocked_count(r.projects@, projects.len() as nat),
        r.blockers@.map_values(|b: InitiativeBlockerInfo| blocker_view(b)) == initiative_blockers(
            projects@,
            tasks@,
            unmet@,
            projects.len() as nat,
        ),
        r.next_actions@.map_values(|a: NextAction| action_view(a)) == first_n(next_tasks@, max_next_actions as nat).map_values(
            |t: Task| next_action_of(r.projects@, t),
        ),
{
    let ghost all_unmet = unmet@;
    let mut rest = unmet;
    let mut summaries: Vec<ProjectSummary> = Vec::new();
    let mut blockers: Vec<InitiativeBlockerInfo> = Vec::new();
    let mut total: usize = 0;
    let mut done: usize = 0;
    let mut in_progress: usize = 0;
    let mut todo: usize = 0;
    let mut blocked: usize = 0;
    let mut complete_projects: usize = 0;
    let mut blocked_projects: usize = 0;
    let mut i: usize = 0;
    while i < projects.len()
        invariant
            i <= projects.len(),
            tasks.len() == projects.len(),
            all_unmet.len() == projects.len(),
            task_total(tasks@) <= usize::MAX,
            rest@ == all_unmet.skip(i as int),
            summaries.len() == i,
            forall|k: int| 0 <= k < i ==> summarizes_project(#[trigger] summaries@[k], projects@[k], tasks@[k]@, all_unmet[k]),
            total == task_total(tasks@.take(i as int)),
            done == status_total(tasks@.take(i as int), "done"@),
            in_progress == status_total(tasks@.take(i as int), "in_progress"@),
            todo == status_total(tasks@.take(i as int), "todo"@),
            blocked == blocker_total(tasks@.take(i as int)),
            complete_projects == complete_count(summaries@, i as nat),
            blocked_projects == blocked_count(summaries@, i as nat),
            complete_projects <= i,
            blocked_projects <= i,
            blockers@.map_values(|b: InitiativeBlockerInfo| blocker_view(b)) == initiative_blockers(
                projects@,
                tasks@,
                all_unmet,
                i as nat,
            ),
        decreases projects.len() - i,
    {
        let deps = rest.remove(0);
        assert(deps == all_unmet[i as int]);
        assert(rest@ =~= all_unmet.skip(i as int + 1));
        let p = &projects[i];
        let ts = &tasks[i];
        let ghost pre = tasks@.take(i as int);
        let ghost next = tasks@.take(i as int + 1);
        proof {
            assert(next.drop_last() =~= pre);
            lemma_task_total_prefix(tasks@, i as int + 1);
            lemma_totals_le(next, "done"@);
            lemma_totals_le(next, "in_progress"@);
            lemma_totals_le(next, "todo"@);
        }
        push_dependency_blockers(&mut blockers, projects, p, &deps);
        push_task_blockers(&mut blockers, p, ts);
        let s = project_summary(p, ts, deps);
        total = total + ts.len();
        done = done + s.done_count;
        in_progress = in_progress + count_status(ts, "in_progress");
        todo = todo + count_status(ts, "todo");
        let nb = blocked_tasks(ts).len();
        blocked = blocked + nb;
        if s.done_count == s.task_count && s.task_count > 0 {
            complete_projects = complete_projects + 1;
        }
        if s.blocked {
            blocked_projects = blocked_projects + 1;
        }
        let ghost before = summaries@;
        summaries.push(s);
        proof {
            assert(summaries@.take(i as int) =~= before);
            assert forall|n: nat| n <= i implies complete_count(summaries@, n) == complete_count(before, n)
                && blocked_count(summaries@, n) == blocked_count(before, n) by {
                lemma_counts_prefix(before, summaries@, n);
            }
        }
        i = i + 1;
    }
    assert(tasks@.take(i as int) =~= tasks@);
    let next_actions = next_action_list(&summaries, next_tasks, max_next_actions);
    InitiativeSummary {
        initiative: InitiativeInfo {
            id: initiative.id.clone(),
            name: initiative.name.clone(),
            description: copy_opt(&initiative.description),
        },
        status: InitiativeStatusSummary {
            total_projects: projects.len(),
            completed_projects: complete_projects,
            blocked_projects,
            total_tasks: total,
            tasks_done: done,
            tasks_in_progress: in_progress,
            tasks_blocked: blocked,
            tasks_todo: todo,
        },
        projects: summaries,
        blockers,
        next_actions,
    }
}

proof fn lemma_counts_prefix(a: Seq<ProjectSummary>, b: Seq<ProjectSummary>, n: nat)
    requires
        n <= a.len(),
        a.len() <= b.len(),
        forall|k: int| 0 <= k < a.len() ==> a[k] == b[k],
    ensures
        complete_count(a, n) == complete_count(b, n),
        blocked_count(a, n) == blocked_count(b, n),
    decreases n,
{
    if n > 0 {
        lemma_counts_prefix(a, b, (n - 1) as nat);
    }
}

/// A project is summarised as blocked exactly when it waits for another
/// project or at least one of its tasks is blocked (its status is `blocked`
/// or it has a blocked reason): a blocked task blocks the project even when
/// no dependency is unmet.
pub proof fn law_project_blocked_by_deps_or_tasks(s: ProjectSummary, p: Project, tasks: Seq<Task>, unmet: Vec<String>)
    requires
        summarizes_project(s, p, tasks, unmet),
    ensures
        s.blocked <==> (unmet@.len() > 0 || exists|k: int|
            0 <= k < tasks.len() && (tasks[k].status@ == "blocked"@ || tasks[k].blocked_reason is Some)),
{
    let pred = |t: Task| is_blocker(t);
    if exists|k: int| 0 <= k < tasks.len() && (tasks[k].status@ == "blocked"@ || tasks[k].blocked_reason is Some) {
        let k = choose|k: int| 0 <= k < tasks.len() && (tasks[k].status@ == "blocked"@ || tasks[k].blocked_reason is Some);
        tasks.lemma_filter_contains(pred, k);
        assert(tasks.filter(pred).len() > 0);
    }
    if tasks.filter(pred).len() > 0 {
        let x = tasks.filter(pred)[0];
        tasks.lemma_filter_pred(pred, 0);
        assert(tasks.filter(pred).contains(x));
        tasks.lemma_filter_contains_rev(pred, x);
        let k = choose|k: int| 0 <= k < tasks.len() && tasks[k] == x;
        assert(tasks[k].status@ == "blocked"@ || tasks[k].blocked_reason is Some);
    }
}

/// The count of blocked projects of an initiative summary is the number of
/// projects that wait for another project or have a blocked task.
pub proof fn law_blocked_projects_counted(
    summaries: Seq<ProjectSummary>,
    projects: Seq<Project>,
    tasks: Seq<Vec<Task>>,
    unmet: Seq<Vec<String>>,
    n: nat,
)
    requires
        n <= summaries.len(),
        n <= projects.len(),
        n <= tasks.len(),
        n <= unmet.len(),
        forall|i: int| 0 <= i < n ==> summarizes_project(#[trigger] summaries[i], projects[i], tasks[i]@, unmet[i]),
    ensures
        blocked_count(summaries, n) == Set::new(|i: int| 0 <= i < n && (unmet[i]@.len() > 0 || exists|k: int|
            0 <= k < tasks[i]@.len() && (tasks[i]@[k].status@ == "blocked"@ || tasks[i]@[k].blocked_reason is Some))).len(),
    decreases n,
{
    let f = |m: nat| Set::new(|i: int| 0 <= i < m && (unmet[i]@.len() > 0 || exists|k: int|
        0 <= k < tasks[i]@.len() && (tasks[i]@[k].status@ == "blocked"@ || tasks[i]@[k].blocked_reason is Some)));
    if n == 0 {
        assert(f(0) =~= Set::empty());
    } else {
        let m = (n - 1) as nat;
        law_blocked_projects_counted(summaries, projects, tasks, unmet, m);
        law_project_blocked_by_deps_or_tasks(summaries[m as int], projects[m as int], tasks[m as int]@, unmet[m as int]);
        vstd::set_lib::lemma_int_range(0, m as int);
        assert(f(m).finite()) by {
            assert(f(m).subset_of(vstd::set_lib::set_int_range(0, m as int)));
            vstd::set_lib::lemma_len_subset(f(m), vstd::set_lib::set_int_range(0, m as int));
        }
        if summaries[m as int].blocked {
            assert(f(n) =~= f(m).insert(m as int));
        } else {
            assert(f(n) =~= f(m));
        }
    }
}

proof fn lemma_all_with_status(tasks: Seq<Task>, status: Seq<char>)
    ensures
        status_count(tasks, status) <= tasks.len(),
        status_count(tasks, status) == tasks.len() <==> forall|k: int| 0 <= k < tasks.len() ==> tasks[k].status@ == status,
    decreases tasks.len(),
{
    if tasks.len() > 0 {
        let d = tasks.drop_last();
        lemma_all_with_status(d, status);
        assert forall|k: int| 0 <= k < d.len() implies d[k] == tasks[k] by {}
        if forall|k: int| 0 <= k < tasks.len() ==> tasks[k].status@ == status {
            assert(tasks[tasks.len() - 1].status@ == status);
            assert forall|k: int| 0 <= k < d.len() implies d[k].status@ == status by {
                assert(tasks[k].status@ == status);
            }
        }
        if status_count(tasks, status) == tasks.len() {
            assert forall|k: int| 0 <= k < tasks.len() implies tasks[k].status@ == status by {
                if k < tasks.len() - 1 {
                    assert(d[k] == tasks[k]);
                }
            }
        }
    }
}

/// A project is summarised as complete exactly when it has tasks and every
/// one of them is done.
pub proof fn law_project_complete_when_all_done(s: ProjectSummary, p: Project, tasks: Seq<Task>, unmet: Vec<String>)
    requires
        summarizes_project(s, p, tasks, unmet),
    ensures
        (s.done_count == s.task_count && s.task_count > 0) <==> (tasks.len() > 0 && forall|k: int|
            0 <= k < tasks.len() ==> tasks[k].status@ == "done"@),
        s.task_count == tasks.len(),
{
    lemma_all_with_status(tasks, "done"@);
}

} // verus!
