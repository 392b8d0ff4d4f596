//! Checkpoints of a session: what a snapshot records, what restoring one
//! writes back, and what changed between two snapshots.
use vstd::prelude::*;
use crate::error::GranaryError;
use crate::json::pair_views;
use crate::models::checkpoint::{Checkpoint, ScopeItem, SessionSnapshot, SessionSnapshotData, TaskSnapshot};
use crate::models::session::{session_variables, Session, SessionScope};
use crate::models::task::Task;
use crate::text::{copy_opt, owned, push_str, text_eq, views};

verus! {

/// A value in a change: a text, or a whole task snapshot.
#[derive(Debug, Clone)]
pub enum DiffValue {
    Text(String),
    Task(TaskSnapshot),
}

/// One change between two snapshots.
#[derive(Debug, Clone)]
pub struct DiffChange {
    pub entity_type: String,
    pub entity_id: String,
    pub field: String,
    pub old_value: Option<DiffValue>,
    pub new_value: Option<DiffValue>,
}

/// The changes between two snapshots, named `from` and `to`.
#[derive(Debug, Clone)]
pub struct CheckpointDiff {
    pub from: String,
    pub to: String,
    pub changes: Vec<DiffChange>,
}

/// A change, as contracts see it.
pub struct ChangeView {
    pub entity_type: Seq<char>,
    pub entity_id: Seq<char>,
    pub field: Seq<char>,
    pub old_value: Option<DiffValue>,
    pub new_value: Option<DiffValue>,
}

/// The view of a change.
pub open spec fn change_view(c: DiffChange) -> ChangeView {
    ChangeView { entity_type: c.entity_type@, entity_id: c.entity_id@, field: c.field@, old_value: c.old_value, new_value: c.new_value }
}

/// The views of changes.
pub open spec fn changes_view(cs: Seq<DiffChange>) -> Seq<ChangeView> {
    cs.map_values(|c: DiffChange| change_view(c))
}

/// An optional text as a change value.
pub open spec fn text_value(o: Option<String>) -> Option<DiffValue> {
    match o {
        Some(s) => Some(DiffValue::Text(s)),
        None => None,
    }
}

/// Two optional texts are the same.
pub open spec fn same_opt(a: Option<String>, b: Option<String>) -> bool {
    match (a, b) {
        (Some(x), Some(y)) => x@ == y@,
        (None, None) => true,
        _ => false,
    }
}

/// The snapshot of the task `id`: the last one of that id.
pub open spec fn task_named(ts: Seq<TaskSnapshot>, id: Seq<char>) -> Option<TaskSnapshot>
    decreases ts.len(),
{
    if ts.len() == 0 {
        None
    } else if ts.last().id@ == id {
        Some(ts.last())
    } else {
        task_named(ts.drop_last(), id)
    }
}

/// The task at `i` is the last of its id.
pub open spec fn is_last(ts: Seq<TaskSnapshot>, i: int) -> bool {
    forall|j: int| i < j < ts.len() ==> ts[j].id@ != ts[i].id@
}

/// A change of a session field.
pub open spec fn session_change(session_id: Seq<char>, field: Seq<char>, old: Option<String>, new: Option<String>) -> Seq<ChangeView> {
    if same_opt(old, new) {
        Seq::empty()
    } else {
        seq![ChangeView { entity_type: "session"@, entity_id: session_id, field, old_value: text_value(old), new_value: text_value(new) }]
    }
}

/// A change of a task field.
pub open spec fn task_field_change(id: Seq<char>, field: Seq<char>, old: Option<String>, new: Option<String>) -> Seq<ChangeView> {
    if same_opt(old, new) {
        Seq::empty()
    } else {
        seq![ChangeView { entity_type: "task"@, entity_id: id, field, old_value: text_value(old), new_value: text_value(new) }]
    }
}

/// The changes of one task of the later snapshot.
pub open spec fn task_changes(from: Seq<TaskSnapshot>, t: TaskSnapshot) -> Seq<ChangeView> {
    match task_named(from, t.id@) {
        Some(f) => task_field_change(t.id@, "status"@, Some(f.status), Some(t.status)) + task_field_change(
            t.id@,
            "priority"@,
            Some(f.priority),
            Some(t.priority),
        ) + task_field_change(t.id@, "owner"@, f.owner, t.owner),
        None => seq![ChangeView { entity_type: "task"@, entity_id: t.id@, field: "added"@, old_value: None, new_value: Some(DiffValue::Task(t)) }],
    }
}

/// The changes of the tasks of the later snapshot, each id once, in order.
pub open spec fn changed_tasks(from: Seq<TaskSnapshot>, to: Seq<TaskSnapshot>, n: nat) -> Seq<ChangeView>
    decreases n,
{
    if n == 0 {
        Seq::empty()
    } else {
        changed_tasks(from, to, (n - 1) as nat) + if is_last(to, n - 1) {
            task_changes(from, to[n - 1])
        } else {
            Seq::empty()
        }
    }
}

/// The tasks of the earlier snapshot that the later one lacks, each id once,
/// in order.
pub open spec fn removed_tasks(from: Seq<TaskSnapshot>, to: Seq<TaskSnapshot>, n: nat) -> Seq<ChangeView>
    decreases n,
{
    if n == 0 {
        Seq::empty()
    } else {
        removed_tasks(from, to, (n - 1) as nat) + if is_last(from, n - 1) && task_named(to, from[n - 1].id@) is None {
            seq![ChangeView { entity_type: "task"@, entity_id: from[n - 1].id@, field: "removed"@, old_value: Some(DiffValue::Task(from[n - 1])), new_value: None }]
        } else {
            Seq::empty()
        }
    }
}

/// The changes from one snapshot to another: the session's mode and focus,
/// then the tasks of the later snapshot (changed status, priority or owner,
/// or added), then the tasks removed.
pub open spec fn snapshot_changes(session_id: Seq<char>, from: SessionSnapshot, to: SessionSnapshot) -> Seq<ChangeView> {
    session_change(session_id, "mode"@, from.session.mode, to.session.mode) + session_change(
        session_id,
        "focus_task_id"@,
        from.session.focus_task_id,
        to.session.focus_task_id,
    ) + changed_tasks(from.tasks@, to.tasks@, to.tasks@.len()) + removed_tasks(
        from.tasks@,
        to.tasks@,
        from.tasks@.len(),
    )
}

/// Whether two optional texts are the same.
fn opt_eq(a: &Option<String>, b: &Option<String>) -> (r: bool)
    ensures
        r == same_opt(*a, *b),
{
    match (a, b) {
        (Some(x), Some(y)) => text_eq(x.as_str(), y.as_str()),
        (None, None) => true,
        _ => false,
    }
}

/// Copies an optional text into a change value.
fn opt_value(o: &Option<String>) -> (r: Option<DiffValue>)
    ensures
        r == text_value(*o),
{
    match o {
        Some(s) => Some(DiffValue::Text(s.clone())),
        None => None,
    }
}

/// Appends a change of a field when its value differs.
fn push_field_change(
    out: &mut Vec<DiffChange>,
    entity_type: &str,
    id: &str,
    field: &str,
    before_value: &Option<String>,
    after_value: &Option<String>,
)
    ensures
        changes_view(final(out)@) == changes_view(old(out)@) + if same_opt(*before_value, *after_value) {
            Seq::<ChangeView>::empty()
        } else {
            seq![ChangeView { entity_type: entity_type@, entity_id: id@, field: field@, old_value: text_value(*before_value), new_value: text_value(*after_value) }]
        },
{
    let ghost before = out@;
    if !opt_eq(before_value, after_value) {
        out.push(DiffChange {
            entity_type: owned(entity_type),
            entity_id: owned(id),
            field: owned(field),
            old_value: opt_value(before_value),
            new_value: opt_value(after_value),
        });
        assert(changes_view(out@) =~= changes_view(before).push(change_view(out@.last())));
    } else {
        assert(changes_view(out@) =~= changes_view(before) + Seq::<ChangeView>::empty());
    }
}

/// The index of the last task of id `id`.
fn last_index(ts: &Vec<TaskSnapshot>, id: &str) -> (r: Option<usize>)
    ensures
        match r {
            Some(i) => i < ts@.len() && ts@[i as int].id@ == id@ && task_named(ts@, id@) == Some(ts@[i as int]),
            None => task_named(ts@, id@) is None,
        },
{
    let mut k: usize = ts.len();
    assert(ts@.take(ts@.len() as int) =~= ts@);
    while k > 0
        invariant
            k <= ts@.len(),
            task_named(ts@, id@) == task_named(ts@.take(k as int), id@),
        decreases k,
    {
        let ghost pre = ts@.take(k as int);
        assert(pre.drop_last() =~= ts@.take(k as int - 1));
        assert(pre.last() == ts@[k as int - 1]);
        if text_eq(ts[k - 1].id.as_str(), id) {
            return Some(k - 1);
        }
        k = k - 1;
    }
    assert(ts@.take(0).len() == 0);
    None
}

/// Whether the task at `i` is the last of its id.
fn last_of_its_id(ts: &Vec<TaskSnapshot>, i: usize) -> (r: bool)
    requires
        i < ts@.len(),
    ensures
        r == is_last(ts@, i as int),
{
    let n = ts.len();
    let mut j: usize = i + 1;
    while j < ts.len()
        invariant
            i < j <= ts@.len(),
            forall|k: int| i < k < j ==> ts@[k].id@ != ts@[i as int].id@,
        decreases ts@.len() - j,
    {
        if text_eq(ts[j].id.as_str(), ts[i].id.as_str()) {
            return false;
        }
        j = j + 1;
    }
    true
}

/// Appends the changes of one task of the later snapshot.
fn push_task_changes(out: &mut Vec<DiffChange>, from: &Vec<TaskSnapshot>, t: &TaskSnapshot)
    ensures
        changes_view(final(out)@) == changes_view(old(out)@) + task_changes(from@, *t),
{
    let ghost before = changes_view(out@);
    match last_index(from, t.id.as_str()) {
        Some(k) => {
            let f = &from[k];
            let fs = Some(f.status.clone());
            let ts = Some(t.status.clone());
            push_field_change(out, "task", t.id.as_str(), "status", &fs, &ts);
            let fp = Some(f.priority.clone());
            let tp = Some(t.priority.clone());
            push_field_change(out, "task", t.id.as_str(), "priority", &fp, &tp);
            push_field_change(out, "task", t.id.as_str(), "owner", &f.owner, &t.owner);
            assert(changes_view(out@) =~= before + task_changes(from@, *t));
        },
        None => {
            let ghost b = out@;
            out.push(DiffChange {
                entity_type: owned("task"),
                entity_id: owned(t.id.as_str()),
                field: owned("added"),
                old_value: None,
                new_value: Some(DiffValue::Task(t.clone())),
            });
            proof {
                assert(changes_view(out@) =~= changes_view(b).push(change_view(out@.last())));
            }
            assert(changes_view(out@) =~= before + task_changes(from@, *t));
        },
    }
}

/// The changes from the snapshot `from` (named `from_name`) to the snapshot
/// `to` (named `to_name`) of the session `session_id` (see
/// [`snapshot_changes`]).
pub fn diff_snapshots(
    session_id: &str,
    from_name: &str,
    to_name: &str,
    from: &SessionSnapshot,
    to: &SessionSnapshot,
) -> (r: CheckpointDiff)
    ensures
        r.from@ == from_name@,
        r.to@ == to_name@,
        changes_view(r.changes@) == snapshot_changes(session_id@, *from, *to),
{
    let mut out: Vec<DiffChange> = Vec::new();
    push_field_change(&mut out, "session", session_id, "mode", &from.session.mode, &to.session.mode);
    push_field_change(
        &mut out,
        "session",
        session_id,
        "focus_task_id",
        &from.session.focus_task_id,
        &to.session.focus_task_id,
    );
    let ghost head = changes_view(out@);
    let mut i: usize = 0;
    while i < to.tasks.len()
        invariant
            0 <= i <= to.tasks@.len(),
            changes_view(out@) == head + changed_tasks(from.tasks@, to.tasks@, i as nat),
        decreases to.tasks@.len() - i,
    {
        if last_of_its_id(&to.tasks, i) {
            push_task_changes(&mut out, &from.tasks, &to.tasks[i]);
        }
        i = i + 1;
    }
    let ghost mid = changes_view(out@);
    let mut k: usize = 0;
    while k < from.tasks.len()
        invariant
            0 <= k <= from.tasks@.len(),
            changes_view(out@) == mid + removed_tasks(from.tasks@, to.tasks@, k as nat),
        decreases from.tasks@.len() - k,
    {
        if last_of_its_id(&from.tasks, k) {
            if last_index(&to.tasks, from.tasks[k].id.as_str()).is_none() {
                let ghost b = out@;
                out.push(DiffChange {
                    entity_type: owned("task"),
                    entity_id: owned(from.tasks[k].id.as_str()),
                    field: owned("removed"),
                    old_value: Some(DiffValue::Task(from.tasks[k].clone())),
                    new_value: None,
                });
                assert(changes_view(out@) =~= changes_view(b).push(change_view(out@.last())));
            }
        }
        k = k + 1;
    }
    CheckpointDiff { from: owned(from_name), to: owned(to_name), changes: out }
}

/// A snapshot compared with itself shows no change.
pub proof fn law_no_change_against_itself(session_id: Seq<char>, s: SessionSnapshot)
    ensures
        snapshot_changes(session_id, s, s).len() == 0,
{
    lemma_unchanged_tasks(s.tasks@, s.tasks@.len());
    lemma_none_removed(s.tasks@, s.tasks@.len());
}

proof fn lemma_unchanged_tasks(ts: Seq<TaskSnapshot>, n: nat)
    requires
        n <= ts.len(),
    ensures
        changed_tasks(ts, ts, n).len() == 0,
    decreases n,
{
    if n > 0 {
        lemma_unchanged_tasks(ts, (n - 1) as nat);
        if is_last(ts, n - 1) {
            lemma_task_named_last(ts, n - 1);
        }
    }
}

proof fn lemma_none_removed(ts: Seq<TaskSnapshot>, n: nat)
    requires
        n <= ts.len(),
    ensures
        removed_tasks(ts, ts, n).len() == 0,
    decreases n,
{
    if n > 0 {
        lemma_none_removed(ts, (n - 1) as nat);
        if is_last(ts, n - 1) {
            lemma_task_named_last(ts, n - 1);
        }
    }
}

/// The task at `i`, the last of its id, is the one its id names.
proof fn lemma_task_named_last(ts: Seq<TaskSnapshot>, i: int)
    requires
        0 <= i < ts.len(),
        is_last(ts, i),
    ensures
        task_named(ts, ts[i].id@) == Some(ts[i]),
    decreases ts.len(),
{
    if i < ts.len() - 1 {
        assert(ts.last() == ts[ts.len() - 1]);
        assert(is_last(ts.drop_last(), i));
        lemma_task_named_last(ts.drop_last(), i);
    }
}

/// `s` records the state of the task `t`.
pub open spec fn snapshot_of(s: TaskSnapshot, t: Task) -> bool {
    &&& s.id == t.id
    &&& s.status == t.status
    &&& s.priority == t.priority
    &&& s.owner == t.owner
    &&& s.blocked_reason == t.blocked_reason
    &&& s.pinned == (t.pinned != 0)
    &&& s.focus_weight == t.focus_weight
}

/// The state of a task, as a checkpoint records it.
pub fn task_snapshot(task: &Task) -> (r: TaskSnapshot)
    ensures
        snapshot_of(r, *task),
{
    TaskSnapshot {
        id: task.id.clone(),
        status: task.status.clone(),
        priority: task.priority.clone(),
        owner: copy_opt(&task.owner),
        blocked_reason: copy_opt(&task.blocked_reason),
        pinned: task.pinned != 0,
        focus_weight: task.focus_weight,
    }
}

/// `r` is `t` with the state recorded in `s` written back: status,
/// priority, owner, blocked reason, pin and focus weight.
pub open spec fn restored(r: Task, t: Task, s: TaskSnapshot) -> bool {
    r == (Task {
        status: s.status,
        priority: s.priority,
        owner: s.owner,
        blocked_reason: s.blocked_reason,
        pinned: if s.pinned { 1 } else { 0 },
        focus_weight: s.focus_weight,
        ..t
    })
}

/// Writes the state recorded in `snap` back into the task.
pub fn restore_task(task: Task, snap: &TaskSnapshot) -> (r: Task)
    ensures
        restored(r, task, *snap),
{
    let mut r = task;
    r.status = snap.status.clone();
    r.priority = snap.priority.clone();
    r.owner = copy_opt(&snap.owner);
    r.blocked_reason = copy_opt(&snap.blocked_reason);
    r.pinned = if snap.pinned { 1 } else { 0 };
    r.focus_weight = snap.focus_weight;
    r
}

/// Restoring a checkpoint gives the task back the state it recorded: a
/// snapshot taken right after the restore is the recorded one.
pub proof fn law_restore_then_snapshot(t: Task, recorded: TaskSnapshot, r: Task, again: TaskSnapshot)
    requires
        recorded.id == t.id,
        restored(r, t, recorded),
        snapshot_of(again, r),
    ensures
        again == recorded,
{
}

/// Restoring a task from a snapshot of itself changes nothing.
pub proof fn law_restore_own_snapshot(t: Task, s: TaskSnapshot, r: Task)
    requires
        snapshot_of(s, t),
        t.pinned == 0 || t.pinned == 1,
        restored(r, t, s),
    ensures
        r == t,
{
}

/// The scope items of a session, as a checkpoint records them.
pub fn scope_items(scope: &Vec<SessionScope>) -> (r: Vec<ScopeItem>)
    ensures
        r.len() == scope.len(),
        forall|i: int| 0 <= i < scope.len() ==> #[trigger] r@[i].item_type == scope@[i].item_type
            && r@[i].item_id == scope@[i].item_id,
{
    let mut out: Vec<ScopeItem> = Vec::new();
    let mut i: usize = 0;
    while i < scope.len()
        invariant
            i <= scope.len(),
            out.len() == i,
            forall|k: int| 0 <= k < i ==> #[trigger] out@[k].item_type == scope@[k].item_type
                && out@[k].item_id == scope@[k].item_id,
        decreases scope.len() - i,
    {
        let ghost before = out@;
        out.push(ScopeItem { item_type: scope[i].item_type.clone(), item_id: scope[i].item_id.clone() });
        assert forall|k: int| 0 <= k < i + 1 implies #[trigger] out@[k].item_type == scope@[k].item_type
            && out@[k].item_id == scope@[k].item_id by {
            if k < i {
                assert(out@[k] == before[k]);
            }
        }
        i = i + 1;
    }
    out
}

/// The ids of the task items of a scope, in order.
pub open spec fn scoped_task_ids(items: Seq<ScopeItem>) -> Seq<Seq<char>> {
    items.filter(|s: ScopeItem| s.item_type@ == "task"@).map_values(|s: ScopeItem| s.item_id@)
}

/// The ids of the tasks whose state a checkpoint records: the task items of
/// the scope.
pub fn scope_task_ids(items: &Vec<ScopeItem>) -> (r: Vec<String>)
    ensures
        views(r@) == scoped_task_ids(items@),
{
    let ghost pred = |s: ScopeItem| s.item_type@ == "task"@;
    let ghost f = |s: ScopeItem| s.item_id@;
    let mut out: Vec<String> = Vec::new();
    let mut i: usize = 0;
    while i < items.len()
        invariant
            i <= items.len(),
            pred == (|s: ScopeItem| s.item_type@ == "task"@),
            f == (|s: ScopeItem| s.item_id@),
            views(out@) == items@.take(i as int).filter(pred).map_values(f),
        decreases items.len() - i,
    {
        assert(items@.take(i as int + 1).drop_last() =~= items@.take(i as int));
        proof { reveal_with_fuel(Seq::filter, 1); }
        let ghost fb = items@.take(i as int).filter(pred);
        let ghost before = out@;
        if text_eq(items[i].item_type.as_str(), "task") {
            out.push(items[i].item_id.clone());
            assert(fb.push(items@[i as int]).map_values(f) =~= fb.map_values(f).push(f(items@[i as int])));
            assert(views(out@) =~= views(before).push(items@[i as int].item_id@));
        }
        i = i + 1;
    }
    assert(items@.take(i as int) =~= items@);
    out
}

/// The session's own properties, as a checkpoint records them.
pub fn session_snapshot_data(session: &Session) -> (r: SessionSnapshotData)
    ensures
        r.id == session.id,
        r.name == session.name,
        r.owner == session.owner,
        r.mode == session.mode,
        r.focus_task_id == session.focus_task_id,
{
    SessionSnapshotData {
        id: session.id.clone(),
        name: copy_opt(&session.name),
        owner: copy_opt(&session.owner),
        mode: copy_opt(&session.mode),
        focus_task_id: copy_opt(&session.focus_task_id),
    }
}

/// The error for a checkpoint name already used in the session.
pub fn checkpoint_name_taken(name: &str, session_id: &str) -> (r: GranaryError)
    ensures
        r matches GranaryError::Conflict(m) && m@ == "Checkpoint '"@ + name@ + "' already exists in session "@
            + session_id@,
{
    let mut m = owned("Checkpoint '");
    push_str(&mut m, name);
    push_str(&mut m, "' already exists in session ");
    push_str(&mut m, session_id);
    GranaryError::Conflict(m)
}

/// The session with the state of a snapshot written back: its mode and
/// focus task, and its variables (given as JSON text) when the snapshot
/// recorded any.
pub fn restore_session(session: Session, snap: &SessionSnapshot, variables_json: String) -> (r: Session)
    ensures
        r == (Session {
            mode: snap.session.mode,
            focus_task_id: snap.session.focus_task_id,
            variables: if snap.variables.len() > 0 { Some(variables_json) } else { session.variables },
            ..session
        }),
{
    let mut r = session;
    r.mode = copy_opt(&snap.session.mode);
    r.focus_task_id = copy_opt(&snap.session.focus_task_id);
    if snap.variables.len() > 0 {
        r.variables = Some(variables_json);
    }
    r
}

/// The snapshot of a session: its own properties, its scope, the recorded
/// states of its scoped tasks, and its variables.
pub fn session_snapshot(session: &Session, scope: Vec<ScopeItem>, tasks: Vec<TaskSnapshot>) -> (r: SessionSnapshot)
    ensures
        r.session.id == session.id,
        r.session.name == session.name,
        r.session.owner == session.owner,
        r.session.mode == session.mode,
        r.session.focus_task_id == session.focus_task_id,
        r.scope == scope,
        r.tasks == tasks,
        pair_views(r.variables@) == session_variables(session.variables),
{
    SessionSnapshot {
        session: session_snapshot_data(session),
        scope,
        tasks,
        variables: session.variables_map(),
    }
}

/// A checkpoint named `name` of the session `session_id`, holding the
/// snapshot's JSON text, made at `now` under the id `id`.
pub fn new_checkpoint(id: String, session_id: &str, name: &str, snapshot: String, now: &str) -> (r: Checkpoint)
    ensures
        r.id == id,
        r.session_id@ == session_id@,
        r.name@ == name@,
        r.snapshot == snapshot,
        r.created_at@ == now@,
{
    Checkpoint { id, session_id: owned(session_id), name: owned(name), snapshot, created_at: owned(now) }
}

/// A checkpoint made now: [`new_checkpoint`] at the time the clock reads.
pub fn create_checkpoint(id: String, session_id: &str, name: &str, snapshot: String) -> (r: Checkpoint)
    ensures
        r.id == id,
        r.session_id@ == session_id@,
        r.name@ == name@,
        r.snapshot == snapshot,
{
    let now = crate::clock::now_rfc3339();
    new_checkpoint(id, session_id, name, snapshot, &now)
}

/// Every change of a task that is the last of its id is among the task
/// changes of the diff; gives its position.
proof fn lemma_changed_tasks_hold(from: Seq<TaskSnapshot>, to: Seq<TaskSnapshot>, n: nat, i: int, c: int) -> (m: int)
    requires
        0 <= i < n <= to.len(),
        is_last(to, i),
        0 <= c < task_changes(from, to[i]).len(),
    ensures
        0 <= m < changed_tasks(from, to, n).len(),
        changed_tasks(from, to, n)[m] == task_changes(from, to[i])[c],
    decreases n,
{
    let prev = changed_tasks(from, to, (n - 1) as nat);
    if i == n - 1 {
        prev.len() + c
    } else {
        let m = lemma_changed_tasks_hold(from, to, (n - 1) as nat, i, c);
        m
    }
}

/// No snapshot of the id `id` means the diff finds none.
proof fn lemma_task_named_none(ts: Seq<TaskSnapshot>, id: Seq<char>)
    requires
        forall|j: int| 0 <= j < ts.len() ==> ts[j].id@ != id,
    ensures
        task_named(ts, id) is None,
    decreases ts.len(),
{
    if ts.len() > 0 {
        assert(ts.last() == ts[ts.len() - 1]);
        lemma_task_named_none(ts.drop_last(), id);
    }
}

/// Every removal of a task that is the last of its id is among the
/// removals of the diff; gives its position.
proof fn lemma_removed_tasks_hold(from: Seq<TaskSnapshot>, to: Seq<TaskSnapshot>, n: nat, k: int) -> (m: int)
    requires
        0 <= k < n <= from.len(),
        is_last(from, k),
        task_named(to, from[k].id@) is None,
    ensures
        0 <= m < removed_tasks(from, to, n).len(),
        removed_tasks(from, to, n)[m] == (ChangeView {
            entity_type: "task"@,
            entity_id: from[k].id@,
            field: "removed"@,
            old_value: Some(DiffValue::Task(from[k])),
            new_value: None,
        }),
    decreases n,
{
    let prev = removed_tasks(from, to, (n - 1) as nat);
    if k == n - 1 {
        prev.len() as int
    } else {
        lemma_removed_tasks_hold(from, to, (n - 1) as nat, k)
    }
}

/// The value a change records for an optional text.
pub open spec fn recorded(o: Option<String>) -> Option<DiffValue> {
    match o {
        Some(v) => Some(DiffValue::Text(v)),
        None => None,
    }
}

/// An optional text as plain characters.
pub open spec fn chars_opt(o: Option<String>) -> Option<Seq<char>> {
    match o {
        Some(v) => Some(v@),
        None => None,
    }
}

/// The diff of a task present in both snapshots reports each of its
/// fields that differs: a `status`, `priority` or `owner` change from the
/// earlier value to the later one. (Each snapshot's entry for the task is
/// the last one with its id.)
pub proof fn law_task_field_changes_reported(
    session_id: Seq<char>,
    from: SessionSnapshot,
    to: SessionSnapshot,
    changes: Seq<ChangeView>,
    i: int,
    k: int,
)
    requires
        changes == snapshot_changes(session_id, from, to),
        0 <= i < to.tasks@.len(),
        forall|j: int| i < j < to.tasks@.len() ==> to.tasks@[j].id@ != to.tasks@[i].id@,
        0 <= k < from.tasks@.len(),
        from.tasks@[k].id@ == to.tasks@[i].id@,
        forall|j: int| k < j < from.tasks@.len() ==> from.tasks@[j].id@ != from.tasks@[k].id@,
    ensures
        from.tasks@[k].status@ != to.tasks@[i].status@ ==> exists|m: int| 0 <= m < changes.len() && changes[m] == (ChangeView {
            entity_type: "task"@,
            entity_id: to.tasks@[i].id@,
            field: "status"@,
            old_value: Some(DiffValue::Text(from.tasks@[k].status)),
            new_value: Some(DiffValue::Text(to.tasks@[i].status)),
        }),
        from.tasks@[k].priority@ != to.tasks@[i].priority@ ==> exists|m: int| 0 <= m < changes.len() && changes[m] == (ChangeView {
            entity_type: "task"@,
            entity_id: to.tasks@[i].id@,
            field: "priority"@,
            old_value: Some(DiffValue::Text(from.tasks@[k].priority)),
            new_value: Some(DiffValue::Text(to.tasks@[i].priority)),
        }),
        chars_opt(from.tasks@[k].owner) != chars_opt(to.tasks@[i].owner) ==> exists|m: int| 0 <= m < changes.len() && changes[m] == (ChangeView {
            entity_type: "task"@,
            entity_id: to.tasks@[i].id@,
            field: "owner"@,
            old_value: recorded(from.tasks@[k].owner),
            new_value: recorded(to.tasks@[i].owner),
        }),
{
    let f = from.tasks@[k];
    let t = to.tasks@[i];
    lemma_task_named_last(from.tasks@, k);
    assert(task_named(from.tasks@, t.id@) == Some(f));
    let sa = task_field_change(t.id@, "status"@, Some(f.status), Some(t.status));
    let pa = task_field_change(t.id@, "priority"@, Some(f.priority), Some(t.priority));
    let oa = task_field_change(t.id@, "owner"@, f.owner, t.owner);
    let tc = task_changes(from.tasks@, t);
    assert(tc == sa + pa + oa);
    let head = session_change(session_id, "mode"@, from.session.mode, to.session.mode) + session_change(
        session_id,
        "focus_task_id"@,
        from.session.focus_task_id,
        to.session.focus_task_id,
    );
    let mid = changed_tasks(from.tasks@, to.tasks@, to.tasks@.len());
    if f.status@ != t.status@ {
        assert(tc[0] == sa[0]);
        let m = lemma_changed_tasks_hold(from.tasks@, to.tasks@, to.tasks@.len(), i, 0);
        assert(changes[head.len() + m] == mid[m]);
    }
    if f.priority@ != t.priority@ {
        let c = sa.len() as int;
        assert(tc[c] == pa[0]);
        let m = lemma_changed_tasks_hold(from.tasks@, to.tasks@, to.tasks@.len(), i, c);
        assert(changes[head.len() + m] == mid[m]);
    }
    if chars_opt(f.owner) != chars_opt(t.owner) {
        assert(!same_opt(f.owner, t.owner));
        let c = (sa.len() + pa.len()) as int;
        assert(tc[c] == oa[0]);
        let m = lemma_changed_tasks_hold(from.tasks@, to.tasks@, to.tasks@.len(), i, c);
        assert(changes[head.len() + m] == mid[m]);
    }
}

/// A task of the later snapshot with no entry of its id in the earlier one
/// is reported as added. (The entry is the last one with its id.)
pub proof fn law_added_task_reported(
    session_id: Seq<char>,
    from: SessionSnapshot,
    to: SessionSnapshot,
    changes: Seq<ChangeView>,
    i: int,
)
    requires
        changes == snapshot_changes(session_id, from, to),
        0 <= i < to.tasks@.len(),
        forall|j: int| i < j < to.tasks@.len() ==> to.tasks@[j].id@ != to.tasks@[i].id@,
        forall|j: int| 0 <= j < from.tasks@.len() ==> from.tasks@[j].id@ != to.tasks@[i].id@,
    ensures
        exists|m: int| 0 <= m < changes.len() && changes[m] == (ChangeView {
            entity_type: "task"@,
            entity_id: to.tasks@[i].id@,
            field: "added"@,
            old_value: None,
            new_value: Some(DiffValue::Task(to.tasks@[i])),
        }),
{
    let head = session_change(session_id, "mode"@, from.session.mode, to.session.mode) + session_change(
        session_id,
        "focus_task_id"@,
        from.session.focus_task_id,
        to.session.focus_task_id,
    );
    let mid = changed_tasks(from.tasks@, to.tasks@, to.tasks@.len());
    lemma_task_named_none(from.tasks@, to.tasks@[i].id@);
    let m = lemma_changed_tasks_hold(from.tasks@, to.tasks@, to.tasks@.len(), i, 0);
    assert(changes[head.len() + m] == mid[m]);
}

/// A task of the earlier snapshot with no entry of its id in the later one
/// is reported as removed. (The entry is the last one with its id.)
pub proof fn law_removed_task_reported(
    session_id: Seq<char>,
    from: SessionSnapshot,
    to: SessionSnapshot,
    changes: Seq<ChangeView>,
    k: int,
)
    requires
        changes == snapshot_changes(session_id, from, to),
        0 <= k < from.tasks@.len(),
        forall|j: int| k < j < from.tasks@.len() ==> from.tasks@[j].id@ != from.tasks@[k].id@,
        forall|j: int| 0 <= j < to.tasks@.len() ==> to.tasks@[j].id@ != from.tasks@[k].id@,
    ensures
        exists|m: int| 0 <= m < changes.len() && changes[m] == (ChangeView {
            entity_type: "task"@,
            entity_id: from.tasks@[k].id@,
            field: "removed"@,
            old_value: Some(DiffValue::Task(from.tasks@[k])),
            new_value: None,
        }),
{
    let head = session_change(session_id, "mode"@, from.session.mode, to.session.mode) + session_change(
        session_id,
        "focus_task_id"@,
        from.session.focus_task_id,
        to.session.focus_task_id,
    );
    let mid = changed_tasks(from.tasks@, to.tasks@, to.tasks@.len());
    let tail = removed_tasks(from.tasks@, to.tasks@, from.tasks@.len());
    assert(changes == head + mid + tail);
    lemma_task_named_none(to.tasks@, from.tasks@[k].id@);
    let m = lemma_removed_tasks_hold(from.tasks@, to.tasks@, from.tasks@.len(), k);
    assert(changes[head.len() + mid.len() + m] == tail[m]);
}

/// The diff reports a change of the session's mode and of its focus task,
/// each from the earlier value to the later one, when they differ.
pub proof fn law_session_changes_reported(
    session_id: Seq<char>,
    from: SessionSnapshot,
    to: SessionSnapshot,
    changes: Seq<ChangeView>,
)
    requires
        changes == snapshot_changes(session_id, from, to),
    ensures
        chars_opt(from.session.mode) != chars_opt(to.session.mode) ==> changes[0] == (ChangeView {
            entity_type: "session"@,
            entity_id: session_id,
            field: "mode"@,
            old_value: recorded(from.session.mode),
            new_value: recorded(to.session.mode),
        }),
        chars_opt(from.session.focus_task_id) != chars_opt(to.session.focus_task_id) ==> exists|m: int|
            0 <= m < changes.len() && changes[m] == (ChangeView {
            entity_type: "session"@,
            entity_id: session_id,
            field: "focus_task_id"@,
            old_value: recorded(from.session.focus_task_id),
            new_value: recorded(to.session.focus_task_id),
        }),
{
    let a = session_change(session_id, "mode"@, from.session.mode, to.session.mode);
    let b = session_change(session_id, "focus_task_id"@, from.session.focus_task_id, to.session.focus_task_id);
    let rest = changed_tasks(from.tasks@, to.tasks@, to.tasks@.len()) + removed_tasks(
        from.tasks@,
        to.tasks@,
        from.tasks@.len(),
    );
    assert(changes == a + b + rest);
    if chars_opt(from.session.mode) != chars_opt(to.session.mode) {
        assert(!same_opt(from.session.mode, to.session.mode));
        assert(changes[0] == a[0]);
    }
    if chars_opt(from.session.focus_task_id) != chars_opt(to.session.focus_task_id) {
        assert(!same_opt(from.session.focus_task_id, to.session.focus_task_id));
        assert(changes[a.len() as int] == b[0]);
    }
}

} // verus!
