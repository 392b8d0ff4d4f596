//! Time-gating of the synthetic `task.next` and `project.next` events: an
//! entity is announced again only once its cooldown has passed.
//!
//! Times are milliseconds on a monotonic clock started with the emitter.
use std::time::{Duration, Instant};
use vstd::prelude::*;
use crate::error::GranaryError;
use crate::json::{pair_views, pairs_object_json, pairs_to_json};
use crate::models::event::{EntityType, Event, EventType};
use crate::models::project::Project;
use crate::models::task::Task;
use crate::services::worker_runtime::duration_of_secs;
use crate::text::{owned, text_eq};

verus! {

#[verifier::external_type_specification]
#[verifier::external_body]
pub struct ExInstant(Instant);

/// `Instant::now()`. Nothing is claimed of the value, which depends on the
/// clock.
#[verifier::external_body]
fn instant_now() -> Instant {
    Instant::now()
}

/// `origin.elapsed().as_millis()`. Nothing is claimed of the value, which
/// depends on the clock.
#[verifier::external_body]
fn millis_since(origin: &Instant) -> u128 {
    origin.elapsed().as_millis()
}

/// `Duration::from_secs`, shared with the worker runtime's name for it.
#[verifier::external_body]
fn secs_to_duration(secs: u64) -> (r: Duration)
    ensures
        r == duration_of_secs(secs),
{
    Duration::from_secs(secs)
}

/// Milliseconds from `at` to `now` (none when `at` is later).
pub open spec fn elapsed(now: u128, at: u128) -> nat {
    if now >= at {
        (now - at) as nat
    } else {
        0
    }
}

/// The emission time recorded for `id`.
pub open spec fn emitted(entries: Seq<(String, u128)>, id: Seq<char>) -> Option<u128>
    decreases entries.len(),
{
    if entries.len() == 0 {
        None
    } else if entries.last().0@ == id {
        Some(entries.last().1)
    } else {
        emitted(entries.drop_last(), id)
    }
}

/// The entries emitted less than `limit` milliseconds before `now`, in order.
pub open spec fn recent(entries: Seq<(String, u128)>, now: u128, limit: nat) -> Seq<(String, u128)>
    decreases entries.len(),
{
    if entries.len() == 0 {
        Seq::empty()
    } else {
        recent(entries.drop_last(), now, limit) + if elapsed(now, entries.last().1) < limit {
            seq![entries.last()]
        } else {
            Seq::empty()
        }
    }
}

/// No entity is recorded twice.
pub open spec fn ids_distinct(entries: Seq<(String, u128)>) -> bool {
    forall|i: int, j: int| 0 <= i < j < entries.len() ==> entries[i].0@ != entries[j].0@
}

/// When each entity was last announced, and how long it then stays quiet.
#[derive(Debug)]
pub struct PolledEventEmitter {
    emitted_at: Vec<(String, u128)>,
    cooldown_secs: u64,
    origin: Instant,
}

impl PolledEventEmitter {
    #[verifier::type_invariant]
    spec fn wf(self) -> bool {
        ids_distinct(self.emitted_at@)
    }

    /// Entities and when they were last announced, in milliseconds.
    pub closed spec fn entries(self) -> Seq<(String, u128)> {
        self.emitted_at@
    }

    /// The cooldown, in seconds.
    pub closed spec fn cooldown_spec(self) -> u64 {
        self.cooldown_secs
    }

    /// The cooldown, in milliseconds.
    pub open spec fn cooldown_ms(self) -> nat {
        self.cooldown_spec() as nat * 1000
    }

    /// `id` was announced less than the cooldown before `now`.
    pub open spec fn in_cooldown_at(self, id: Seq<char>, now: u128) -> bool {
        emitted(self.entries(), id) matches Some(t) && elapsed(now, t) < self.cooldown_ms()
    }

    /// An emitter with no announcements and a cooldown of `cooldown_secs`
    /// seconds (a negative count wraps, as a cast to `u64` does).
    pub fn new(cooldown_secs: i64) -> (r: PolledEventEmitter)
        ensures
            r.entries().len() == 0,
            r.cooldown_spec() == cooldown_secs as u64,
    {
        PolledEventEmitter { emitted_at: Vec::new(), cooldown_secs: cooldown_secs as u64, origin: instant_now() }
    }

    /// The cooldown.
    pub fn cooldown(&self) -> (r: Duration)
        ensures
            r == duration_of_secs(self.cooldown_spec()),
    {
        secs_to_duration(self.cooldown_secs)
    }

    /// The number of entities recorded.
    pub fn tracked_count(&self) -> (r: usize)
        ensures
            r == self.entries().len(),
    {
        self.emitted_at.len()
    }

    /// The index of `id`'s entry.
    fn index_of(&self, id: &str) -> (r: Option<usize>)
        ensures
            match r {
                Some(i) => i < self.emitted_at@.len() && self.emitted_at@[i as int].0@ == id@,
                None => forall|j: int| 0 <= j < self.emitted_at@.len() ==> self.emitted_at@[j].0@ != id@,
            },
    {
        let mut i: usize = 0;
        while i < self.emitted_at.len()
            invariant
                0 <= i <= self.emitted_at@.len(),
                forall|j: int| 0 <= j < i ==> self.emitted_at@[j].0@ != id@,
            decreases self.emitted_at@.len() - i,
        {
            if text_eq(self.emitted_at[i].0.as_str(), id) {
                return Some(i);
            }
            i = i + 1;
        }
        None
    }

    /// Whether `id` is recorded.
    pub fn is_tracked(&self, id: &str) -> (r: bool)
        ensures
            r == (emitted(self.entries(), id@) is Some),
    {
        proof {
            use_type_invariant(self);
        }
        match self.index_of(id) {
            Some(i) => {
                proof {
                    lemma_emitted_at(self.emitted_at@, i as int);
                }
                true
            },
            None => {
                proof {
                    lemma_emitted_none(self.emitted_at@, id@);
                }
                false
            },
        }
    }

    /// Whether `id` was announced less than the cooldown before `now`.
    pub fn is_in_cooldown_at(&self, id: &str, now: u128) -> (r: bool)
        ensures
            r == self.in_cooldown_at(id@, now),
    {
        proof {
            use_type_invariant(self);
        }
        match self.index_of(id) {
            Some(i) => {
                proof {
                    lemma_emitted_at(self.emitted_at@, i as int);
                }
                let t = self.emitted_at[i].1;
                let since: u128 = if now >= t { now - t } else { 0 };
                since < (self.cooldown_secs as u128) * 1000
            },
            None => {
                proof {
                    lemma_emitted_none(self.emitted_at@, id@);
                }
                false
            },
        }
    }

    /// Whether `id` is in its cooldown now.
    pub fn is_in_cooldown(&self, id: &str) -> (r: bool)
        ensures
            r ==> emitted(self.entries(), id@) is Some,
            exists|now: u128| r == #[trigger] self.in_cooldown_at(id@, now),
    {
        let now = millis_since(&self.origin);
        self.is_in_cooldown_at(id, now)
    }

    /// Records that `id` was announced at `now`.
    pub fn mark_emitted_at(&mut self, id: String, now: u128)
        ensures
            emitted(final(self).entries(), id@) == Some(now),
            forall|other: Seq<char>| other != id@ ==> emitted(final(self).entries(), other) == emitted(
                old(self).entries(),
                other,
            ),
            final(self).cooldown_spec() == old(self).cooldown_spec(),
    {
        proof {
            use_type_invariant(&*self);
        }
        let ghost before = self.emitted_at@;
        let mut entries: Vec<(String, u128)> = Vec::new();
        std::mem::swap(&mut entries, &mut self.emitted_at);
        let found = position(&entries, id.as_str());
        match found {
            Some(i) => {
                entries.set(i, (id, now));
                proof {
                    lemma_emitted_at(entries@, i as int);
                    assert forall|other: Seq<char>| other != entries@[i as int].0@ implies emitted(entries@, other)
                        == emitted(before, other) by {
                        lemma_emitted_same_except(before, entries@, i as int, other);
                    }
                }
            },
            None => {
                let ghost e = (id, now);
                entries.push((id, now));
                proof {
                    assert(entries@.drop_last() =~= before);
                    assert forall|a: int, b: int| 0 <= a < b < entries@.len() implies entries@[a].0@ != entries@[b].0@ by {
                        if b < before.len() {
                            assert(entries@[a] == before[a] && entries@[b] == before[b]);
                        } else {
                            assert(entries@[a] == before[a]);
                        }
                    }
                }
            },
        }
        self.emitted_at = entries;
    }

    /// Announces, at `now`, each of `ids` that is not in its cooldown, in
/// order (an id announced earlier in the same call is in its cooldown
/// again, unless the cooldown is zero). Gives the positions announced.
pub fn announce_at(&mut self, ids: &Vec<String>, now: u128) -> (r: Vec<usize>)
    ensures
        r@ == announced_positions(old(self).entries(), old(self).cooldown_ms(), ids@, now, ids.len() as nat),
        forall|id: Seq<char>| #[trigger] emitted(final(self).entries(), id) == (if announced_ids(ids@, r@).contains(id) {
            Some(now)
        } else {
            emitted(old(self).entries(), id)
        }),
        final(self).cooldown_spec() == old(self).cooldown_spec(),
{
    let ghost start = self.entries();
    let ghost cd = self.cooldown_ms();
    let mut out: Vec<usize> = Vec::new();
    let mut k: usize = 0;
    while k < ids.len()
        invariant
            k <= ids.len(),
            cd == self.cooldown_ms(),
            self.cooldown_spec() == old(self).cooldown_spec(),
            start == old(self).entries(),
            out@ == announced_positions(start, cd, ids@, now, k as nat),
            forall|p: int| 0 <= p < out@.len() ==> (#[trigger] out@[p]) < k,
            forall|id: Seq<char>| #[trigger] emitted(self.entries(), id) == (if announced_ids(ids@, out@).contains(id) {
                Some(now)
            } else {
                emitted(start, id)
            }),
        decreases ids.len() - k,
    {
        let cooling = self.is_in_cooldown_at(ids[k].as_str(), now);
        let ghost id = ids@[k as int]@;
        let ghost pre = out@;
        proof {
            if announced_ids(ids@, pre).contains(id) {
                assert(emitted(self.entries(), id) == Some(now));
                assert(elapsed(now, now) == 0);
            }
        }
        if !cooling {
            self.mark_emitted_at(ids[k].clone(), now);
            out.push(k);
            proof {
                assert(announced_ids(ids@, out@) =~= announced_ids(ids@, pre).push(id));
                assert forall|other: Seq<char>| #[trigger] emitted(self.entries(), other) == (if announced_ids(
                    ids@,
                    out@,
                ).contains(other) {
                    Some(now)
                } else {
                    emitted(start, other)
                }) by {
                    lemma_push_contains(announced_ids(ids@, pre), id, other);
                }
            }
        }
        k = k + 1;
    }
    out
}

/// Announces the tasks not in their cooldown as `task.next` events made at
/// `created_at`, recording each at `now`. It always succeeds.
pub fn task_next_events_at(&mut self, tasks: &Vec<Task>, now: u128, created_at: &str) -> (r: Result<
    Vec<Event>,
    GranaryError,
>)
    ensures
        r matches Ok(events) ==> task_events_at(old(self).entries(), old(self).cooldown_ms(), tasks@, now, created_at@, events@),
        r is Ok,
        final(self).cooldown_spec() == old(self).cooldown_spec(),
{
    let mut ids: Vec<String> = Vec::new();
    let mut i: usize = 0;
    while i < tasks.len()
        invariant
            i <= tasks.len(),
            ids@.len() == i,
            forall|j: int| 0 <= j < i ==> #[trigger] ids@[j] == tasks@[j].id,
        decreases tasks.len() - i,
    {
        ids.push(tasks[i].id.clone());
        i = i + 1;
    }
    assert(ids@ =~= task_ids(tasks@));
    let pos = self.announce_at(&ids, now);
    proof {
        lemma_positions_below(old(self).entries(), old(self).cooldown_ms(), ids@, now, ids.len() as nat);
    }
    let mut events: Vec<Event> = Vec::new();
    let mut k: usize = 0;
    while k < pos.len()
        invariant
            k <= pos.len(),
            ids@.len() == tasks.len(),
            forall|p: int| 0 <= p < pos@.len() ==> (#[trigger] pos@[p]) < tasks.len(),
            events@.len() == k,
            self.cooldown_spec() == old(self).cooldown_spec(),
            forall|j: int| 0 <= j < k ==> is_task_event(#[trigger] events@[j], tasks@[pos@[j] as int], created_at@),
        decreases pos.len() - k,
    {
        let t = &tasks[pos[k]];
        let e = synthetic_task_event(EventType::TaskNext, t, created_at)?;
        events.push(e);
        k = k + 1;
    }
    Ok(events)
}

/// Announces the projects not in their cooldown as `project.next` events
/// made at `created_at`, recording each at `now`. It always succeeds.
pub fn project_next_events_at(&mut self, projects: &Vec<Project>, now: u128, created_at: &str) -> (r: Result<
    Vec<Event>,
    GranaryError,
>)
    ensures
        r matches Ok(events) ==> project_events_at(old(self).entries(), old(self).cooldown_ms(), projects@, now, created_at@, events@),
        r is Ok,
        final(self).cooldown_spec() == old(self).cooldown_spec(),
{
    let mut ids: Vec<String> = Vec::new();
    let mut i: usize = 0;
    while i < projects.len()
        invariant
            i <= projects.len(),
            ids@.len() == i,
            forall|j: int| 0 <= j < i ==> #[trigger] ids@[j] == projects@[j].id,
        decreases projects.len() - i,
    {
        ids.push(projects[i].id.clone());
        i = i + 1;
    }
    assert(ids@ =~= project_ids(projects@));
    let pos = self.announce_at(&ids, now);
    proof {
        lemma_positions_below(old(self).entries(), old(self).cooldown_ms(), ids@, now, ids.len() as nat);
    }
    let mut events: Vec<Event> = Vec::new();
    let mut k: usize = 0;
    while k < pos.len()
        invariant
            k <= pos.len(),
            ids@.len() == projects.len(),
            forall|p: int| 0 <= p < pos@.len() ==> (#[trigger] pos@[p]) < projects.len(),
            events@.len() == k,
            self.cooldown_spec() == old(self).cooldown_spec(),
            forall|j: int| 0 <= j < k ==> is_project_event(#[trigger] events@[j], projects@[pos@[j] as int], created_at@),
        decreases pos.len() - k,
    {
        let p = &projects[pos[k]];
        let e = synthetic_project_event(EventType::ProjectNext, p, created_at)?;
        events.push(e);
        k = k + 1;
    }
    Ok(events)
}

/// After a poll that announced `announced` entities: forgets the stale
/// entries when something was announced or more than a hundred entities are
/// recorded, else keeps them all.
pub fn tidy_at(&mut self, announced: usize, now: u128)
    ensures
        final(self).entries() == (if announced > 0 || old(self).entries().len() > 100 {
            recent(old(self).entries(), now, 2 * old(self).cooldown_ms())
        } else {
            old(self).entries()
        }),
        final(self).cooldown_spec() == old(self).cooldown_spec(),
{
    if announced > 0 || self.tracked_count() > 100 {
        self.cleanup_stale_entries_at(now);
    }
}

/// Announces now the tasks not in their cooldown as `task.next` events, as
/// [`Self::task_next_events_at`] does at the emitter's clock reading, with
/// the wall clock's reading as the events' time; then tidies the record
/// (see [`Self::tidy_at`]). It always succeeds.
pub fn poll_task_next(&mut self, tasks: &Vec<Task>) -> (r: Result<Vec<Event>, GranaryError>)
    ensures
        r matches Ok(events) ==> exists|now: u128, created_at: Seq<char>| #[trigger] task_events_at(
            old(self).entries(),
            old(self).cooldown_ms(),
            tasks@,
            now,
            created_at,
            events@,
        ),
        r is Ok,
        final(self).cooldown_spec() == old(self).cooldown_spec(),
{
    let now = millis_since(&self.origin);
    let created_at = crate::clock::now_rfc3339();
    let events = self.task_next_events_at(tasks, now, &created_at)?;
    self.tidy_at(events.len(), now);
    Ok(events)
}

/// Announces now the projects not in their cooldown as `project.next`
/// events, as [`Self::project_next_events_at`] does at the emitter's clock
/// reading, with the wall clock's reading as the events' time; then tidies
/// the record (see [`Self::tidy_at`]). It always succeeds.
pub fn poll_project_next(&mut self, projects: &Vec<Project>) -> (r: Result<Vec<Event>, GranaryError>)
    ensures
        r matches Ok(events) ==> exists|now: u128, created_at: Seq<char>| #[trigger] project_events_at(
            old(self).entries(),
            old(self).cooldown_ms(),
            projects@,
            now,
            created_at,
            events@,
        ),
        r is Ok,
        final(self).cooldown_spec() == old(self).cooldown_spec(),
{
    let now = millis_since(&self.origin);
    let created_at = crate::clock::now_rfc3339();
    let events = self.project_next_events_at(projects, now, &created_at)?;
    self.tidy_at(events.len(), now);
    Ok(events)
}

/// Records that `id` was announced now.
    pub fn mark_emitted(&mut self, id: String)
        ensures
            exists|now: u128| emitted(final(self).entries(), id@) == Some(now),
            forall|other: Seq<char>| other != id@ ==> emitted(final(self).entries(), other) == emitted(
                old(self).entries(),
                other,
            ),
            final(self).cooldown_spec() == old(self).cooldown_spec(),
    {
        let now = millis_since(&self.origin);
        self.mark_emitted_at(id, now);
    }

    /// Forgets the entities announced twice the cooldown or more before
    /// `now`; the others are kept, in order.
    pub fn cleanup_stale_entries_at(&mut self, now: u128)
        ensures
            final(self).entries() == recent(old(self).entries(), now, 2 * old(self).cooldown_ms()),
            final(self).cooldown_spec() == old(self).cooldown_spec(),
    {
        proof {
            use_type_invariant(&*self);
        }
        let limit: u128 = (self.cooldown_secs as u128) * 2000;
        let mut kept: Vec<(String, u128)> = Vec::new();
        let mut i: usize = 0;
        let ghost all = self.emitted_at@;
        assert(all.take(0) =~= Seq::<(String, u128)>::empty());
        while i < self.emitted_at.len()
            invariant
                0 <= i <= all.len(),
                all == self.emitted_at@,
                ids_distinct(all),
                limit == 2 * self.cooldown_ms(),
                kept@ == recent(all.take(i as int), now, limit as nat),
            decreases all.len() - i,
        {
            let t = self.emitted_at[i].1;
            let since: u128 = if now >= t { now - t } else { 0 };
            proof {
                assert(all.take(i as int + 1).drop_last() =~= all.take(i as int));
                assert(all.take(i as int + 1).last() == all[i as int]);
            }
            let ghost before = kept@;
            if since < limit {
                kept.push((self.emitted_at[i].0.clone(), t));
                assert(kept@ =~= before + seq![all[i as int]]);
            } else {
                assert(kept@ =~= before + Seq::<(String, u128)>::empty());
            }
            i = i + 1;
        }
        assert(all.take(all.len() as int) =~= all);
        proof {
            lemma_recent_distinct(all, now, limit as nat);
        }
        self.emitted_at = kept;
    }

    /// Forgets the entities announced twice the cooldown or more ago.
    pub fn cleanup_stale_entries(&mut self)
        ensures
            exists|now: u128| final(self).entries() == #[trigger] recent(old(self).entries(), now, 2 * old(self).cooldown_ms()),
            final(self).cooldown_spec() == old(self).cooldown_spec(),
    {
        let now = millis_since(&self.origin);
        self.cleanup_stale_entries_at(now);
    }
}

/// The index of `id`'s entry in `entries`.
fn position(entries: &Vec<(String, u128)>, id: &str) -> (r: Option<usize>)
    ensures
        match r {
            Some(i) => i < entries@.len() && entries@[i as int].0@ == id@,
            None => forall|j: int| 0 <= j < entries@.len() ==> entries@[j].0@ != id@,
        },
{
    let mut i: usize = 0;
    while i < entries.len()
        invariant
            0 <= i <= entries@.len(),
            forall|j: int| 0 <= j < i ==> entries@[j].0@ != id@,
        decreases entries@.len() - i,
    {
        if text_eq(entries[i].0.as_str(), id) {
            return Some(i);
        }
        i = i + 1;
    }
    None
}

proof fn lemma_emitted_at(entries: Seq<(String, u128)>, i: int)
    requires
        ids_distinct(entries),
        0 <= i < entries.len(),
    ensures
        emitted(entries, entries[i].0@) == Some(entries[i].1),
    decreases entries.len(),
{
    if i < entries.len() - 1 {
        lemma_emitted_at(entries.drop_last(), i);
    }
}

proof fn lemma_emitted_none(entries: Seq<(String, u128)>, id: Seq<char>)
    requires
        forall|j: int| 0 <= j < entries.len() ==> entries[j].0@ != id,
    ensures
        emitted(entries, id) is None,
    decreases entries.len(),
{
    if entries.len() > 0 {
        lemma_emitted_none(entries.drop_last(), id);
    }
}

proof fn lemma_emitted_same_except(a: Seq<(String, u128)>, b: Seq<(String, u128)>, i: int, key: Seq<char>)
    requires
        a.len() == b.len(),
        0 <= i < a.len(),
        a[i].0@ == b[i].0@,
        b[i].0@ != key,
        forall|j: int| 0 <= j < a.len() && j != i ==> b[j] == a[j],
    ensures
        emitted(b, key) == emitted(a, key),
    decreases a.len(),
{
    if i < a.len() - 1 {
        lemma_emitted_same_except(a.drop_last(), b.drop_last(), i, key);
    } else {
        assert(a.drop_last() =~= b.drop_last());
    }
}

/// Keeping some entries of entries with distinct ids keeps them distinct.
proof fn lemma_recent_distinct(entries: Seq<(String, u128)>, now: u128, limit: nat)
    requires
        ids_distinct(entries),
    ensures
        ids_distinct(recent(entries, now, limit)),
        forall|j: int| 0 <= j < recent(entries, now, limit).len() ==> exists|k: int|
            0 <= k < entries.len() && #[trigger] recent(entries, now, limit)[j] == entries[k],
    decreases entries.len(),
{
    if entries.len() > 0 {
        let d = entries.drop_last();
        lemma_recent_distinct(d, now, limit);
        let r = recent(entries, now, limit);
        let rd = recent(d, now, limit);
        assert forall|j: int| 0 <= j < r.len() implies exists|k: int| 0 <= k < entries.len() && #[trigger] r[j]
            == entries[k] by {
            if j < rd.len() {
                assert(r[j] == rd[j]);
                let k = choose|k: int| 0 <= k < d.len() && rd[j] == d[k];
                assert(d[k] == entries[k]);
            } else {
                assert(r[j] == entries.last());
                assert(entries.last() == entries[entries.len() - 1]);
            }
        }
        assert forall|a: int, b: int| 0 <= a < b < r.len() implies r[a].0@ != r[b].0@ by {
            if b < rd.len() {
                assert(r[a] == rd[a] && r[b] == rd[b]);
            } else {
                assert(r[a] == rd[a]);
                assert(r[b] == entries.last());
                let k = choose|k: int| 0 <= k < d.len() && rd[a] == d[k];
                assert(d[k] == entries[k]);
            }
        }
    }
}

/// Announcing an entity puts it in its cooldown (when the cooldown is not
/// zero), and another entity is not affected.
pub proof fn law_marked_entity_in_cooldown(
    before: PolledEventEmitter,
    after: PolledEventEmitter,
    id: Seq<char>,
    now: u128,
    other: Seq<char>,
)
    requires
        emitted(after.entries(), id) == Some(now),
        forall|o: Seq<char>| o != id ==> emitted(after.entries(), o) == emitted(before.entries(), o),
        after.cooldown_spec() == before.cooldown_spec(),
        after.cooldown_spec() > 0,
        other != id,
    ensures
        emitted(after.entries(), id) matches Some(t) && elapsed(now, t) < after.cooldown_ms(),
        emitted(after.entries(), other) == emitted(before.entries(), other),
{
}

/// The ids announced at the positions `pos` of `ids`.
pub open spec fn announced_ids(ids: Seq<String>, pos: Seq<usize>) -> Seq<Seq<char>> {
    pos.map_values(|k: usize| ids[k as int]@)
}

/// The positions of the first `n` of `ids` that an emitter whose
/// announcements were `entries` announces at `now`: an id is announced
/// unless it is in its cooldown, counting the announcements made for the
/// positions before it.
pub open spec fn announced_positions(entries: Seq<(String, u128)>, cooldown_ms: nat, ids: Seq<String>, now: u128, n: nat) -> Seq<usize>
    decreases n,
{
    if n == 0 {
        Seq::empty()
    } else {
        let pre = announced_positions(entries, cooldown_ms, ids, now, (n - 1) as nat);
        let id = ids[n - 1]@;
        let cooling = if announced_ids(ids, pre).contains(id) {
            cooldown_ms > 0
        } else {
            emitted(entries, id) matches Some(t) && elapsed(now, t) < cooldown_ms
        };
        if cooling { pre } else { pre.push((n - 1) as usize) }
    }
}

proof fn lemma_positions_below(entries: Seq<(String, u128)>, cooldown_ms: nat, ids: Seq<String>, now: u128, n: nat)
    ensures
        forall|p: int| 0 <= p < announced_positions(entries, cooldown_ms, ids, now, n).len()
            ==> (#[trigger] announced_positions(entries, cooldown_ms, ids, now, n)[p]) < n,
    decreases n,
{
    if n > 0 {
        lemma_positions_below(entries, cooldown_ms, ids, now, (n - 1) as nat);
        let pre = announced_positions(entries, cooldown_ms, ids, now, (n - 1) as nat);
        let cur = announced_positions(entries, cooldown_ms, ids, now, n);
        assert forall|p: int| 0 <= p < cur.len() implies (#[trigger] cur[p]) < n by {
            if p < pre.len() {
                assert(cur[p] == pre[p]);
            }
        }
    }
}

proof fn lemma_push_contains(s: Seq<Seq<char>>, x: Seq<char>, y: Seq<char>)
    ensures
        s.push(x).contains(y) == (s.contains(y) || x == y),
{
    if s.contains(y) {
        let i = choose|i: int| 0 <= i < s.len() && s[i] == y;
        assert(s.push(x)[i] == y);
    }
    if x == y {
        assert(s.push(x)[s.len() as int] == y);
    }
    if s.push(x).contains(y) {
        let i = choose|i: int| 0 <= i < s.push(x).len() && s.push(x)[i] == y;
        if i < s.len() {
            assert(s[i] == y);
        }
    }
}

/// The ids of the tasks.
pub open spec fn task_ids(tasks: Seq<Task>) -> Seq<String> {
    tasks.map_values(|t: Task| t.id)
}

/// The ids of the projects.
pub open spec fn project_ids(projects: Seq<Project>) -> Seq<String> {
    projects.map_values(|p: Project| p.id)
}

/// The payload of a task's synthetic event: its title, project, priority and
/// status.
pub open spec fn task_payload(t: Task) -> Seq<(Seq<char>, Seq<char>)> {
    seq![("title"@, t.title@), ("project_id"@, t.project_id@), ("priority"@, t.priority@), ("status"@, t.status@)]
}

/// The payload of a project's synthetic event: its name and status.
pub open spec fn project_payload(p: Project) -> Seq<(Seq<char>, Seq<char>)> {
    seq![("name"@, p.name@), ("status"@, p.status@)]
}

/// `events` are the `task.next` events made at `created_at` for the tasks
/// that a poll at `now` announces, in order.
pub open spec fn task_events_at(
    entries: Seq<(String, u128)>,
    cooldown_ms: nat,
    tasks: Seq<Task>,
    now: u128,
    created_at: Seq<char>,
    events: Seq<Event>,
) -> bool {
    let pos = announced_positions(entries, cooldown_ms, task_ids(tasks), now, tasks.len() as nat);
    &&& events.len() == pos.len()
    &&& forall|i: int| 0 <= i < pos.len() ==> is_task_event(#[trigger] events[i], tasks[pos[i] as int], created_at)
}

/// `events` are the `project.next` events made at `created_at` for the
/// projects that a poll at `now` announces, in order.
pub open spec fn project_events_at(
    entries: Seq<(String, u128)>,
    cooldown_ms: nat,
    projects: Seq<Project>,
    now: u128,
    created_at: Seq<char>,
    events: Seq<Event>,
) -> bool {
    let pos = announced_positions(entries, cooldown_ms, project_ids(projects), now, projects.len() as nat);
    &&& events.len() == pos.len()
    &&& forall|i: int| 0 <= i < pos.len() ==> is_project_event(#[trigger] events[i], projects[pos[i] as int], created_at)
}

/// `e` is the synthetic `task.next` event of `t`, made at `created_at`.
pub open spec fn is_task_event(e: Event, t: Task, created_at: Seq<char>) -> bool {
    &&& e.id == 0
    &&& e.event_type@ == EventType::TaskNext.name()
    &&& e.entity_type@ == EntityType::Task.name()
    &&& e.entity_id == t.id
    &&& e.actor is None
    &&& e.session_id is None
    &&& e.payload@ == pairs_object_json(task_payload(t))
    &&& e.created_at@ == created_at
}

/// `e` is the synthetic `project.next` event of `p`, made at `created_at`.
pub open spec fn is_project_event(e: Event, p: Project, created_at: Seq<char>) -> bool {
    &&& e.id == 0
    &&& e.event_type@ == EventType::ProjectNext.name()
    &&& e.entity_type@ == EntityType::Project.name()
    &&& e.entity_id == p.id
    &&& e.actor is None
    &&& e.session_id is None
    &&& e.payload@ == pairs_object_json(project_payload(p))
    &&& e.created_at@ == created_at
}

fn synthetic_task_event(event_type: EventType, t: &Task, created_at: &str) -> (r: Result<Event, GranaryError>)
    requires
        event_type == EventType::TaskNext,
    ensures
        r matches Ok(e) ==> is_task_event(e, *t, created_at@),
        r is Ok,
{
    let pairs: Vec<(String, String)> = vec![
        (owned("title"), t.title.clone()),
        (owned("project_id"), t.project_id.clone()),
        (owned("priority"), t.priority.clone()),
        (owned("status"), t.status.clone()),
    ];
    assert(pair_views(pairs@) =~= task_payload(*t));
    let payload = match pairs_to_json(&pairs) {
        Ok(p) => p,
        Err(e) => {
            return Err(GranaryError::Json(e));
        },
    };
    Ok(Event {
        id: 0,
        event_type: event_type.as_str(),
        entity_type: owned(EntityType::Task.as_str()),
        entity_id: t.id.clone(),
        actor: None,
        session_id: None,
        payload,
        created_at: owned(created_at),
    })
}

fn synthetic_project_event(event_type: EventType, p: &Project, created_at: &str) -> (r: Result<Event, GranaryError>)
    requires
        event_type == EventType::ProjectNext,
    ensures
        r matches Ok(e) ==> is_project_event(e, *p, created_at@),
        r is Ok,
{
    let pairs: Vec<(String, String)> = vec![(owned("name"), p.name.clone()), (owned("status"), p.status.clone())];
    assert(pair_views(pairs@) =~= project_payload(*p));
    let payload = match pairs_to_json(&pairs) {
        Ok(x) => x,
        Err(e) => {
            return Err(GranaryError::Json(e));
        },
    };
    Ok(Event {
        id: 0,
        event_type: event_type.as_str(),
        entity_type: owned(EntityType::Project.as_str()),
        entity_id: p.id.clone(),
        actor: None,
        session_id: None,
        payload,
        created_at: owned(created_at),
    })
}

} // verus!
