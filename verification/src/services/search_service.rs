//! Search: which records a full-text match names, and the hits put back in
//! the order of relevance that the index gave.
//!
//! The caller runs the full-text query and reads the named records; these
//! functions decide what is read and in which order it is shown.
use vstd::prelude::*;
use crate::models::search::SearchResult;
use crate::text::{text_eq, views};

verus! {

/// The entity type and id of a hit.
pub open spec fn result_key(r: SearchResult) -> (Seq<char>, Seq<char>) {
    match r {
        SearchResult::Initiative { id, .. } => ("initiative"@, id@),
        SearchResult::Project { id, .. } => ("project"@, id@),
        SearchResult::Task { id, .. } => ("task"@, id@),
    }
}

/// The ids of the matches of the entity type `kind`, in order.
pub open spec fn ids_of_kind(matches: Seq<(String, String)>, kind: Seq<char>) -> Seq<Seq<char>> {
    matches.filter(|m: (String, String)| m.0@ == kind).map_values(|m: (String, String)| m.1@)
}

fn ids_of(matches: &Vec<(String, String)>, kind: &str) -> (r: Vec<String>)
    ensures
        views(r@) == ids_of_kind(matches@, kind@),
{
    let ghost pred = |m: (String, String)| m.0@ == kind@;
    let ghost f = |m: (String, String)| m.1@;
    let mut out: Vec<String> = Vec::new();
    let mut i: usize = 0;
    while i < matches.len()
        invariant
            i <= matches.len(),
            pred == (|m: (String, String)| m.0@ == kind@),
            f == (|m: (String, String)| m.1@),
            views(out@) == matches@.take(i as int).filter(pred).map_values(f),
        decreases matches.len() - i,
    {
        assert(matches@.take(i as int + 1).drop_last() =~= matches@.take(i as int));
        proof { reveal_with_fuel(Seq::filter, 1); }
        let ghost fb = matches@.take(i as int).filter(pred);
        let ghost before = out@;
        if text_eq(matches[i].0.as_str(), kind) {
            out.push(matches[i].1.clone());
            assert(fb.push(matches@[i as int]).map_values(f) =~= fb.map_values(f).push(f(matches@[i as int])));
            assert(views(out@) =~= views(before).push(matches@[i as int].1@));
        }
        i = i + 1;
    }
    assert(matches@.take(i as int) =~= matches@);
    out
}

/// The ids to read for the matches `(entity type, id)`: the projects, the
/// tasks and the initiatives, each in match order. Matches of other types
/// are left out.
pub fn ids_to_read(matches: &Vec<(String, String)>) -> (r: (Vec<String>, Vec<String>, Vec<String>))
    ensures
        views(r.0@) == ids_of_kind(matches@, "project"@),
        views(r.1@) == ids_of_kind(matches@, "task"@),
        views(r.2@) == ids_of_kind(matches@, "initiative"@),
{
    (ids_of(matches, "project"), ids_of(matches, "task"), ids_of(matches, "initiative"))
}

/// The last hit of `found` with the key `key`.
pub open spec fn last_with_key(found: Seq<SearchResult>, key: (Seq<char>, Seq<char>)) -> Option<SearchResult>
    decreases found.len(),
{
    if found.len() == 0 {
        None
    } else if result_key(found.last()) == key {
        Some(found.last())
    } else {
        last_with_key(found.drop_last(), key)
    }
}

/// The hits of `found` without the key `key`.
pub open spec fn without_key(found: Seq<SearchResult>, key: (Seq<char>, Seq<char>)) -> Seq<SearchResult> {
    found.filter(|r: SearchResult| result_key(r) != key)
}

/// The hits in match order: for each match, the hit read for it (the last
/// one, when it was read more than once), each key at most once, and
/// nothing for a match whose record was not found.
pub open spec fn reassembled(order: Seq<(String, String)>, found: Seq<SearchResult>) -> Seq<SearchResult>
    decreases order.len(),
{
    if order.len() == 0 {
        Seq::empty()
    } else {
        let key = (order[0].0@, order[0].1@);
        match last_with_key(found, key) {
            Some(r) => seq![r] + reassembled(order.drop_first(), without_key(found, key)),
            None => reassembled(order.drop_first(), found),
        }
    }
}

proof fn lemma_no_key_nothing_removed(found: Seq<SearchResult>, key: (Seq<char>, Seq<char>))
    requires
        last_with_key(found, key) is None,
    ensures
        without_key(found, key) == found,
    decreases found.len(),
{
    reveal_with_fuel(Seq::filter, 1);
    if found.len() > 0 {
        lemma_no_key_nothing_removed(found.drop_last(), key);
        assert(found.drop_last().push(found.last()) =~= found);
    }
}

fn key_matches(r: &SearchResult, kind: &str, id: &str) -> (b: bool)
    ensures
        b == (result_key(*r) == (kind@, id@)),
{
    match r {
        SearchResult::Initiative { id: rid, .. } => text_eq(kind, "initiative") && text_eq(rid.as_str(), id),
        SearchResult::Project { id: rid, .. } => text_eq(kind, "project") && text_eq(rid.as_str(), id),
        SearchResult::Task { id: rid, .. } => text_eq(kind, "task") && text_eq(rid.as_str(), id),
    }
}

/// Takes the hits with the key `(kind, id)` out of `found`: the last of
/// them, and the others left.
fn take_key(found: Vec<SearchResult>, kind: &str, id: &str) -> (r: (Option<SearchResult>, Vec<SearchResult>))
    ensures
        r.0 == last_with_key(found@, (kind@, id@)),
        r.1@ == without_key(found@, (kind@, id@)),
{
    let ghost key = (kind@, id@);
    let ghost all = found@;
    let ghost pred = |r: SearchResult| result_key(r) != key;
    let mut rest = found;
    let total: usize = rest.len();
    let mut kept: Vec<SearchResult> = Vec::new();
    let mut hit: Option<SearchResult> = None;
    let mut i: usize = 0;
    while rest.len() > 0
        invariant
            i + rest.len() == all.len(),
            all.len() == total,
            rest@ == all.skip(i as int),
            pred == (|r: SearchResult| result_key(r) != key),
            key == (kind@, id@),
            kept@ == all.take(i as int).filter(pred),
            hit == last_with_key(all.take(i as int), key),
        decreases rest.len(),
    {
        let r = rest.remove(0);
        assert(r == all[i as int]);
        assert(rest@ =~= all.skip(i as int + 1));
        assert(all.take(i as int + 1).drop_last() =~= all.take(i as int));
        proof { reveal_with_fuel(Seq::filter, 1); }
        if key_matches(&r, kind, id) {
            hit = Some(r);
        } else {
            kept.push(r);
        }
        i = i + 1;
    }
    assert(all.take(i as int) =~= all);
    (hit, kept)
}

/// The hits read for the matches, put back in match order (see
/// [`reassembled`]).
pub fn reassemble(order: &Vec<(String, String)>, found: Vec<SearchResult>) -> (r: Vec<SearchResult>)
    ensures
        r@ == reassembled(order@, found@),
{
    let ghost start = found@;
    let mut remaining = found;
    let mut out: Vec<SearchResult> = Vec::new();
    let mut i: usize = 0;
    assert(order@.skip(0) =~= order@);
    while i < order.len()
        invariant
            i <= order.len(),
            out@ + reassembled(order@.skip(i as int), remaining@) == reassembled(order@, start),
        decreases order.len() - i,
    {
        let ghost rest_order = order@.skip(i as int);
        assert(rest_order.drop_first() =~= order@.skip(i as int + 1));
        assert(rest_order[0] == order@[i as int]);
        let (hit, others) = take_key(remaining, order[i].0.as_str(), order[i].1.as_str());
        match hit {
            Some(h) => {
                let ghost before = out@;
                out.push(h);
                assert(out@ =~= before + seq![h]);
                assert(before + (seq![h] + reassembled(order@.skip(i as int + 1), others@)) =~= out@ + reassembled(
                    order@.skip(i as int + 1),
                    others@,
                ));
                remaining = others;
            },
            None => {
                proof {
                    lemma_no_key_nothing_removed(remaining@, (order@[i as int].0@, order@[i as int].1@));
                }
                remaining = others;
            },
        }
        i = i + 1;
    }
    assert(reassembled(order@.skip(i as int), remaining@) == Seq::<SearchResult>::empty());
    assert(out@ + Seq::<SearchResult>::empty() =~= out@);
    out
}

proof fn lemma_last_with_key_has_key(found: Seq<SearchResult>, key: (Seq<char>, Seq<char>))
    ensures
        last_with_key(found, key) matches Some(x) ==> result_key(x) == key && found.contains(x),
    decreases found.len(),
{
    if found.len() > 0 {
        lemma_last_with_key_has_key(found.drop_last(), key);
        match last_with_key(found.drop_last(), key) {
            Some(x) => {
                if result_key(found.last()) != key {
                    let j = choose|j: int| 0 <= j < found.drop_last().len() && found.drop_last()[j] == x;
                    assert(found[j] == x);
                }
            },
            None => {},
        }
        assert(found[found.len() - 1] == found.last());
    }
}

proof fn lemma_key_present_found(found: Seq<SearchResult>, key: (Seq<char>, Seq<char>), h: SearchResult)
    requires
        found.contains(h),
        result_key(h) == key,
    ensures
        last_with_key(found, key) is Some,
    decreases found.len(),
{
    if result_key(found.last()) != key {
        let j = choose|j: int| 0 <= j < found.len() && found[j] == h;
        assert(j != found.len() - 1);
        assert(found.drop_last()[j] == h);
        lemma_key_present_found(found.drop_last(), key, h);
    }
}

/// A hit with the key of the match at `k` in `order` that was read is in
/// the reassembled hits (at the match, or at an earlier match of the same
/// key).
proof fn lemma_hit_kept(order: Seq<(String, String)>, found: Seq<SearchResult>, k: int, h: SearchResult) -> (j: int)
    requires
        0 <= k < order.len(),
        found.contains(h),
        result_key(h) == (order[k].0@, order[k].1@),
    ensures
        0 <= j < reassembled(order, found).len(),
        result_key(reassembled(order, found)[j]) == (order[k].0@, order[k].1@),
    decreases order.len(),
{
    let key0 = (order[0].0@, order[0].1@);
    let key = (order[k].0@, order[k].1@);
    let rest = order.drop_first();
    lemma_last_with_key_has_key(found, key0);
    match last_with_key(found, key0) {
        Some(x) => {
            if key == key0 {
                0
            } else {
                let pred = |r: SearchResult| result_key(r) != key0;
                let i = choose|i: int| 0 <= i < found.len() && found[i] == h;
                found.lemma_filter_contains(pred, i);
                assert(rest[k - 1] == order[k]);
                let j = lemma_hit_kept(rest, without_key(found, key0), k - 1, h);
                j + 1
            }
        },
        None => {
            if k == 0 {
                lemma_key_present_found(found, key0, h);
                0
            } else {
                assert(rest[k - 1] == order[k]);
                lemma_hit_kept(rest, found, k - 1, h)
            }
        },
    }
}

/// Every hit read for a match is shown: when the record of the match
/// `(kind, id)` at `k` was found, the reassembled hits hold a hit of that
/// entity type (`initiative`, `project` or `task`) with that id.
pub proof fn law_found_hits_are_shown(order: Seq<(String, String)>, found: Seq<SearchResult>, shown: Seq<SearchResult>, k: int, h: SearchResult)
    requires
        shown == reassembled(order, found),
        0 <= k < order.len(),
        found.contains(h),
        match h {
            SearchResult::Initiative { id, .. } => order[k].0@ == "initiative"@ && order[k].1@ == id@,
            SearchResult::Project { id, .. } => order[k].0@ == "project"@ && order[k].1@ == id@,
            SearchResult::Task { id, .. } => order[k].0@ == "task"@ && order[k].1@ == id@,
        },
    ensures
        exists|j: int| 0 <= j < shown.len() && match #[trigger] shown[j] {
            SearchResult::Initiative { id, .. } => order[k].0@ == "initiative"@ && order[k].1@ == id@,
            SearchResult::Project { id, .. } => order[k].0@ == "project"@ && order[k].1@ == id@,
            SearchResult::Task { id, .. } => order[k].0@ == "task"@ && order[k].1@ == id@,
        },
{
    reveal_strlit("initiative");
    reveal_strlit("project");
    reveal_strlit("task");
    let j = lemma_hit_kept(order, found, k, h);
    let x = shown[j];
    assert("initiative"@ != "project"@ && "initiative"@ != "task"@ && "project"@ != "task"@) by {
        assert("initiative"@.len() != "project"@.len());
        assert("initiative"@.len() != "task"@.len());
        assert("project"@.len() != "task"@.len());
    }
    assert(match x {
        SearchResult::Initiative { id, .. } => order[k].0@ == "initiative"@ && order[k].1@ == id@,
        SearchResult::Project { id, .. } => order[k].0@ == "project"@ && order[k].1@ == id@,
        SearchResult::Task { id, .. } => order[k].0@ == "task"@ && order[k].1@ == id@,
    });
}

proof fn lemma_shown_from(order: Seq<(String, String)>, found: Seq<SearchResult>, j: int) -> (k: int)
    requires
        0 <= j < reassembled(order, found).len(),
    ensures
        0 <= k < order.len(),
        found.contains(reassembled(order, found)[j]),
        result_key(reassembled(order, found)[j]) == (order[k].0@, order[k].1@),
    decreases order.len(),
{
    let key0 = (order[0].0@, order[0].1@);
    let rest = order.drop_first();
    lemma_last_with_key_has_key(found, key0);
    match last_with_key(found, key0) {
        Some(x) => {
            if j == 0 {
                0
            } else {
                let w = without_key(found, key0);
                let k = lemma_shown_from(rest, w, j - 1);
                let y = reassembled(rest, w)[j - 1];
                assert(reassembled(order, found)[j] == y);
                found.lemma_filter_contains_rev(|r: SearchResult| result_key(r) != key0, y);
                assert(rest[k] == order[k + 1]);
                k + 1
            }
        },
        None => {
            let k = lemma_shown_from(rest, found, j);
            assert(rest[k] == order[k + 1]);
            k + 1
        },
    }
}

/// Every shown hit was read, and answers one of the matches: its entity
/// type (`initiative`, `project` or `task`) and id are those of a match.
pub proof fn law_shown_hits_answer_matches(order: Seq<(String, String)>, found: Seq<SearchResult>, shown: Seq<SearchResult>, j: int)
    requires
        shown == reassembled(order, found),
        0 <= j < shown.len(),
    ensures
        found.contains(shown[j]),
        exists|k: int| 0 <= k < order.len() && match #[trigger] order[k] {
            (kind, id) => match shown[j] {
                SearchResult::Initiative { id: x, .. } => kind@ == "initiative"@ && id@ == x@,
                SearchResult::Project { id: x, .. } => kind@ == "project"@ && id@ == x@,
                SearchResult::Task { id: x, .. } => kind@ == "task"@ && id@ == x@,
            },
        },
{
    let k = lemma_shown_from(order, found, j);
    assert(match order[k] {
        (kind, id) => match shown[j] {
            SearchResult::Initiative { id: x, .. } => kind@ == "initiative"@ && id@ == x@,
            SearchResult::Project { id: x, .. } => kind@ == "project"@ && id@ == x@,
            SearchResult::Task { id: x, .. } => kind@ == "task"@ && id@ == x@,
        },
    });
}

} // verus!
