//! The position of an event consumer in the event stream, and the limits of
//! one poll. Claiming events is done by the caller against the store; these
//! are the decisions between the claims.
use vstd::prelude::*;
use crate::text::owned;

verus! {

/// How far a consumer has seen the event stream: the id of the newest event
/// it claimed or acknowledged.
#[derive(Debug)]
pub struct ConsumerCursor {
    last_seen_id: i64,
}

impl View for ConsumerCursor {
    type V = i64;

    closed spec fn view(&self) -> i64 {
        self.last_seen_id
    }
}

impl ConsumerCursor {
    /// A cursor at `last_seen_id`.
    pub fn new(last_seen_id: i64) -> (r: ConsumerCursor)
        ensures
            r@ == last_seen_id,
    {
        ConsumerCursor { last_seen_id }
    }

    /// The id of the newest event seen.
    pub fn last_seen_id(&self) -> (r: i64)
        ensures
            r == self@,
    {
        self.last_seen_id
    }

    /// Takes note of the event `event_id`, claimed or acknowledged: the
    /// cursor moves to it when it is newer than what was seen. Says whether
    /// it moved (and so whether the new position is to be stored).
    pub fn advance(&mut self, event_id: i64) -> (moved: bool)
        ensures
            moved == (event_id > old(self)@),
            final(self)@ == (if event_id > old(self)@ { event_id } else { old(self)@ }),
    {
        if event_id > self.last_seen_id {
            self.last_seen_id = event_id;
            true
        } else {
            false
        }
    }
}

/// The cursor never moves back: after taking note of any event, it is at
/// least where it was, and at least at that event.
pub proof fn law_cursor_never_moves_back(before: i64, event_id: i64, after: i64)
    requires
        after == (if event_id > before { event_id } else { before }),
    ensures
        after >= before,
        after >= event_id,
{
}

/// How many events one poll claims at most: the batch size, or no limit.
pub fn poll_limit(batch_size: Option<usize>) -> (r: usize)
    ensures
        r == (match batch_size {
            Some(b) => b,
            None => usize::MAX,
        }),
{
    match batch_size {
        Some(b) => b,
        None => usize::MAX,
    }
}

/// Whether a poll that claimed `claimed` events tries to claim another.
pub fn keep_claiming(claimed: usize, limit: usize) -> (r: bool)
    ensures
        r == (claimed < limit),
{
    claimed < limit
}

/// Where a worker's event consumer starts: a worker that already followed
/// the stream by event id keeps its position and looks at events of any
/// time; a new worker starts at `since` when given, else (given as `None`)
/// at the time it is created.
pub fn consumer_start(worker_last_event_id: i64, since: Option<String>) -> (r: (Option<String>, i64))
    ensures
        worker_last_event_id > 0 ==> (r.0 matches Some(t) && t@ == "1970-01-01T00:00:00Z"@)
            && r.1 == worker_last_event_id,
        worker_last_event_id <= 0 ==> r.0 == since && r.1 == 0,
{
    if worker_last_event_id > 0 {
        (Some(owned("1970-01-01T00:00:00Z")), worker_last_event_id)
    } else {
        (since, 0)
    }
}

/// The time from which a consumer looks at events: the given start, else
/// `now`.
pub fn consumer_started_at(start_from: Option<String>, now: String) -> (r: String)
    ensures
        r == (match start_from {
            Some(s) => s,
            None => now,
        }),
{
    match start_from {
        Some(s) => s,
        None => now,
    }
}

/// The time from which a consumer looks at events: the given start, else the
/// time the clock reads (read only then).
pub fn consumer_start_time(start_from: Option<String>) -> (r: String)
    ensures
        start_from matches Some(s) ==> r == s,
{
    match start_from {
        Some(s) => s,
        None => consumer_started_at(None, crate::clock::now_rfc3339()),
    }
}

} // verus!
