//! Settings of the event poller that feeds a worker.
use std::time::Duration;
use vstd::prelude::*;
use crate::error::GranaryError;
use crate::text::{contains, contains_exec};
use crate::services::worker_runtime::{duration_from_millis, duration_of_millis, DEFAULT_POLL_INTERVAL_MS};

verus! {

/// Configuration of an event poller.
#[derive(Debug)]
pub struct EventPollerConfig {
    /// Interval between polls.
    pub poll_interval: Duration,
    /// Most events handled per poll.
    pub batch_size: Option<usize>,
    /// Whether the cursor moves on by itself after events are handled.
    pub auto_update_cursor: bool,
}

impl Clone for EventPollerConfig {
    fn clone(&self) -> (r: Self)
        ensures
            r == *self,
    {
        EventPollerConfig {
            poll_interval: self.poll_interval,
            batch_size: self.batch_size,
            auto_update_cursor: self.auto_update_cursor,
        }
    }
}

impl Default for EventPollerConfig {
    fn default() -> (r: Self)
        ensures
            r.poll_interval == duration_of_millis(DEFAULT_POLL_INTERVAL_MS),
            r.batch_size is None,
            r.auto_update_cursor,
    {
        EventPollerConfig {
            poll_interval: duration_from_millis(DEFAULT_POLL_INTERVAL_MS),
            batch_size: None,
            auto_update_cursor: true,
        }
    }
}

impl EventPollerConfig {
    /// The default configuration with the given poll interval.
    pub fn with_poll_interval(poll_interval: Duration) -> (r: Self)
        ensures
            r.poll_interval == poll_interval,
            r.batch_size is None,
            r.auto_update_cursor,
    {
        let d = Self::default();
        EventPollerConfig { poll_interval, batch_size: d.batch_size, auto_update_cursor: d.auto_update_cursor }
    }

    /// The configuration with the given batch size.
    pub fn batch_size(self, size: usize) -> (r: Self)
        ensures
            r.batch_size == Some(size),
            r.poll_interval == self.poll_interval,
            r.auto_update_cursor == self.auto_update_cursor,
    {
        let mut c = self;
        c.batch_size = Some(size);
        c
    }

    /// The configuration with the given cursor setting.
    pub fn auto_update_cursor(self, auto: bool) -> (r: Self)
        ensures
            r.auto_update_cursor == auto,
            r.poll_interval == self.poll_interval,
            r.batch_size == self.batch_size,
    {
        let mut c = self;
        c.auto_update_cursor = auto;
        c
    }
}

/// The batch size of one poll: the one asked for, else the configured one.
pub fn poll_batch_size(asked: Option<usize>, config: &EventPollerConfig) -> (r: Option<usize>)
    ensures
        r == (match asked {
            Some(b) => Some(b),
            None => config.batch_size,
        }),
{
    match asked {
        Some(b) => Some(b),
        None => config.batch_size,
    }
}

/// Whether a failed poll ends the polling loop: only a conflict saying that
/// something was not found does (the worker or its consumer is gone); any
/// other failure is retried at the next interval.
pub fn poll_error_stops(e: &GranaryError) -> (r: bool)
    ensures
        r == (e matches GranaryError::Conflict(m) && contains(m@, "not found"@)),
{
    match e {
        GranaryError::Conflict(m) => contains_exec(m.as_str(), "not found"),
        _ => false,
    }
}

} // verus!
