//! The consumer cursor and the limits of a poll.
use granary::error::GranaryError;
use granary::services::event_consumer::{consumer_start, consumer_started_at, keep_claiming, poll_limit, ConsumerCursor};
use granary::services::event_poller::{poll_batch_size, poll_error_stops, EventPollerConfig};

#[test]
fn cursor_only_moves_forward() {
    let mut c = ConsumerCursor::new(10);
    assert!(c.advance(12));
    assert_eq!(c.last_seen_id(), 12);
    assert!(!c.advance(11));
    assert_eq!(c.last_seen_id(), 12);
    assert!(!c.advance(12));
    assert_eq!(c.last_seen_id(), 12);
}

#[test]
fn poll_limits() {
    assert_eq!(poll_limit(None), usize::MAX);
    assert_eq!(poll_limit(Some(3)), 3);
    assert!(keep_claiming(2, 3));
    assert!(!keep_claiming(3, 3));
}

#[test]
fn asked_batch_size_wins_over_configured() {
    let config = EventPollerConfig::default().batch_size(7);
    assert_eq!(poll_batch_size(Some(2), &config), Some(2));
    assert_eq!(poll_batch_size(None, &config), Some(7));
    assert_eq!(poll_batch_size(None, &EventPollerConfig::default()), None);
}

#[test]
fn only_missing_consumer_stops_polling() {
    assert!(poll_error_stops(&GranaryError::Conflict("Worker w-1 not found".to_string())));
    assert!(!poll_error_stops(&GranaryError::Conflict("busy".to_string())));
    assert!(!poll_error_stops(&GranaryError::Database("not found".to_string())));
}

#[test]
fn consumer_start_keeps_old_position() {
    let (from, last) = consumer_start(41, Some("2026-01-01T00:00:00Z".to_string()));
    assert_eq!(from.as_deref(), Some("1970-01-01T00:00:00Z"));
    assert_eq!(last, 41);
    let (from, last) = consumer_start(0, Some("2026-01-01T00:00:00Z".to_string()));
    assert_eq!(from.as_deref(), Some("2026-01-01T00:00:00Z"));
    assert_eq!(last, 0);
    assert_eq!(consumer_start(0, None), (None, 0));
    assert_eq!(consumer_started_at(None, "now".to_string()), "now");
    assert_eq!(consumer_started_at(Some("then".to_string()), "now".to_string()), "then");
}
