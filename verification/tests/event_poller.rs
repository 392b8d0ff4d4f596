//! Settings of the event poller.
use granary::services::event_poller::EventPollerConfig;
use std::time::Duration;

const DEFAULT_POLL_INTERVAL_MS: u64 = 1000;

#[test]
fn event_poller_test_default_config() {
    let config = EventPollerConfig::default();
    assert_eq!(config.poll_interval.as_millis(), DEFAULT_POLL_INTERVAL_MS as u128);
    assert!(config.batch_size.is_none());
    assert!(config.auto_update_cursor);
}

#[test]
fn test_config_builder() {
    let config = EventPollerConfig::with_poll_interval(Duration::from_secs(5)).batch_size(10).auto_update_cursor(false);

    assert_eq!(config.poll_interval.as_secs(), 5);
    assert_eq!(config.batch_size, Some(10));
    assert!(!config.auto_update_cursor);
}
