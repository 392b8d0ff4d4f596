//! Cooldowns of the synthetic task.next and project.next events.
use granary::services::polled_events::PolledEventEmitter;
use std::time::Duration;

#[test]
fn test_new_emitter_with_cooldown() {
    let emitter = PolledEventEmitter::new(60);
    assert_eq!(emitter.cooldown(), Duration::from_secs(60));
    assert_eq!(emitter.tracked_count(), 0);
}

#[test]
fn test_is_in_cooldown_not_emitted() {
    let emitter = PolledEventEmitter::new(60);
    assert!(!emitter.is_in_cooldown("task-1"));
}

#[test]
fn test_is_in_cooldown_recently_emitted() {
    let mut emitter = PolledEventEmitter::new(60);
    emitter.mark_emitted("task-1".to_string());
    assert!(emitter.is_in_cooldown("task-1"));
}

#[test]
fn test_different_entities_tracked_separately() {
    let mut emitter = PolledEventEmitter::new(60);
    emitter.mark_emitted("task-1".to_string());

    assert!(emitter.is_in_cooldown("task-1"));
    assert!(!emitter.is_in_cooldown("task-2"));
}

#[test]
fn test_cleanup_keeps_recent_entries() {
    let mut emitter = PolledEventEmitter::new(60);
    emitter.mark_emitted("task-1".to_string());

    emitter.cleanup_stale_entries();
    assert!(emitter.is_tracked("task-1"));
}

#[test]
fn cooldown_expires_at_its_length() {
    let mut emitter = PolledEventEmitter::new(1);
    emitter.mark_emitted_at("task-1".to_string(), 5_000);
    assert!(emitter.is_in_cooldown_at("task-1", 5_999));
    assert!(!emitter.is_in_cooldown_at("task-1", 6_000));
    assert!(!emitter.is_in_cooldown_at("task-1", 6_100));
}

#[test]
fn cleanup_forgets_entries_after_twice_the_cooldown() {
    let mut emitter = PolledEventEmitter::new(1);
    emitter.mark_emitted_at("task-1".to_string(), 0);
    emitter.mark_emitted_at("task-2".to_string(), 1_500);
    emitter.cleanup_stale_entries_at(2_100);
    assert!(!emitter.is_tracked("task-1"));
    assert!(emitter.is_tracked("task-2"));
    emitter.cleanup_stale_entries_at(10_000);
    assert_eq!(emitter.tracked_count(), 0);
}

#[test]
fn marking_again_moves_the_emission_time() {
    let mut emitter = PolledEventEmitter::new(1);
    emitter.mark_emitted_at("task-1".to_string(), 0);
    emitter.mark_emitted_at("task-1".to_string(), 3_000);
    assert_eq!(emitter.tracked_count(), 1);
    assert!(emitter.is_in_cooldown_at("task-1", 3_500));
}

#[test]
fn zero_cooldown_never_gates() {
    let mut emitter = PolledEventEmitter::new(0);
    emitter.mark_emitted_at("task-1".to_string(), 10);
    assert!(!emitter.is_in_cooldown_at("task-1", 10));
}
