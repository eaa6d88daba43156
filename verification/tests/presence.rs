use presence_relay::presence::{Direction, PresenceTracker};

#[test]
fn join_then_duplicate_join_is_suppressed() {
    let mut tracker = PresenceTracker::new();
    assert_eq!(tracker.process(1, true), Some(Direction::Joined));
    assert_eq!(tracker.process(1, true), None);
}

#[test]
fn leave_after_join_emits_left() {
    let mut tracker = PresenceTracker::new();
    assert_eq!(tracker.process(1, true), Some(Direction::Joined));
    assert_eq!(tracker.process(1, false), Some(Direction::Left));
}

#[test]
fn leave_without_prior_join_emits_left() {
    let mut tracker = PresenceTracker::new();
    assert_eq!(tracker.process(1, false), Some(Direction::Left));
}

#[test]
fn duplicate_leave_is_not_suppressed() {
    let mut tracker = PresenceTracker::new();
    assert_eq!(tracker.process(1, true), Some(Direction::Joined));
    assert_eq!(tracker.process(1, false), Some(Direction::Left));
    assert_eq!(tracker.process(1, false), Some(Direction::Left));
}

#[test]
fn mute_toggles_then_leave() {
    let mut tracker = PresenceTracker::new();
    assert_eq!(tracker.process(1, true), Some(Direction::Joined));
    assert_eq!(tracker.process(1, true), None);
    assert_eq!(tracker.process(1, true), None);
    assert_eq!(tracker.process(1, false), Some(Direction::Left));
}

#[test]
fn rejoin_after_leave_emits_joined() {
    let mut tracker = PresenceTracker::new();
    assert_eq!(tracker.process(1, true), Some(Direction::Joined));
    assert_eq!(tracker.process(1, false), Some(Direction::Left));
    assert_eq!(tracker.process(1, true), Some(Direction::Joined));
}

#[test]
fn distinct_users_do_not_disturb_each_other() {
    // Interleave a fixed join/leave sequence per user and check that every
    // emission, and each user's final state, matches that user's own
    // sequence alone.
    let mut tracker = PresenceTracker::new();
    assert_eq!(tracker.process(1, true), Some(Direction::Joined));
    assert_eq!(tracker.process(2, true), Some(Direction::Joined));
    assert_eq!(tracker.process(3, false), Some(Direction::Left));
    assert_eq!(tracker.process(1, true), None);
    assert_eq!(tracker.process(2, false), Some(Direction::Left));
    assert_eq!(tracker.process(3, true), Some(Direction::Joined));
    assert_eq!(tracker.process(2, true), Some(Direction::Joined));
    assert_eq!(tracker.process(2, false), Some(Direction::Left));
    // Final states: 1 present, 2 absent, 3 present. A further join signal
    // is suppressed exactly for the users that ended up present.
    assert_eq!(tracker.process(1, true), None);
    assert_eq!(tracker.process(2, true), Some(Direction::Joined));
    assert_eq!(tracker.process(3, true), None);
}
