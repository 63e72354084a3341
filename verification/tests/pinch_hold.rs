use touchpad_gestures::{GestureDirection, GestureState, HoldGesture, PinchGesture};

#[test]
fn pinch_scale_085_commits_in() {
    let mut c = PinchGesture::new();
    c.begin();
    assert!(c.update_and_maybe_decide(850));
    assert_eq!(c.decision, GestureState::Decided);
    assert_eq!(c.direction, GestureDirection::In);
}

#[test]
fn pinch_scale_115_commits_out() {
    let mut c = PinchGesture::new();
    c.begin();
    assert!(c.update_and_maybe_decide(1150));
    assert_eq!(c.decision, GestureState::Decided);
    assert_eq!(c.direction, GestureDirection::Out);
}

#[test]
fn pinch_dead_zone_remains_deciding() {
    let mut c = PinchGesture::new();
    c.begin();
    // A scale of exactly one, fed repeatedly, never commits.
    assert!(c.update_and_maybe_decide(1000));
    assert_eq!(c.decision, GestureState::Deciding);
    assert!(c.update_and_maybe_decide(1000));
    assert_eq!(c.decision, GestureState::Deciding);
    assert!(c.update_and_maybe_decide(1000));
    assert_eq!(c.decision, GestureState::Deciding);
    assert_eq!(c.direction, GestureDirection::Unknown);
}

#[test]
fn pinch_dead_zone_boundaries() {
    // 0.9 and 1.1 themselves are dead: commit needs strictly beyond.
    let mut c = PinchGesture::new();
    c.begin();
    assert!(c.update_and_maybe_decide(900));
    assert_eq!(c.decision, GestureState::Deciding);
    assert!(c.update_and_maybe_decide(1100));
    assert_eq!(c.decision, GestureState::Deciding);
    assert!(c.update_and_maybe_decide(899));
    assert_eq!(c.decision, GestureState::Decided);
    assert_eq!(c.direction, GestureDirection::In);
}

#[test]
fn pinch_post_commit_samples_refresh_scale_only() {
    let mut c = PinchGesture::new();
    c.begin();
    assert!(c.update_and_maybe_decide(1150));
    // The committing sample itself is not stored.
    assert_eq!(c.scale, 0);
    assert!(c.update_and_maybe_decide(1250));
    assert_eq!(c.scale, 1250);
    // Direction never reclassifies, even for an opposite sample.
    assert!(c.update_and_maybe_decide(600));
    assert_eq!(c.scale, 600);
    assert_eq!(c.direction, GestureDirection::Out);
    assert_eq!(c.decision, GestureState::Decided);
}

#[test]
fn pinch_update_before_begin_is_ignored() {
    let mut c = PinchGesture::new();
    assert!(!c.update_and_maybe_decide(850));
    assert_eq!(c.decision, GestureState::Unknown);
    assert_eq!(c.direction, GestureDirection::Unknown);
}

#[test]
fn pinch_reset_returns_to_idle() {
    let mut c = PinchGesture::new();
    c.begin();
    c.update_and_maybe_decide(1150);
    c.update_and_maybe_decide(1300);
    c.reset();
    assert_eq!(c, PinchGesture::new());
}

#[test]
fn hold_begin_commits_immediately() {
    let mut c = HoldGesture::new();
    assert_eq!(c.decision, GestureState::Unknown);
    assert_eq!(c.begin_ts, 0);
    c.begin(1000);
    assert_eq!(c.decision, GestureState::Decided);
    assert_eq!(c.begin_ts, 1000);
}

#[test]
fn hold_reset_returns_to_idle() {
    let mut c = HoldGesture::new();
    c.begin(1234);
    c.reset();
    assert_eq!(c, HoldGesture::new());
    assert_eq!(c.begin_ts, 0);
}
