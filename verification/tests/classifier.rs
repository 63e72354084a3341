use touchpad_gestures::cells::{decide, direction_of, sat_add_i64};
use touchpad_gestures::{GestureDirection, GestureState, SwipeGesture};

#[test]
fn swipe_below_threshold_never_commits() {
    let mut c = SwipeGesture::new();
    c.begin();
    // 10^2 + 5^2 = 125 < 256
    assert_eq!(c.update_and_maybe_decide(10, 5), None);
    assert_eq!(c.decision, GestureState::Deciding);
    // 15^2 + 5^2 = 250 < 256
    assert_eq!(c.update_and_maybe_decide(5, 0), None);
    assert_eq!(c.decision, GestureState::Deciding);
    // 16^2 + 5^2 = 281 >= 256: commits on this exact update
    assert_eq!(
        c.update_and_maybe_decide(1, 0),
        Some(GestureDirection::Horizontal)
    );
    assert_eq!(c.decision, GestureState::Decided);
    assert_eq!(c.direction, GestureDirection::Horizontal);
}

#[test]
fn swipe_threshold_boundary_is_exact() {
    let mut c = SwipeGesture::new();
    c.begin();
    // 15^2 = 225 < 256: one unit short of the committing displacement
    assert_eq!(c.update_and_maybe_decide(0, 15), None);
    assert_eq!(c.decision, GestureState::Deciding);
    // 16^2 = 256: exactly at the threshold
    assert_eq!(
        c.update_and_maybe_decide(0, 1),
        Some(GestureDirection::Vertical)
    );
}

#[test]
fn swipe_commits_only_once() {
    let mut c = SwipeGesture::new();
    c.begin();
    assert_eq!(
        c.update_and_maybe_decide(100, 0),
        Some(GestureDirection::Horizontal)
    );
    // Once decided, further updates never report or reclassify.
    assert_eq!(c.update_and_maybe_decide(0, 500), None);
    assert_eq!(c.direction, GestureDirection::Horizontal);
    assert_eq!(c.cx, 100);
    assert_eq!(c.cy, 0);
}

#[test]
fn swipe_update_before_begin_is_ignored() {
    let mut c = SwipeGesture::new();
    assert_eq!(c.update_and_maybe_decide(100, 100), None);
    assert_eq!(c.decision, GestureState::Unknown);
    assert_eq!(c.cx, 0);
    assert_eq!(c.cy, 0);
}

#[test]
fn tiebreak_mostly_horizontal() {
    assert_eq!(direction_of(10, 5), GestureDirection::Horizontal);
}

#[test]
fn tiebreak_mostly_vertical() {
    assert_eq!(direction_of(5, 10), GestureDirection::Vertical);
}

#[test]
fn tiebreak_equal_magnitude_is_vertical() {
    assert_eq!(direction_of(10, 10), GestureDirection::Vertical);
    assert_eq!(direction_of(-10, 10), GestureDirection::Vertical);
}

#[test]
fn tiebreak_uses_magnitudes() {
    assert_eq!(direction_of(-12, 5), GestureDirection::Horizontal);
    assert_eq!(direction_of(5, -12), GestureDirection::Vertical);
}

#[test]
fn decide_reports_threshold_and_direction() {
    assert_eq!(decide(10, 5), None);
    assert_eq!(decide(15, 0), None);
    assert_eq!(decide(16, 0), Some(GestureDirection::Horizontal));
    assert_eq!(decide(0, 16), Some(GestureDirection::Vertical));
    assert_eq!(decide(12, 12), Some(GestureDirection::Vertical));
    assert_eq!(decide(-20, 3), Some(GestureDirection::Horizontal));
}

#[test]
fn accumulator_addition_saturates() {
    assert_eq!(sat_add_i64(i64::MAX, 1), i64::MAX);
    assert_eq!(sat_add_i64(i64::MIN, -1), i64::MIN);
    assert_eq!(sat_add_i64(40, 2), 42);
    assert_eq!(sat_add_i64(-40, 2), -38);
}

#[test]
fn swipe_begin_clears_accumulators() {
    let mut c = SwipeGesture::new();
    c.begin();
    c.update_and_maybe_decide(100, 0);
    c.begin();
    assert_eq!(c.cx, 0);
    assert_eq!(c.cy, 0);
    assert_eq!(c.direction, GestureDirection::Unknown);
    assert_eq!(c.decision, GestureState::Deciding);
}

#[test]
fn swipe_reset_returns_to_idle() {
    let mut c = SwipeGesture::new();
    c.begin();
    c.update_and_maybe_decide(100, 7);
    c.reset();
    assert_eq!(c, SwipeGesture::new());
    assert_eq!(c.decision, GestureState::Unknown);
}
