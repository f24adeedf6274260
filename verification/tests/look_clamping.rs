use camera_core::look::{free_look, LookAccumulator, PITCH_LIMIT_MILLIDEG};
use camera_core::modes::FreeRoamMode;

#[test]
fn pitch_accumulates_against_mouse_direction() {
    let mut acc = LookAccumulator::new(100);
    acc.update(0, 50); // mouse down 50 counts: pitch falls 5 degrees
    assert_eq!(acc.pitch_millideg, -5_000);
    acc.update(0, -20); // mouse up 20 counts: pitch rises 2 degrees
    assert_eq!(acc.pitch_millideg, -3_000);
}

#[test]
fn pitch_stops_exactly_at_the_upper_bound() {
    let mut acc = LookAccumulator::new(100);
    acc.update(0, -1_000); // would reach +100 degrees
    assert_eq!(acc.pitch_millideg, PITCH_LIMIT_MILLIDEG);
    acc.update(0, -1); // one more count up: still pinned at the bound
    assert_eq!(acc.pitch_millideg, PITCH_LIMIT_MILLIDEG);
}

#[test]
fn pitch_stops_exactly_at_the_lower_bound() {
    let mut acc = LookAccumulator::new(100);
    acc.update(0, 1_000);
    assert_eq!(acc.pitch_millideg, -PITCH_LIMIT_MILLIDEG);
    acc.update(0, 7);
    assert_eq!(acc.pitch_millideg, -PITCH_LIMIT_MILLIDEG);
}

#[test]
fn pitch_stays_in_bounds_over_a_long_delta_sequence() {
    let mut acc = LookAccumulator::new(401);
    let deltas = [500, -900, 1_700, -2_500, 40, -40, 123_456, -654_321, 3, -3];
    for delta in deltas {
        acc.update(0, delta);
        assert!(-PITCH_LIMIT_MILLIDEG <= acc.pitch_millideg);
        assert!(acc.pitch_millideg <= PITCH_LIMIT_MILLIDEG);
    }
}

#[test]
fn yaw_wraps_to_one_turn() {
    let mut acc = LookAccumulator::new(100);
    acc.update(10, 0); // 1 degree against the mouse: 0 - 1000 wraps to 359000
    assert_eq!(acc.yaw_millideg, 359_000);
    acc.update(-3_610, 0); // 361 degrees back: 359000 + 361000 wraps to 360000
    assert_eq!(acc.yaw_millideg, 0);
    acc.update(-45, 0);
    assert_eq!(acc.yaw_millideg, 4_500);
}

#[test]
fn free_look_frozen_while_activation_released() {
    let mut acc = LookAccumulator::new(100);
    acc.update(10, 10);
    let yaw_before = acc.yaw_millideg;
    let pitch_before = acc.pitch_millideg;
    let applied = free_look(&mut acc, 9_999, -9_999, false, FreeRoamMode::Free);
    assert!(applied.is_none());
    assert_eq!(acc.yaw_millideg, yaw_before);
    assert_eq!(acc.pitch_millideg, pitch_before);
}

#[test]
fn free_look_applies_orientation_only_in_free_mode() {
    let mut acc = LookAccumulator::new(100);
    let applied = free_look(&mut acc, 10, 50, true, FreeRoamMode::Free)
        .expect("free mode applies the orientation");
    assert_eq!(applied.yaw_millideg, 359_000);
    assert_eq!(applied.pitch_millideg, -5_000);

    let mut locked_acc = LookAccumulator::new(100);
    let applied = free_look(&mut locked_acc, 10, 50, true, FreeRoamMode::Locked);
    assert!(applied.is_none());
    // the motion is still accumulated, nothing is lost
    assert_eq!(locked_acc.yaw_millideg, 359_000);
    assert_eq!(locked_acc.pitch_millideg, -5_000);

    let mut off_acc = LookAccumulator::new(100);
    let applied = free_look(&mut off_acc, 10, 50, true, FreeRoamMode::Off);
    assert!(applied.is_none());
    assert_eq!(off_acc.pitch_millideg, -5_000);
}
