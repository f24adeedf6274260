use camera_core::modes::{FreeRoamMode, ModeState, SwitchInput, TransitionScheme};
use camera_core::mover::{
    free_roam_step, move_axes, step_length, toggle_active_camera, ActiveCamera, MoveInput,
    BASE_FREE_ROAM_SPEED_MILLI,
};

fn no_keys() -> MoveInput {
    MoveInput { forward: false, left: false, back: false, right: false, up: false, down: false }
}

/// The camera's local basis as the host would carry it: forward, right,
/// world up.
const FORWARD: [f32; 3] = [0.0, 0.0, -1.0];
const RIGHT: [f32; 3] = [1.0, 0.0, 0.0];
const UP: [f32; 3] = [0.0, 1.0, 0.0];

/// The displacement the host derives from an intent: the axis
/// coefficients summed over the basis, normalized, scaled by the step.
fn host_displacement(axes_forward: i8, axes_right: i8, axes_up: i8, step_milli: u64) -> [f32; 3] {
    let mut dir = [0.0f32; 3];
    for i in 0..3 {
        dir[i] = axes_forward as f32 * FORWARD[i] + axes_right as f32 * RIGHT[i]
            + axes_up as f32 * UP[i];
    }
    let len = (dir[0] * dir[0] + dir[1] * dir[1] + dir[2] * dir[2]).sqrt();
    let step = step_milli as f32 / 1000.0;
    [dir[0] / len * step, dir[1] / len * step, dir[2] / len * step]
}

fn magnitude(v: [f32; 3]) -> f32 {
    (v[0] * v[0] + v[1] * v[1] + v[2] * v[2]).sqrt()
}

#[test]
fn step_length_formula_exact() {
    // 4 units/s at scale 2x for half a second: 4 world units
    assert_eq!(step_length(4_000, 20, 500), 4_000);
    // 4 units/s at scale 0.5x for a 16 ms frame: 4000 * 5 * 16 / 10000 = 32
    assert_eq!(step_length(4_000, 5, 16), 32);
    assert_eq!(step_length(4_000, 10, 0), 0);
}

#[test]
fn opposite_keys_cancel_to_no_movement() {
    let mut input = no_keys();
    input.forward = true;
    input.back = true;
    input.up = true;
    input.down = true;
    let axes = move_axes(&input);
    assert_eq!((axes.forward, axes.right, axes.up), (0, 0, 0));
    let intent = free_roam_step(&input, FreeRoamMode::Free, true, 4_000, 10, 16);
    assert!(intent.is_none());
}

#[test]
fn no_movement_unless_free_mode_and_active() {
    let mut input = no_keys();
    input.forward = true;
    assert!(free_roam_step(&input, FreeRoamMode::Free, false, 4_000, 10, 16).is_none());
    assert!(free_roam_step(&input, FreeRoamMode::Off, true, 4_000, 10, 16).is_none());
    assert!(free_roam_step(&input, FreeRoamMode::Locked, true, 4_000, 10, 16).is_none());
    assert!(free_roam_step(&input, FreeRoamMode::FollowBody, true, 4_000, 10, 16).is_none());
    assert!(free_roam_step(&input, FreeRoamMode::FollowHead, true, 4_000, 10, 16).is_none());
    assert!(free_roam_step(&input, FreeRoamMode::Free, true, 4_000, 10, 16).is_some());
}

#[test]
fn diagonal_displacement_magnitude_equals_one_step() {
    let mut input = no_keys();
    input.forward = true;
    input.right = true;
    let intent = free_roam_step(&input, FreeRoamMode::Free, true, 4_000, 20, 500)
        .expect("free mode with keys held moves");
    let displacement = host_displacement(
        intent.axes.forward,
        intent.axes.right,
        intent.axes.up,
        intent.step_milli,
    );
    let got = magnitude(displacement);
    let one_step = 4.0f32;
    assert!((got - one_step).abs() < 1e-4, "diagonal magnitude was {got}");
    // and in particular not a root-two multiple of the step
    assert!((got - one_step * 2.0f32.sqrt()).abs() > 1.0);
}

#[test]
fn triple_diagonal_displacement_magnitude_equals_one_step() {
    let mut input = no_keys();
    input.forward = true;
    input.right = true;
    input.up = true;
    let intent = free_roam_step(&input, FreeRoamMode::Free, true, 4_000, 10, 250)
        .expect("free mode with keys held moves");
    let displacement = host_displacement(
        intent.axes.forward,
        intent.axes.right,
        intent.axes.up,
        intent.step_milli,
    );
    assert!((magnitude(displacement) - 1.0).abs() < 1e-4);
}

#[test]
fn toggle_key_flips_the_active_camera() {
    assert_eq!(toggle_active_camera(ActiveCamera::Main, true), ActiveCamera::Free);
    assert_eq!(toggle_active_camera(ActiveCamera::Free, true), ActiveCamera::Main);
    assert_eq!(toggle_active_camera(ActiveCamera::Main, false), ActiveCamera::Main);
    assert_eq!(toggle_active_camera(ActiveCamera::Free, false), ActiveCamera::Free);
}

#[test]
fn scenario_toggle_tier_then_half_second_forward() {
    // start {pov: FirstPerson, freeRoam: Off}
    let mut state = ModeState::new();
    let mut active = ActiveCamera::Main;

    // press the freecam toggle once
    let mut frame = SwitchInput::none();
    frame.free_roam_toggle = true;
    state.advance(&frame, TransitionScheme::CyclicToggle);
    active = toggle_active_camera(active, frame.free_roam_toggle);
    assert_eq!(state.free_roam, FreeRoamMode::Free);
    assert_eq!(active, ActiveCamera::Free);

    // press tier key "4": scale 2.0x
    let mut frame = SwitchInput::none();
    frame.tier_fast = true;
    state.advance(&frame, TransitionScheme::CyclicToggle);
    assert_eq!(state.speed_scale_tenths, 20);

    // hold forward for half a second at base speed 4 units/s
    let mut keys = no_keys();
    keys.forward = true;
    let intent = free_roam_step(
        &keys,
        state.free_roam,
        matches!(active, ActiveCamera::Free),
        BASE_FREE_ROAM_SPEED_MILLI,
        state.speed_scale_tenths,
        500,
    )
    .expect("free camera moves");
    assert_eq!(intent.step_milli, 4_000); // 4.0 world units

    // the camera moved 4.0 units along its own forward axis
    let displacement =
        host_displacement(intent.axes.forward, intent.axes.right, intent.axes.up, intent.step_milli);
    assert!((displacement[0] - 4.0 * FORWARD[0]).abs() < 1e-4);
    assert!((displacement[1] - 4.0 * FORWARD[1]).abs() < 1e-4);
    assert!((displacement[2] - 4.0 * FORWARD[2]).abs() < 1e-4);
}
