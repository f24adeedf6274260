use camera_core::gate::{apply_gate, gate_decision, GateAction};
use camera_core::modes::{FreeRoamMode, ModeState, SwitchInput, TransitionScheme};

#[test]
fn gate_removes_marker_while_free_and_restores_it_after() {
    // while freeRoam == Free the marker is taken away
    let mut present = true;
    let action = gate_decision(FreeRoamMode::Free, present);
    assert_eq!(action, GateAction::Remove);
    present = apply_gate(present, action);
    assert!(!present);

    // switching back to Off re-attaches it on the next run
    let action = gate_decision(FreeRoamMode::Off, present);
    assert_eq!(action, GateAction::Attach);
    present = apply_gate(present, action);
    assert!(present);
}

#[test]
fn gate_is_idempotent_for_every_mode_and_marker_state() {
    let modes = [
        FreeRoamMode::Off,
        FreeRoamMode::Free,
        FreeRoamMode::Locked,
        FreeRoamMode::FollowBody,
        FreeRoamMode::FollowHead,
    ];
    for mode in modes {
        for start in [false, true] {
            let first = gate_decision(mode, start);
            let present = apply_gate(start, first);
            // a second run with the mode unchanged mutates nothing
            let second = gate_decision(mode, present);
            assert_eq!(second, GateAction::Keep);
            assert_eq!(apply_gate(present, second), present);
        }
    }
}

#[test]
fn only_free_mode_blocks_player_input() {
    for (mode, expect_present) in [
        (FreeRoamMode::Off, true),
        (FreeRoamMode::Free, false),
        (FreeRoamMode::Locked, true),
        (FreeRoamMode::FollowBody, true),
        (FreeRoamMode::FollowHead, true),
    ] {
        let action = gate_decision(mode, false);
        let present = apply_gate(false, action);
        assert_eq!(present, expect_present);
    }
}

#[test]
fn scenario_marker_follows_the_mode_across_a_toggle() {
    // pilot the free camera: marker goes away
    let mut state = ModeState::new();
    let mut frame = SwitchInput::none();
    frame.free_roam_toggle = true;
    state.advance(&frame, TransitionScheme::CyclicToggle);
    assert_eq!(state.free_roam, FreeRoamMode::Free);
    let mut present = true;
    present = apply_gate(present, gate_decision(state.free_roam, present));
    assert!(!present);
    // and while the mode stays Free the marker stays absent
    present = apply_gate(present, gate_decision(state.free_roam, present));
    assert!(!present);

    // toggle the rest of the way round the cycle, back to Off: the input
    // gate's very next run re-attaches the marker
    for _ in 0..4 {
        state.advance(&frame, TransitionScheme::CyclicToggle);
    }
    assert_eq!(state.free_roam, FreeRoamMode::Off);
    present = apply_gate(present, gate_decision(state.free_roam, present));
    assert!(present);
}
