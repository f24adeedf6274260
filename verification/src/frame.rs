//! The variable-rate frame: one pass of the per-frame systems in a fixed
//! order — mode switching, free-camera look, active-camera toggle,
//! free-roam movement, input gate. Every later system observes the mode
//! state the switcher settled on this frame, never a mix of old and new,
//! which keeps the frame's outcome deterministic.

use vstd::prelude::*;
use crate::gate::{allow_player_input, apply_gate, gate_decision, gate_decision_for, GateAction};
use crate::look::{free_look, clamp_pitch, wrap_angle, LookAccumulator, YawPitch};
use crate::modes::{
    cycle_point_of_view, next_free_roam, next_speed_scale, ModeState, SwitchInput,
    TransitionScheme,
};
use crate::mover::{
    flipped, free_roam_step, no_direction_held, step_length_milli, toggle_active_camera,
    ActiveCamera, MoveInput, MoveIntent,
};

verus! {

/// The state the variable-rate systems own between frames: the mode
/// machine, which camera renders, the free camera's look accumulator,
/// and whether the player's input-enabled marker is present.
#[derive(Clone, Copy, Debug, PartialEq, Eq, Structural)]
pub struct FrameState {
    pub modes: ModeState,
    pub active_camera: ActiveCamera,
    pub look_accumulator: LookAccumulator,
    pub marker_present: bool,
}

impl FrameState {
    pub open spec fn wf(self) -> bool {
        self.modes.wf() && self.look_accumulator.wf()
    }

    /// The startup state: first person, free-roam off, main camera
    /// rendering, level view, player input enabled.
    pub fn new(look_sensitivity_millideg: u32) -> (s: FrameState)
        ensures
            s.wf(),
            s.modes == (ModeState {
                point_of_view: crate::modes::PointOfView::FirstPerson,
                free_roam: crate::modes::FreeRoamMode::Off,
                speed_scale_tenths: 10u8,
            }),
            s.active_camera is Main,
            s.look_accumulator.yaw_millideg == 0,
            s.look_accumulator.pitch_millideg == 0,
            s.look_accumulator.sensitivity_millideg == look_sensitivity_millideg,
            s.marker_present,
    {
        FrameState {
            modes: ModeState::new(),
            active_camera: ActiveCamera::Main,
            look_accumulator: LookAccumulator::new(look_sensitivity_millideg),
            marker_present: true,
        }
    }
}

/// What one variable-rate frame asks of the host: an orientation to
/// write to the free camera (present exactly when looking in `Free`
/// mode), a movement to apply to it, and the marker action the input
/// gate decided.
#[derive(Clone, Copy, Debug, PartialEq, Eq, Structural)]
pub struct FrameEffects {
    pub look_applied: Option<YawPitch>,
    pub move_intent: Option<MoveIntent>,
    pub gate_action: GateAction,
}

/// Run one variable-rate frame over the sampled input.
///
/// The switcher advances the mode state first; the look pass, the
/// active-camera toggle, the mover and the input gate all act on the
/// mode the frame settled on. The input gate's action is carried out
/// within this same frame, so the marker leaves the frame agreeing with
/// the mode: present exactly while player input is allowed.
pub fn variable_rate_frame(
    state: &mut FrameState,
    switches: &SwitchInput,
    scheme: TransitionScheme,
    mouse_delta_x: i32,
    mouse_delta_y: i32,
    look_held: bool,
    keys: &MoveInput,
    base_speed_milli: u32,
    delta_millis: u32,
) -> (effects: FrameEffects)
    requires
        old(state).wf(),
    ensures
        final(state).wf(),
        // the mode machine advances exactly as the switcher says
        final(state).modes.point_of_view == if switches.pov_switch {
            cycle_point_of_view(old(state).modes.point_of_view)
        } else {
            old(state).modes.point_of_view
        },
        final(state).modes.free_roam == next_free_roam(
            old(state).modes.free_roam,
            *switches,
            scheme,
        ),
        final(state).modes.speed_scale_tenths == next_speed_scale(
            final(state).modes.free_roam,
            old(state).modes.speed_scale_tenths,
            *switches,
        ),
        // the toggle key also flips which camera renders
        final(state).active_camera == if switches.free_roam_toggle {
            flipped(old(state).active_camera)
        } else {
            old(state).active_camera
        },
        // the look pass accumulates only while the button is held
        final(state).look_accumulator.sensitivity_millideg
            == old(state).look_accumulator.sensitivity_millideg,
        !look_held ==> final(state).look_accumulator == old(state).look_accumulator,
        look_held ==> final(state).look_accumulator.pitch_millideg == clamp_pitch(
            old(state).look_accumulator.pitch_millideg
                - mouse_delta_y * old(state).look_accumulator.sensitivity_millideg,
        ),
        look_held ==> final(state).look_accumulator.yaw_millideg == wrap_angle(
            old(state).look_accumulator.yaw_millideg
                - mouse_delta_x * old(state).look_accumulator.sensitivity_millideg,
        ),
        // the orientation is written exactly when looking in Free mode
        (effects.look_applied is Some) <==> (look_held && final(state).modes.free_roam is Free),
        effects.look_applied matches Some(o) ==> o.yaw_millideg
            == final(state).look_accumulator.yaw_millideg && o.pitch_millideg
            == final(state).look_accumulator.pitch_millideg,
        // movement happens exactly when the free camera renders, the mode
        // is Free, and the held keys sum to a direction
        (effects.move_intent is Some) <==> (final(state).active_camera is Free
            && final(state).modes.free_roam is Free && !no_direction_held(*keys)),
        effects.move_intent matches Some(i) ==> i.axes.matches_input(*keys) && i.step_milli
            == step_length_milli(
            base_speed_milli,
            final(state).modes.speed_scale_tenths,
            delta_millis,
        ),
        // the input gate decides on the frame's settled mode, its action
        // is carried out, and the marker leaves the frame agreeing with
        // the mode
        effects.gate_action == gate_decision_for(
            final(state).modes.free_roam,
            old(state).marker_present,
        ),
        final(state).marker_present == allow_player_input(final(state).modes.free_roam),
{
    state.modes.advance(switches, scheme);

    let look_applied = free_look(
        &mut state.look_accumulator,
        mouse_delta_x,
        mouse_delta_y,
        look_held,
        state.modes.free_roam,
    );

    state.active_camera = toggle_active_camera(state.active_camera, switches.free_roam_toggle);

    let move_intent = free_roam_step(
        keys,
        state.modes.free_roam,
        matches!(state.active_camera, ActiveCamera::Free),
        base_speed_milli,
        state.modes.speed_scale_tenths,
        delta_millis,
    );

    let gate_action = gate_decision(state.modes.free_roam, state.marker_present);
    state.marker_present = apply_gate(state.marker_present, gate_action);

    FrameEffects { look_applied, move_intent, gate_action }
}

} // verus!
