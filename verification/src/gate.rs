//! The input gate: the sole mechanism keeping free-roam piloting and
//! player-driven movement mutually exclusive. Each frame it decides
//! whether the player body's input-enabled marker must be attached,
//! removed, or left alone.

use vstd::prelude::*;
use crate::modes::FreeRoamMode;

verus! {

/// What to do with the player's input-enabled marker this frame.
#[derive(Clone, Copy, Debug, PartialEq, Eq, Structural)]
pub enum GateAction {
    Attach,
    Remove,
    Keep,
}

/// The player body may receive movement input exactly while the user is
/// not piloting the free camera.
pub open spec fn allow_player_input(mode: FreeRoamMode) -> bool {
    !(mode is Free)
}

/// The input gate's decision: attach the marker when input is allowed
/// but the marker is absent, remove it when input is not allowed but the
/// marker is present, and otherwise touch nothing.
pub open spec fn gate_decision_for(mode: FreeRoamMode, marker_present: bool) -> GateAction {
    if allow_player_input(mode) && !marker_present {
        GateAction::Attach
    } else if !allow_player_input(mode) && marker_present {
        GateAction::Remove
    } else {
        GateAction::Keep
    }
}

/// Whether the marker is present once an action has been carried out.
pub open spec fn marker_after(marker_present: bool, action: GateAction) -> bool {
    match action {
        GateAction::Attach => true,
        GateAction::Remove => false,
        GateAction::Keep => marker_present,
    }
}

/// Decide this frame's marker action.
pub fn gate_decision(mode: FreeRoamMode, marker_present: bool) -> (action: GateAction)
    ensures
        action == gate_decision_for(mode, marker_present),
{
    let allow = !matches!(mode, FreeRoamMode::Free);
    if allow && !marker_present {
        GateAction::Attach
    } else if !allow && marker_present {
        GateAction::Remove
    } else {
        GateAction::Keep
    }
}

/// The marker state an action leaves behind.
pub fn apply_gate(marker_present: bool, action: GateAction) -> (present: bool)
    ensures
        present == marker_after(marker_present, action),
{
    match action {
        GateAction::Attach => true,
        GateAction::Remove => false,
        GateAction::Keep => marker_present,
    }
}

/// One run of the input gate leaves the marker agreeing with the mode:
/// present exactly when player input is allowed.
pub proof fn lemma_gate_establishes_agreement(mode: FreeRoamMode, marker_present: bool)
    ensures
        marker_after(marker_present, gate_decision_for(mode, marker_present))
            == allow_player_input(mode),
{
}

/// The input gate is idempotent: run once and carried out, a second run
/// with the free-roam mode unchanged decides `Keep` — no second mutation.
pub proof fn lemma_gate_idempotent(mode: FreeRoamMode, marker_present: bool)
    ensures
        gate_decision_for(mode, marker_after(marker_present, gate_decision_for(mode, marker_present)))
            is Keep,
{
}

} // verus!
