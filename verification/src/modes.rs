//! The mode state machine: point of view, free-roam mode, and the
//! free-roam speed scale, advanced once per frame from key events.

use vstd::prelude::*;
use vstd::arithmetic::div_mod::lemma_add_mod_noop;

verus! {

/// Which placement rule the main camera uses.
#[derive(Clone, Copy, Debug, PartialEq, Eq, Structural)]
pub enum PointOfView {
    FirstPerson,
    ThirdPerson,
    OverShoulder,
}

/// The detached-camera mode. `FollowBody` and `FollowHead` are declared
/// states of the machine whose positional coupling is not yet active:
/// while in them, movement input is read but discarded.
#[derive(Clone, Copy, Debug, PartialEq, Eq, Structural)]
pub enum FreeRoamMode {
    Off,
    Free,
    Locked,
    FollowBody,
    FollowHead,
}

/// How the free-roam mode reacts to key events: one toggle key that walks
/// the five modes in a fixed cycle, or dedicated keys that jump straight
/// to a mode from any state.
#[derive(Clone, Copy, Debug, PartialEq, Eq, Structural)]
pub enum TransitionScheme {
    CyclicToggle,
    DirectJump,
}

/// The key events one frame hands to the switcher. Every field is a
/// rising edge: the key went down this frame, holding it does not repeat.
#[derive(Clone, Copy, Debug, PartialEq, Eq, Structural)]
pub struct SwitchInput {
    /// Cycle the point of view.
    pub pov_switch: bool,
    /// The free-roam toggle key: cycles under `CyclicToggle`, jumps to
    /// `Free` under `DirectJump`.
    pub free_roam_toggle: bool,
    /// Jump straight to `Locked` (`DirectJump` only).
    pub jump_locked: bool,
    /// Jump straight to `FollowBody` (`DirectJump` only).
    pub jump_follow_body: bool,
    /// Jump straight to `FollowHead` (`DirectJump` only).
    pub jump_follow_head: bool,
    /// Speed tier 0.5x.
    pub tier_extra_slow: bool,
    /// Speed tier 1x.
    pub tier_slow: bool,
    /// Speed tier 1.5x.
    pub tier_medium: bool,
    /// Speed tier 2x.
    pub tier_fast: bool,
    /// Speed tier 3x.
    pub tier_extra_fast: bool,
    /// Speed tier 5x.
    pub tier_insane: bool,
}

impl SwitchInput {
    /// A frame in which none of the switcher keys fired.
    pub fn none() -> (s: SwitchInput)
        ensures
            s == (SwitchInput {
                pov_switch: false,
                free_roam_toggle: false,
                jump_locked: false,
                jump_follow_body: false,
                jump_follow_head: false,
                tier_extra_slow: false,
                tier_slow: false,
                tier_medium: false,
                tier_fast: false,
                tier_extra_fast: false,
                tier_insane: false,
            }),
    {
        SwitchInput {
            pov_switch: false,
            free_roam_toggle: false,
            jump_locked: false,
            jump_follow_body: false,
            jump_follow_head: false,
            tier_extra_slow: false,
            tier_slow: false,
            tier_medium: false,
            tier_fast: false,
            tier_extra_fast: false,
            tier_insane: false,
        }
    }
}

/// The speed scale in tenths is one of the six named tiers:
/// 0.5x, 1x, 1.5x, 2x, 3x, 5x.
pub open spec fn valid_speed_scale(tenths: u8) -> bool {
    tenths == 5 || tenths == 10 || tenths == 15 || tenths == 20 || tenths == 30 || tenths == 50
}

/// The next point of view under the cyclic switch key.
pub open spec fn cycle_point_of_view(p: PointOfView) -> PointOfView {
    match p {
        PointOfView::FirstPerson => PointOfView::ThirdPerson,
        PointOfView::ThirdPerson => PointOfView::OverShoulder,
        PointOfView::OverShoulder => PointOfView::FirstPerson,
    }
}

/// The position of a free-roam mode on the toggle cycle
/// `Off, Free, Locked, FollowBody, FollowHead`.
pub open spec fn free_roam_index(m: FreeRoamMode) -> int {
    match m {
        FreeRoamMode::Off => 0,
        FreeRoamMode::Free => 1,
        FreeRoamMode::Locked => 2,
        FreeRoamMode::FollowBody => 3,
        FreeRoamMode::FollowHead => 4,
    }
}

/// The next free-roam mode under one press of the cyclic toggle key.
pub open spec fn cycle_free_roam(m: FreeRoamMode) -> FreeRoamMode {
    match m {
        FreeRoamMode::Off => FreeRoamMode::Free,
        FreeRoamMode::Free => FreeRoamMode::Locked,
        FreeRoamMode::Locked => FreeRoamMode::FollowBody,
        FreeRoamMode::FollowBody => FreeRoamMode::FollowHead,
        FreeRoamMode::FollowHead => FreeRoamMode::Off,
    }
}

/// The free-roam mode after `n` presses of the cyclic toggle key.
pub open spec fn cycle_free_roam_n(m: FreeRoamMode, n: nat) -> FreeRoamMode
    decreases n,
{
    if n == 0 {
        m
    } else {
        cycle_free_roam(cycle_free_roam_n(m, (n - 1) as nat))
    }
}

/// After `n` cyclic toggles the mode sits `n` places further along the
/// five-mode cycle: its index is the start index plus `n`, modulo five.
pub proof fn lemma_cycle_free_roam_n_index(m: FreeRoamMode, n: nat)
    ensures
        free_roam_index(cycle_free_roam_n(m, n)) == (free_roam_index(m) + n) % 5,
    decreases n,
{
    if n == 0 {
    } else {
        lemma_cycle_free_roam_n_index(m, (n - 1) as nat);
        lemma_add_mod_noop(free_roam_index(m) + (n - 1), 1, 5);
    }
}

/// The free-roam mode after one frame's key events.
///
/// Under `DirectJump`, when several mode keys fire in one frame the
/// highest-numbered one wins: `FollowHead` over `FollowBody` over
/// `Locked` over `Free`. No transition is ever rejected.
pub open spec fn next_free_roam(m: FreeRoamMode, input: SwitchInput, scheme: TransitionScheme) -> FreeRoamMode {
    match scheme {
        TransitionScheme::CyclicToggle => if input.free_roam_toggle {
            cycle_free_roam(m)
        } else {
            m
        },
        TransitionScheme::DirectJump => if input.jump_follow_head {
            FreeRoamMode::FollowHead
        } else if input.jump_follow_body {
            FreeRoamMode::FollowBody
        } else if input.jump_locked {
            FreeRoamMode::Locked
        } else if input.free_roam_toggle {
            FreeRoamMode::Free
        } else {
            m
        },
    }
}

/// The free-roam mode after a whole sequence of frames' key events.
pub open spec fn free_roam_after_frames(
    m: FreeRoamMode,
    inputs: Seq<SwitchInput>,
    scheme: TransitionScheme,
) -> FreeRoamMode
    decreases inputs.len(),
{
    if inputs.len() == 0 {
        m
    } else {
        next_free_roam(free_roam_after_frames(m, inputs.drop_last(), scheme), inputs.last(), scheme)
    }
}

/// For every sequence of frames that each press the toggle key, the
/// free-roam mode under the cyclic scheme ends `N` places further along
/// the five-mode cycle, `N` the length of the sequence: toggle presses
/// compose exactly as [`cycle_free_roam_n`] says.
pub proof fn lemma_toggle_frames_walk_the_cycle(
    m: FreeRoamMode,
    inputs: Seq<SwitchInput>,
)
    requires
        forall|i: int| 0 <= i < inputs.len() ==> (#[trigger] inputs[i]).free_roam_toggle,
    ensures
        free_roam_after_frames(m, inputs, TransitionScheme::CyclicToggle) == cycle_free_roam_n(
            m,
            inputs.len(),
        ),
        free_roam_index(free_roam_after_frames(m, inputs, TransitionScheme::CyclicToggle)) == (
        free_roam_index(m) + inputs.len()) % 5,
    decreases inputs.len(),
{
    if inputs.len() == 0 {
    } else {
        lemma_toggle_frames_walk_the_cycle(m, inputs.drop_last());
        assert(inputs[inputs.len() - 1].free_roam_toggle);
    }
    lemma_cycle_free_roam_n_index(m, inputs.len());
}

/// The speed scale after one frame's key events, given the free-roam mode
/// the same frame settled on. Tier keys act only in `Free`; when several
/// fire at once the fastest wins.
pub open spec fn next_speed_scale(mode_after: FreeRoamMode, tenths: u8, input: SwitchInput) -> u8 {
    if mode_after is Free {
        if input.tier_insane {
            50
        } else if input.tier_extra_fast {
            30
        } else if input.tier_fast {
            20
        } else if input.tier_medium {
            15
        } else if input.tier_slow {
            10
        } else if input.tier_extra_slow {
            5
        } else {
            tenths
        }
    } else {
        tenths
    }
}

/// Speed-tier keys are inert outside `Free`: whatever fired this frame,
/// a frame that does not end in `Free` leaves the scale untouched.
pub proof fn lemma_tier_keys_inert_outside_free(mode_after: FreeRoamMode, tenths: u8, input: SwitchInput)
    requires
        !(mode_after is Free),
    ensures
        next_speed_scale(mode_after, tenths, input) == tenths,
{
}

/// The authoritative mode state: the two independent mode axes and the
/// free-roam speed scale, in tenths. Any combination of the two axes is
/// valid. Mutated only by [`ModeState::advance`].
#[derive(Clone, Copy, Debug, PartialEq, Eq, Structural)]
pub struct ModeState {
    pub point_of_view: PointOfView,
    pub free_roam: FreeRoamMode,
    /// Free-roam speed scale in tenths: one of 5, 10, 15, 20, 30, 50.
    pub speed_scale_tenths: u8,
}

impl ModeState {
    /// The speed scale always sits on one of the six named tiers.
    pub open spec fn wf(self) -> bool {
        valid_speed_scale(self.speed_scale_tenths)
    }

    /// The startup state: first person, free-roam off, scale 1x.
    pub fn new() -> (s: ModeState)
        ensures
            s.wf(),
            s.point_of_view == PointOfView::FirstPerson,
            s.free_roam == FreeRoamMode::Off,
            s.speed_scale_tenths == 10,
    {
        ModeState {
            point_of_view: PointOfView::FirstPerson,
            free_roam: FreeRoamMode::Off,
            speed_scale_tenths: 10,
        }
    }

    /// Advance the state machine by one frame of key events.
    ///
    /// The point of view cycles on its switch key; the free-roam mode
    /// follows [`next_free_roam`] under the chosen scheme; the speed
    /// scale follows [`next_speed_scale`], gated on the free-roam mode
    /// this same frame settled on.
    pub fn advance(&mut self, input: &SwitchInput, scheme: TransitionScheme)
        ensures
            final(self).point_of_view == if input.pov_switch {
                cycle_point_of_view(old(self).point_of_view)
            } else {
                old(self).point_of_view
            },
            final(self).free_roam == next_free_roam(old(self).free_roam, *input, scheme),
            final(self).speed_scale_tenths == next_speed_scale(
                final(self).free_roam,
                old(self).speed_scale_tenths,
                *input,
            ),
            old(self).wf() ==> final(self).wf(),
    {
        if input.pov_switch {
            self.point_of_view = match self.point_of_view {
                PointOfView::FirstPerson => PointOfView::ThirdPerson,
                PointOfView::ThirdPerson => PointOfView::OverShoulder,
                PointOfView::OverShoulder => PointOfView::FirstPerson,
            };
        }
        match scheme {
            TransitionScheme::CyclicToggle => {
                if input.free_roam_toggle {
                    self.free_roam = match self.free_roam {
                        FreeRoamMode::Off => FreeRoamMode::Free,
                        FreeRoamMode::Free => FreeRoamMode::Locked,
                        FreeRoamMode::Locked => FreeRoamMode::FollowBody,
                        FreeRoamMode::FollowBody => FreeRoamMode::FollowHead,
                        FreeRoamMode::FollowHead => FreeRoamMode::Off,
                    };
                }
            },
            TransitionScheme::DirectJump => {
                if input.jump_follow_head {
                    self.free_roam = FreeRoamMode::FollowHead;
                } else if input.jump_follow_body {
                    self.free_roam = FreeRoamMode::FollowBody;
                } else if input.jump_locked {
                    self.free_roam = FreeRoamMode::Locked;
                } else if input.free_roam_toggle {
                    self.free_roam = FreeRoamMode::Free;
                }
            },
        }
        if matches!(self.free_roam, FreeRoamMode::Free) {
            if input.tier_insane {
                self.speed_scale_tenths = 50;
            } else if input.tier_extra_fast {
                self.speed_scale_tenths = 30;
            } else if input.tier_fast {
                self.speed_scale_tenths = 20;
            } else if input.tier_medium {
                self.speed_scale_tenths = 15;
            } else if input.tier_slow {
                self.speed_scale_tenths = 10;
            } else if input.tier_extra_slow {
                self.speed_scale_tenths = 5;
            }
        }
    }
}

} // verus!
