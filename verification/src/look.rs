//! The per-observer look accumulator: yaw and pitch built incrementally
//! from mouse-motion deltas, with the pitch clamped on every update so it
//! never reaches straight up or straight down.

use vstd::prelude::*;
use vstd::arithmetic::div_mod::lemma_fundamental_div_mod;
use vstd::arithmetic::div_mod::lemma_fundamental_div_mod_converse_mod;
use crate::modes::FreeRoamMode;

verus! {

/// Pitch never leaves `[-89.9, 89.9]` degrees, in millidegrees.
pub const PITCH_LIMIT_MILLIDEG: i64 = 89_900;

/// A full turn, in millidegrees.
pub const FULL_TURN_MILLIDEG: i64 = 360_000;

/// Pitch clamped to the open cone short of straight up and straight down.
pub open spec fn clamp_pitch(p: int) -> int {
    if p < -(PITCH_LIMIT_MILLIDEG as int) {
        -(PITCH_LIMIT_MILLIDEG as int)
    } else if p > PITCH_LIMIT_MILLIDEG as int {
        PITCH_LIMIT_MILLIDEG as int
    } else {
        p
    }
}

/// An angle reduced to `[0, 360000)` millidegrees; the same orientation,
/// since a yaw rotation is periodic in a full turn.
pub open spec fn wrap_angle(v: int) -> int {
    v % (FULL_TURN_MILLIDEG as int)
}

/// Per-observer persistent rotation state, fed by mouse-motion deltas.
/// Angles are in millidegrees; the sensitivity is how many millidegrees
/// one mouse count turns the view.
#[derive(Clone, Copy, Debug, PartialEq, Eq, Structural)]
pub struct LookAccumulator {
    /// Yaw in `[0, 360000)` millidegrees.
    pub yaw_millideg: i64,
    /// Pitch in `[-89900, 89900]` millidegrees.
    pub pitch_millideg: i64,
    /// Millidegrees of rotation per mouse count.
    pub sensitivity_millideg: u32,
}

/// An orientation as the standard first-person composition: the yaw
/// rotation about world up applied first, then the pitch rotation about
/// the yawed local right axis.
#[derive(Clone, Copy, Debug, PartialEq, Eq, Structural)]
pub struct YawPitch {
    pub yaw_millideg: i64,
    pub pitch_millideg: i64,
}

impl LookAccumulator {
    /// Yaw reduced to one turn, pitch inside the clamp cone.
    pub open spec fn wf(self) -> bool {
        &&& 0 <= self.yaw_millideg < FULL_TURN_MILLIDEG as int
        &&& -(PITCH_LIMIT_MILLIDEG as int) <= self.pitch_millideg <= PITCH_LIMIT_MILLIDEG as int
    }

    /// A fresh accumulator: level view, given sensitivity.
    pub fn new(sensitivity_millideg: u32) -> (a: LookAccumulator)
        ensures
            a.wf(),
            a.yaw_millideg == 0,
            a.pitch_millideg == 0,
            a.sensitivity_millideg == sensitivity_millideg,
    {
        LookAccumulator { yaw_millideg: 0, pitch_millideg: 0, sensitivity_millideg }
    }

    /// Feed one frame's summed mouse delta into the accumulator.
    ///
    /// Yaw and pitch each move by `delta * sensitivity` against the mouse
    /// direction; the pitch is clamped to `[-89900, 89900]` millidegrees
    /// on this very update, so a delta that would cross the bound leaves
    /// it exactly at the bound; the yaw is reduced to `[0, 360000)`.
    pub fn update(&mut self, delta_x: i32, delta_y: i32)
        requires
            old(self).wf(),
        ensures
            final(self).wf(),
            final(self).sensitivity_millideg == old(self).sensitivity_millideg,
            final(self).pitch_millideg == clamp_pitch(
                old(self).pitch_millideg - delta_y * old(self).sensitivity_millideg,
            ),
            final(self).yaw_millideg == wrap_angle(
                old(self).yaw_millideg - delta_x * old(self).sensitivity_millideg,
            ),
    {
        let sens: i64 = self.sensitivity_millideg as i64;
        proof {
            assert(-9223372034707292160 <= (delta_x as int) * (sens as int)
                <= 9223372030412324865) by (nonlinear_arith)
                requires
                    -2147483648 <= delta_x <= 2147483647,
                    0 <= sens <= 4294967295,
            ;
            assert(-9223372034707292160 <= (delta_y as int) * (sens as int)
                <= 9223372030412324865) by (nonlinear_arith)
                requires
                    -2147483648 <= delta_y <= 2147483647,
                    0 <= sens <= 4294967295,
            ;
        }
        let yaw_step: i64 = (delta_x as i64) * sens;
        let pitch_step: i64 = (delta_y as i64) * sens;

        let raw_pitch: i64 = self.pitch_millideg - pitch_step;
        self.pitch_millideg = if raw_pitch < -PITCH_LIMIT_MILLIDEG {
            -PITCH_LIMIT_MILLIDEG
        } else if raw_pitch > PITCH_LIMIT_MILLIDEG {
            PITCH_LIMIT_MILLIDEG
        } else {
            raw_pitch
        };

        self.yaw_millideg = wrap_full_turn(self.yaw_millideg, yaw_step);
    }

    /// The orientation the accumulator currently stands for.
    pub fn orientation(&self) -> (o: YawPitch)
        ensures
            o.yaw_millideg == self.yaw_millideg,
            o.pitch_millideg == self.pitch_millideg,
    {
        YawPitch { yaw_millideg: self.yaw_millideg, pitch_millideg: self.pitch_millideg }
    }
}

/// `base - step`, reduced to `[0, 360000)` millidegrees.
fn wrap_full_turn(base: i64, step: i64) -> (r: i64)
    requires
        0 <= base < FULL_TURN_MILLIDEG as int,
        -9223372034707292160 <= step <= 9223372030412324865,
    ensures
        r == wrap_angle(base - step),
{
    let (magnitude, negative): (u64, bool) = if step >= 0 {
        (step as u64, false)
    } else {
        ((-step) as u64, true)
    };
    let remainder: i64 = (magnitude % (FULL_TURN_MILLIDEG as u64)) as i64;
    let wrapped: i64 = if negative {
        let lifted: i64 = base + remainder;
        if lifted >= FULL_TURN_MILLIDEG {
            lifted - FULL_TURN_MILLIDEG
        } else {
            lifted
        }
    } else {
        let dropped: i64 = base - remainder;
        if dropped < 0 {
            dropped + FULL_TURN_MILLIDEG
        } else {
            dropped
        }
    };
    proof {
        let turn: int = FULL_TURN_MILLIDEG as int;
        let quotient: int = (magnitude as int) / turn;
        lemma_fundamental_div_mod(magnitude as int, turn);
        if negative {
            if base + remainder >= turn {
                assert(base - step == (quotient + 1) * turn + wrapped) by (nonlinear_arith)
                    requires
                        magnitude == -(step as int),
                        magnitude as int == turn * quotient + remainder,
                        wrapped == base + remainder - turn,
                ;
            } else {
                assert(base - step == quotient * turn + wrapped) by (nonlinear_arith)
                    requires
                        magnitude == -(step as int),
                        magnitude as int == turn * quotient + remainder,
                        wrapped == base + remainder,
                ;
            }
            if base + remainder >= turn {
                lemma_fundamental_div_mod_converse_mod(base - step, turn, quotient + 1, wrapped as int);
            } else {
                lemma_fundamental_div_mod_converse_mod(base - step, turn, quotient, wrapped as int);
            }
        } else {
            if base - remainder < 0 {
                assert(base - step == (-quotient - 1) * turn + wrapped) by (nonlinear_arith)
                    requires
                        magnitude == step as int,
                        magnitude as int == turn * quotient + remainder,
                        wrapped == base - remainder + turn,
                ;
            } else {
                assert(base - step == (-quotient) * turn + wrapped) by (nonlinear_arith)
                    requires
                        magnitude == step as int,
                        magnitude as int == turn * quotient + remainder,
                        wrapped == base - remainder,
                ;
            }
            if base - remainder < 0 {
                lemma_fundamental_div_mod_converse_mod(base - step, turn, -quotient - 1, wrapped as int);
            } else {
                lemma_fundamental_div_mod_converse_mod(base - step, turn, -quotient, wrapped as int);
            }
        }
    }
    wrapped
}

/// One frame of the free camera's look pass.
///
/// Accumulation happens only while the activation button is held;
/// releasing it freezes yaw and pitch at their last values. The computed
/// orientation is handed out for writing to the free camera's transform
/// exactly when the free-roam mode is `Free`; in every other mode the
/// delta was still accumulated, so no motion is lost, but nothing is
/// written this frame.
pub fn free_look(
    accumulator: &mut LookAccumulator,
    delta_x: i32,
    delta_y: i32,
    activation_held: bool,
    mode: FreeRoamMode,
) -> (applied: Option<YawPitch>)
    requires
        old(accumulator).wf(),
    ensures
        final(accumulator).wf(),
        final(accumulator).sensitivity_millideg == old(accumulator).sensitivity_millideg,
        !activation_held ==> *final(accumulator) == *old(accumulator),
        activation_held ==> final(accumulator).pitch_millideg == clamp_pitch(
            old(accumulator).pitch_millideg - delta_y * old(accumulator).sensitivity_millideg,
        ),
        activation_held ==> final(accumulator).yaw_millideg == wrap_angle(
            old(accumulator).yaw_millideg - delta_x * old(accumulator).sensitivity_millideg,
        ),
        applied matches Some(o) ==> o.yaw_millideg == final(accumulator).yaw_millideg
            && o.pitch_millideg == final(accumulator).pitch_millideg,
        (applied is Some) <==> (activation_held && mode is Free),
{
    if !activation_held {
        return None;
    }
    accumulator.update(delta_x, delta_y);
    if matches!(mode, FreeRoamMode::Free) {
        Some(accumulator.orientation())
    } else {
        None
    }
}

/// The pitch after a whole sequence of deltas, each step clamped as
/// [`LookAccumulator::update`] clamps it.
pub open spec fn pitch_after_deltas(start: int, sensitivity: int, deltas: Seq<int>) -> int
    decreases deltas.len(),
{
    if deltas.len() == 0 {
        start
    } else {
        clamp_pitch(pitch_after_deltas(start, sensitivity, deltas.drop_last()) - deltas.last() * sensitivity)
    }
}

/// However long the delta sequence, the accumulated pitch stays inside
/// `[-89900, 89900]` millidegrees: the clamp on every step keeps each
/// intermediate value, and so the final value, inside the bound.
pub proof fn lemma_pitch_always_clamped(start: int, sensitivity: int, deltas: Seq<int>)
    requires
        -(PITCH_LIMIT_MILLIDEG as int) <= start <= PITCH_LIMIT_MILLIDEG as int,
    ensures
        -(PITCH_LIMIT_MILLIDEG as int) <= pitch_after_deltas(start, sensitivity, deltas)
            <= PITCH_LIMIT_MILLIDEG as int,
    decreases deltas.len(),
{
    if deltas.len() == 0 {
    } else {
        lemma_pitch_always_clamped(start, sensitivity, deltas.drop_last());
    }
}

/// A delta that would push the pitch past a bound leaves it exactly at
/// that bound, and a further delta in the same direction holds it there.
pub proof fn lemma_pitch_sticks_at_bound(pitch: int, sensitivity: int, delta: int)
    ensures
        pitch - delta * sensitivity >= PITCH_LIMIT_MILLIDEG as int ==> clamp_pitch(
            pitch - delta * sensitivity,
        ) == PITCH_LIMIT_MILLIDEG as int,
        pitch - delta * sensitivity <= -(PITCH_LIMIT_MILLIDEG as int) ==> clamp_pitch(
            pitch - delta * sensitivity,
        ) == -(PITCH_LIMIT_MILLIDEG as int),
{
}

} // verus!
