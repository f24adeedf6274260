//! The free-roam mover: while the free camera is piloted it integrates
//! the camera's position along its own local axes at a mode-dependent
//! speed, and it owns the main/free active-camera toggle.

use vstd::prelude::*;
use crate::modes::FreeRoamMode;

verus! {

/// Milli-units per second the free camera covers at scale 1x.
pub const BASE_FREE_ROAM_SPEED_MILLI: u32 = 4_000;

/// The six directional keys held this frame.
#[derive(Clone, Copy, Debug, PartialEq, Eq, Structural)]
pub struct MoveInput {
    pub forward: bool,
    pub left: bool,
    pub back: bool,
    pub right: bool,
    pub up: bool,
    pub down: bool,
}

/// The signed contribution of one axis's key pair: the positive key
/// counts one, the negative key counts minus one, so opposite keys held
/// together cancel to zero.
pub open spec fn axis_coefficient(positive: bool, negative: bool) -> int {
    (if positive { 1int } else { 0int }) - (if negative { 1int } else { 0int })
}

/// The movement direction as coefficients over the free camera's local
/// basis: its forward axis, its right axis, and world up. Each lies in
/// `{-1, 0, 1}`.
#[derive(Clone, Copy, Debug, PartialEq, Eq, Structural)]
pub struct MoveAxes {
    pub forward: i8,
    pub right: i8,
    pub up: i8,
}

impl MoveAxes {
    /// Each coefficient comes from its key pair.
    pub open spec fn matches_input(self, input: MoveInput) -> bool {
        &&& self.forward == axis_coefficient(input.forward, input.back)
        &&& self.right == axis_coefficient(input.right, input.left)
        &&& self.up == axis_coefficient(input.up, input.down)
    }

    /// No key pressed, or every pressed key cancelled by its opposite.
    pub open spec fn is_zero(self) -> bool {
        self.forward == 0 && self.right == 0 && self.up == 0
    }
}

/// The held keys sum to no direction at all: each axis's key pair is
/// unpressed or cancels out.
pub open spec fn no_direction_held(input: MoveInput) -> bool {
    &&& axis_coefficient(input.forward, input.back) == 0
    &&& axis_coefficient(input.right, input.left) == 0
    &&& axis_coefficient(input.up, input.down) == 0
}

/// Sum the held keys into per-axis coefficients.
pub fn move_axes(input: &MoveInput) -> (axes: MoveAxes)
    ensures
        axes.matches_input(*input),
        -1 <= axes.forward <= 1 && -1 <= axes.right <= 1 && -1 <= axes.up <= 1,
{
    let forward: i8 = (if input.forward { 1i8 } else { 0i8 }) - (if input.back { 1i8 } else { 0i8 });
    let right: i8 = (if input.right { 1i8 } else { 0i8 }) - (if input.left { 1i8 } else { 0i8 });
    let up: i8 = (if input.up { 1i8 } else { 0i8 }) - (if input.down { 1i8 } else { 0i8 });
    MoveAxes { forward, right, up }
}

/// The distance covered in one frame, in milli-units: speed at scale 1x,
/// times the scale in tenths, times the elapsed milliseconds, brought
/// back to milli-units by the two scale factors.
pub open spec fn step_length_milli(base_speed_milli: u32, scale_tenths: u8, delta_millis: u32) -> int {
    (base_speed_milli * scale_tenths * delta_millis) / 10_000
}

/// Compute the frame's step length.
pub fn step_length(base_speed_milli: u32, scale_tenths: u8, delta_millis: u32) -> (step: u64)
    ensures
        step == step_length_milli(base_speed_milli, scale_tenths, delta_millis),
{
    proof {
        assert((base_speed_milli as int) * (scale_tenths as int) <= 0xffffffff * 0xff)
            by (nonlinear_arith)
            requires
                base_speed_milli <= 0xffffffffu32,
                scale_tenths <= 0xffu8,
        ;
    }
    let scaled: u128 = (base_speed_milli as u128) * (scale_tenths as u128);
    proof {
        assert((scaled as int) * (delta_millis as int) <= 0xffffffff * 0xff * 0xffffffff)
            by (nonlinear_arith)
            requires
                scaled <= 0xffffffff * 0xff,
                delta_millis <= 0xffffffffu32,
        ;
    }
    let wide: u128 = scaled * (delta_millis as u128);
    (wide / 10_000) as u64
}

/// What one frame of free-roam movement does: the camera's translation
/// moves by `step_milli` milli-units along the unit vector of
/// `axes.forward * F + axes.right * R + axes.up * U`, where `F` and `R`
/// are the free camera's local forward and right axes and `U` is world
/// up. The host performs that normalization and addition on its own
/// vector representation.
#[derive(Clone, Copy, Debug, PartialEq, Eq, Structural)]
pub struct MoveIntent {
    pub axes: MoveAxes,
    pub step_milli: u64,
}

/// One frame of the free-roam movement pass.
///
/// Movement happens only while the free camera is the active viewpoint
/// and the free-roam mode is `Free`, and only if the held keys sum to a
/// nonzero direction. In `Locked`, `FollowBody` and `FollowHead` the
/// directional input is read but discarded; the follow modes' positional
/// coupling is not yet active.
pub fn free_roam_step(
    input: &MoveInput,
    mode: FreeRoamMode,
    free_camera_active: bool,
    base_speed_milli: u32,
    scale_tenths: u8,
    delta_millis: u32,
) -> (intent: Option<MoveIntent>)
    ensures
        (intent is Some) <==> (free_camera_active && mode is Free && !no_direction_held(*input)),
        intent matches Some(i) ==> i.axes.matches_input(*input) && i.step_milli
            == step_length_milli(base_speed_milli, scale_tenths, delta_millis),
{
    if !free_camera_active {
        return None;
    }
    let axes = move_axes(input);
    if axes.forward == 0 && axes.right == 0 && axes.up == 0 {
        return None;
    }
    match mode {
        FreeRoamMode::Free => Some(
            MoveIntent {
                axes,
                step_milli: step_length(base_speed_milli, scale_tenths, delta_millis),
            },
        ),
        _ => None,
    }
}

/// Which of the two cameras is the active render viewpoint. Exactly one
/// is active at any time: the type has no state for both or neither.
#[derive(Clone, Copy, Debug, PartialEq, Eq, Structural)]
pub enum ActiveCamera {
    Main,
    Free,
}

/// The other camera.
pub open spec fn flipped(c: ActiveCamera) -> ActiveCamera {
    match c {
        ActiveCamera::Main => ActiveCamera::Free,
        ActiveCamera::Free => ActiveCamera::Main,
    }
}

/// On a toggle-key press, flip which camera renders; otherwise keep it.
pub fn toggle_active_camera(current: ActiveCamera, toggle_pressed: bool) -> (next: ActiveCamera)
    ensures
        next == if toggle_pressed {
            flipped(current)
        } else {
            current
        },
{
    if toggle_pressed {
        match current {
            ActiveCamera::Main => ActiveCamera::Free,
            ActiveCamera::Free => ActiveCamera::Main,
        }
    } else {
        current
    }
}

/// The squared length of a vector given by integer components.
pub open spec fn norm_sq(x: int, y: int, z: int) -> int {
    x * x + y * y + z * z
}

/// Diagonal motion is no faster than axis-aligned motion.
///
/// Scaling the axis vector by the step multiplies its squared length by
/// the squared step. The frame's displacement is the axis vector scaled
/// by the step and then divided by the axis vector's own length, so its
/// squared length is exactly the squared step — one step per frame
/// whether one directional key is held or three, never a root-two
/// multiple of it.
pub proof fn lemma_displacement_magnitude(f: int, r: int, u: int, step: int)
    ensures
        norm_sq(f * step, r * step, u * step) == norm_sq(f, r, u) * (step * step),
{
    assert((f * step) * (f * step) == (f * f) * (step * step)) by (nonlinear_arith);
    assert((r * step) * (r * step) == (r * r) * (step * step)) by (nonlinear_arith);
    assert((u * step) * (u * step) == (u * u) * (step * step)) by (nonlinear_arith);
    let ff: int = f * f;
    let rr: int = r * r;
    let uu: int = u * u;
    let ss: int = step * step;
    assert((ff + rr + uu) * ss == ff * ss + rr * ss + uu * ss) by (nonlinear_arith);
}

} // verus!
