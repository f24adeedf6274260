//! The fixed-step transform resolver: once per simulation tick it derives
//! the main camera's placement from the player pose, the point of view,
//! the offset table and the independently tracked camera pitch.

use vstd::prelude::*;
use crate::look::YawPitch;
use crate::modes::PointOfView;
use crate::vec3::Vec3Milli;
use crate::vec3::is_sum;
use crate::vec3::plus_in_range;

verus! {

/// The startup offset table, one positional offset per point of view.
/// The first-person offset is player-relative; the third-person and
/// over-shoulder offsets are fixed world-space points.
#[derive(Clone, Copy, Debug, PartialEq, Eq, Structural)]
pub struct CameraOffsets {
    pub first_person: Vec3Milli,
    pub third_person: Vec3Milli,
    pub over_shoulder: Vec3Milli,
}

/// What the resolver reads of the player body each fixed tick: its world
/// position, and the yaw component already extracted from its
/// orientation (the player's pitch and roll are ignored by design).
#[derive(Clone, Copy, Debug, PartialEq, Eq, Structural)]
pub struct PlayerPose {
    pub position: Vec3Milli,
    pub yaw_millideg: i64,
}

/// How the main camera is to be oriented this tick. `YawPitch` is the
/// first-person composition (yaw about world up, then pitch in the yawed
/// frame); `LookAtOrigin` points the camera from its position at the
/// fixed world origin, with world up as the up reference.
#[derive(Clone, Copy, Debug, PartialEq, Eq, Structural)]
pub enum CameraAim {
    YawPitch(YawPitch),
    LookAtOrigin,
}

/// The main camera's placement for one fixed tick.
#[derive(Clone, Copy, Debug, PartialEq, Eq, Structural)]
pub struct CameraPlacement {
    pub position: Vec3Milli,
    pub aim: CameraAim,
}

/// Derive the main camera's placement for this fixed tick.
///
/// First person: the camera sits at the player position plus the
/// first-person offset, yawed as the player is and pitched by the
/// independently accumulated camera pitch. Third person and over
/// shoulder: the camera sits at the mode's fixed world offset and looks
/// at the world origin. Runs every fixed tick, input or no input, since
/// the player moves continuously.
pub fn resolve_main_camera(
    point_of_view: PointOfView,
    pose: &PlayerPose,
    offsets: &CameraOffsets,
    camera_pitch_millideg: i64,
) -> (placement: CameraPlacement)
    requires
        point_of_view is FirstPerson ==> plus_in_range(pose.position, offsets.first_person),
    ensures
        point_of_view is FirstPerson ==> is_sum(
            placement.position,
            pose.position,
            offsets.first_person,
        ) && placement.aim == CameraAim::YawPitch(
            YawPitch {
                yaw_millideg: pose.yaw_millideg,
                pitch_millideg: camera_pitch_millideg,
            },
        ),
        point_of_view is ThirdPerson ==> placement.position == offsets.third_person
            && placement.aim is LookAtOrigin,
        point_of_view is OverShoulder ==> placement.position == offsets.over_shoulder
            && placement.aim is LookAtOrigin,
{
    match point_of_view {
        PointOfView::FirstPerson => CameraPlacement {
            position: pose.position.plus(&offsets.first_person),
            aim: CameraAim::YawPitch(
                YawPitch {
                    yaw_millideg: pose.yaw_millideg,
                    pitch_millideg: camera_pitch_millideg,
                },
            ),
        },
        PointOfView::ThirdPerson => CameraPlacement {
            position: offsets.third_person,
            aim: CameraAim::LookAtOrigin,
        },
        PointOfView::OverShoulder => CameraPlacement {
            position: offsets.over_shoulder,
            aim: CameraAim::LookAtOrigin,
        },
    }
}

} // verus!
