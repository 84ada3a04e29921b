//! The orbit camera's writable state, the reset-view command and the
//! distance-dependent star marker scale.

use vstd::prelude::*;
use crate::pick::CameraTarget;

verus! {

/// The camera pose the controller steers toward: yaw and pitch in
/// microdegrees, radius in milli-units.
#[derive(Clone, Copy, PartialEq, Eq, Structural, Debug)]
pub struct CameraPose {
    pub target_yaw_udeg: i64,
    pub target_pitch_udeg: i64,
    pub target_radius_milli: u64,
}

/// The camera pose the view starts from and returns to on reset:
/// yaw -15 degrees, pitch 20 degrees, radius 4.0 units.
#[derive(Clone, Copy, PartialEq, Eq, Structural, Debug)]
pub struct OriginalCameraConfig {
    pub radius_milli: u64,
    pub pitch_udeg: i64,
    pub yaw_udeg: i64,
}

pub open spec fn spec_default_camera() -> OriginalCameraConfig {
    OriginalCameraConfig { radius_milli: 4000u64, pitch_udeg: 20_000_000i64, yaw_udeg: -15_000_000i64 }
}

impl Default for OriginalCameraConfig {
    fn default() -> (r: Self)
        ensures
            r == spec_default_camera(),
    {
        OriginalCameraConfig { radius_milli: 4000, pitch_udeg: 20_000_000, yaw_udeg: -15_000_000 }
    }
}

/// Restore the camera to the original pose, whatever its prior state:
/// afterwards the targets are exactly the configured yaw, pitch and
/// radius.
pub fn reset_view(cam: &mut CameraPose, orig: &OriginalCameraConfig)
    ensures
        final(cam).target_yaw_udeg == orig.yaw_udeg,
        final(cam).target_pitch_udeg == orig.pitch_udeg,
        final(cam).target_radius_milli == orig.radius_milli,
{
    cam.target_yaw_udeg = orig.yaw_udeg;
    cam.target_pitch_udeg = orig.pitch_udeg;
    cam.target_radius_milli = orig.radius_milli;
}

/// Point the camera at a picked star: yaw and pitch are overwritten,
/// the radius is left alone.
pub fn retarget_camera(cam: &mut CameraPose, t: &CameraTarget)
    ensures
        final(cam).target_yaw_udeg == t.yaw_udeg,
        final(cam).target_pitch_udeg == t.pitch_udeg,
        final(cam).target_radius_milli == old(cam).target_radius_milli,
{
    cam.target_yaw_udeg = t.yaw_udeg;
    cam.target_pitch_udeg = t.pitch_udeg;
}

/// The star marker scale for a camera radius: 0.3 times the radius,
/// capped at 1.5, both in milli-units.
pub open spec fn spec_star_scale_milli(radius_milli: int) -> int {
    if 3 * radius_milli / 10 < 1500 {
        3 * radius_milli / 10
    } else {
        1500
    }
}

pub fn star_scale_milli(radius_milli: u64) -> (r: u64)
    requires
        radius_milli <= 6_000_000_000_000_000_000,
    ensures
        r == spec_star_scale_milli(radius_milli as int),
        r <= 1500,
{
    let s: u64 = 3 * radius_milli / 10;
    if s < 1500 {
        s
    } else {
        1500
    }
}

} // verus!
