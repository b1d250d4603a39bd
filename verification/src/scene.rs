//! The fixed scene: sphere, ground plane, camera, grid and light, all in
//! fixed-point units (`FX_ONE` per world unit).

use vstd::prelude::*;

use crate::fixed::FX_ONE;

verus! {

/// Grid resolution: the frame is `SIZE` columns by `SIZE / 2` rows.
pub const SIZE: usize = 130;

/// Radius of the sphere, centered at the coordinate origin.
pub const BALL_RADIUS: i128 = 10 * FX_ONE;

/// Height of the camera on the vertical axis.
pub const CAMERA_Y: i128 = 50 * FX_ONE;

/// Offset from the camera to the virtual viewing plane.
pub const PLANE_OFFSET: i128 = -150 * FX_ONE;

/// Height of the ground plane along its normal axis.
pub const GROUND_Z: i128 = -10 * FX_ONE;

/// Horizontal scale of the viewing plane: 0.9 in fixed-point units,
/// correcting the terminal character aspect ratio.
pub const ASPECT: i128 = 58982;

/// The factor brightness values are scaled by.
pub const BRIGHT_SCALE: i128 = 100000 * FX_ONE;

/// Brightness assigned to a shadowed ground point.
pub const SHADOW_BRIGHTNESS: i128 = -7 * FX_ONE;

/// The light's starting position.
pub fn initial_light() -> (r: crate::vec3::V3)
    ensures
        r@ == initial_light_model(),
        r.wf(),
{
    crate::vec3::V3::new(70 * FX_ONE, 50 * FX_ONE, 100 * FX_ONE)
}

/// Model of the light's starting position.
pub open spec fn initial_light_model() -> crate::vec3::Vec3Model {
    crate::vec3::Vec3Model { x: 70 * FX_ONE, y: 50 * FX_ONE, z: 100 * FX_ONE }
}

} // verus!
