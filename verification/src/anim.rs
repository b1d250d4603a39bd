//! The animation state: the light's position, the only value that
//! persists across frames.  Each frame it is rotated by a fixed small
//! angle about the vertical (z) axis.

use vstd::prelude::*;

use crate::fixed::{fx_add, fx_mul, fx_sub, s_add, s_mul, s_sub};
use crate::vec3::{m_wf, Vec3Model, V3};

verus! {

/// Cosine of the per-frame rotation angle (0.05 rad), in fixed-point units.
pub const ROT_COS: i128 = 65454;

/// Sine of the per-frame rotation angle (0.05 rad), in fixed-point units.
pub const ROT_SIN: i128 = 3277;

/// Model of one rotation step about the z axis: the usual plane rotation
/// of the x and y components; the z component is untouched.
pub open spec fn m_rotate_z(v: Vec3Model) -> Vec3Model {
    Vec3Model {
        x: s_sub(s_mul(v.x, ROT_COS as int), s_mul(v.y, ROT_SIN as int)),
        y: s_add(s_mul(v.x, ROT_SIN as int), s_mul(v.y, ROT_COS as int)),
        z: v.z,
    }
}

/// Model of `k` rotation steps.
pub open spec fn m_rotate_z_n(k: nat, v: Vec3Model) -> Vec3Model
    decreases k,
{
    if k == 0 {
        v
    } else {
        m_rotate_z(m_rotate_z_n((k - 1) as nat, v))
    }
}

/// However many steps the light is rotated, its height never changes:
/// rotation about the vertical axis keeps the z component exactly.
pub proof fn lemma_rotation_preserves_height(k: nat, v: Vec3Model)
    ensures
        m_rotate_z_n(k, v).z == v.z,
    decreases k,
{
    if k > 0 {
        lemma_rotation_preserves_height((k - 1) as nat, v);
    }
}

/// The animation state: the current light position.
pub struct LightState {
    pub light: V3,
}

impl LightState {
    /// The light position is within the scalar range.
    pub open spec fn wf(self) -> bool {
        m_wf(self.light@)
    }

    /// The state before the first frame, with the light at its starting
    /// position.
    pub fn new() -> (r: LightState)
        ensures
            r.light@ == crate::scene::initial_light_model(),
            r.wf(),
    {
        LightState { light: crate::scene::initial_light() }
    }

    /// Advance by one frame: rotate the light one step about the z axis.
    pub fn advance(&mut self)
        requires
            old(self).wf(),
        ensures
            final(self).light@ == m_rotate_z(old(self).light@),
            final(self).wf(),
    {
        let x = self.light.x;
        let y = self.light.y;
        let nx = fx_sub(fx_mul(x, ROT_COS), fx_mul(y, ROT_SIN));
        let ny = fx_add(fx_mul(x, ROT_SIN), fx_mul(y, ROT_COS));
        self.light = V3 { x: nx, y: ny, z: self.light.z };
    }
}

} // verus!
