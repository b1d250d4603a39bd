//! The reflective lighting model.
//!
//! The reflection vector comes from a fixed piece of vector algebra
//! around the incidence point; the formula is part of the output
//! calibration, so it is kept exactly as written, grouping and all,
//! rather than simplified.  Brightness is the dot product of the
//! reflection with the reversed ray, divided by the squared distance to
//! the light and scaled by `BRIGHT_SCALE`.

use vstd::prelude::*;

use crate::fixed::{fx_mul, in_range, s_div, s_mul, FX_ONE};
use crate::scene::BRIGHT_SCALE;
use crate::vec3::{m_add, m_dot, m_len2, m_norm, m_scale, m_sub, Vec3Model, V3};

verus! {

/// Twice a vector, written as a scalar product with the constant 2.
pub open spec fn m_twice(v: Vec3Model) -> Vec3Model {
    m_scale(v, 2 * FX_ONE)
}

/// Model of the reflection direction at `point` with surface normal
/// `normal`, for light arriving along `to_light`:
/// `normalize(((to_light + point) + 2 * ((point + normal) - (point + to_light))) - point)`.
pub open spec fn m_reflect(to_light: Vec3Model, point: Vec3Model, normal: Vec3Model) -> Vec3Model {
    m_norm(
        m_sub(
            m_add(
                m_add(to_light, point),
                m_twice(m_sub(m_add(point, normal), m_add(point, to_light))),
            ),
            point,
        ),
    )
}

/// The reflection direction at `point`; see `m_reflect` for the formula.
pub fn reflect(to_light: V3, point: V3, normal: V3) -> (r: V3)
    requires
        to_light.wf(),
        point.wf(),
        normal.wf(),
    ensures
        r@ == m_reflect(to_light@, point@, normal@),
        r.wf(),
{
    let two: i128 = 2 * FX_ONE;
    to_light.add(point).add(point.add(normal).sub(point.add(to_light)).scale(two)).sub(
        point,
    ).normalize()
}

/// Model of the brightness seen along `ray` at `point`: the reflection
/// dotted with the reversed, re-normalized ray, divided by the squared
/// distance from `point` to `light`, scaled by `BRIGHT_SCALE`.  A zero
/// squared distance, which no reachable scene produces, yields 0.
pub open spec fn m_brightness(
    reflected: Vec3Model,
    ray: Vec3Model,
    light: Vec3Model,
    point: Vec3Model,
) -> int {
    let a = m_dot(reflected, m_neg_norm(ray));
    let den = m_len2(m_sub(light, point));
    s_div(s_mul(a, BRIGHT_SCALE as int), den)
}

/// The reversed, re-normalized ray direction.
pub open spec fn m_neg_norm(ray: Vec3Model) -> Vec3Model {
    crate::vec3::m_neg(m_norm(ray))
}

/// The brightness seen along `ray` at `point`; see `m_brightness`.
pub fn brightness(reflected: V3, ray: V3, light: V3, point: V3) -> (r: i128)
    requires
        reflected.wf(),
        ray.wf(),
        light.wf(),
        point.wf(),
    ensures
        r as int == m_brightness(reflected@, ray@, light@, point@),
        in_range(r as int),
{
    let a = reflected.dot(ray.normalize().neg());
    let den = light.sub(point).len2();
    crate::fixed::fx_div(fx_mul(a, BRIGHT_SCALE), den)
}

} // verus!
