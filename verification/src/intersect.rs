//! Analytic ray/sphere and ray/plane intersection.
//!
//! The sphere is implicitly centered at the origin with radius
//! `BALL_RADIUS`; the plane sits at height `GROUND_Z` along the z axis.
//! Rays are given by an origin and a direction that the caller has
//! normalized.

use vstd::prelude::*;

use crate::fixed::{fx_add, fx_neg, fx_sqrt, fx_sub, s_add, s_mul, s_sqrt_fx, s_sub};
use crate::scene::{BALL_RADIUS, GROUND_Z};
use crate::vec3::{m_add, m_dot, m_len2, m_scale, m_sub, m_wf, Vec3Model, V3};

verus! {

/// How a ray meets the sphere: not at all, at one tangent point, or at an
/// entry and an exit point.
pub enum SphereLineIntResult {
    Miss,
    Tangent(V3),
    Through(V3, V3),
}

/// The model of an intersection result.
pub ghost enum SphereHitModel {
    Miss,
    Tangent(Vec3Model),
    Through(Vec3Model, Vec3Model),
}

impl View for SphereLineIntResult {
    type V = SphereHitModel;

    open spec fn view(&self) -> SphereHitModel {
        match *self {
            SphereLineIntResult::Miss => SphereHitModel::Miss,
            SphereLineIntResult::Tangent(p) => SphereHitModel::Tangent(p@),
            SphereLineIntResult::Through(p1, p2) => SphereHitModel::Through(p1@, p2@),
        }
    }
}

/// Every point of the result within the scalar range.
pub open spec fn m_hit_wf(r: SphereHitModel) -> bool {
    match r {
        SphereHitModel::Miss => true,
        SphereHitModel::Tangent(p) => m_wf(p),
        SphereHitModel::Through(p1, p2) => m_wf(p1) && m_wf(p2),
    }
}

/// The discriminant of the ray/sphere quadratic: the square of the
/// direction's projection onto the origin, less the origin's squared
/// distance from the sphere surface.
pub open spec fn m_sphere_nabla(p: Vec3Model, d: Vec3Model) -> int {
    let dp = m_dot(d, p);
    s_sub(s_mul(dp, dp), s_sub(m_len2(p), s_mul(BALL_RADIUS as int, BALL_RADIUS as int)))
}

/// The point at parameter `t` along the ray, `p + t * d`.
pub open spec fn m_along(p: Vec3Model, d: Vec3Model, t: int) -> Vec3Model {
    m_add(m_scale(d, t), p)
}

/// Model of the sphere intersection: the discriminant's sign picks the
/// variant, and the hit points lie at `-dp -/+ sqrt(nabla)` along the ray.
pub open spec fn m_sphere_int(p: Vec3Model, d: Vec3Model) -> SphereHitModel {
    let dp = m_dot(d, p);
    let nabla = m_sphere_nabla(p, d);
    if nabla < 0 {
        SphereHitModel::Miss
    } else if nabla == 0 {
        SphereHitModel::Tangent(m_along(p, d, -dp))
    } else {
        let s = s_sqrt_fx(nabla);
        SphereHitModel::Through(
            m_along(p, d, s_sub(-dp, s)),
            m_along(p, d, s_add(-dp, s)),
        )
    }
}

/// Intersection of the ray from `line_point` along `line_direction` with
/// the sphere.  The sign of the discriminant classifies the result: negative
/// means no intersection, zero a tangent, positive an entry and an exit.
pub fn sphere_line_int(line_point: V3, line_direction: V3) -> (r: SphereLineIntResult)
    requires
        line_point.wf(),
        line_direction.wf(),
    ensures
        r@ == m_sphere_int(line_point@, line_direction@),
        m_hit_wf(r@),
        r@ is Miss <==> m_sphere_nabla(line_point@, line_direction@) < 0,
        r@ is Tangent <==> m_sphere_nabla(line_point@, line_direction@) == 0,
        r@ is Through <==> m_sphere_nabla(line_point@, line_direction@) > 0,
{
    let dp = line_direction.dot(line_point);
    let rr = crate::fixed::fx_mul(BALL_RADIUS, BALL_RADIUS);
    let nabla = fx_sub(crate::fixed::fx_mul(dp, dp), fx_sub(line_point.len2(), rr));
    if nabla < 0 {
        SphereLineIntResult::Miss
    } else if nabla == 0 {
        SphereLineIntResult::Tangent(line_direction.scale(fx_neg(dp)).add(line_point))
    } else {
        let s = fx_sqrt(nabla);
        SphereLineIntResult::Through(
            line_direction.scale(fx_sub(fx_neg(dp), s)).add(line_point),
            line_direction.scale(fx_add(fx_neg(dp), s)).add(line_point),
        )
    }
}

/// Model of the closest-hit choice: of two hit points, the one with the
/// strictly smaller squared distance to `camera`; ties go to the second.
pub open spec fn m_closest(r: SphereHitModel, camera: Vec3Model) -> Option<Vec3Model> {
    match r {
        SphereHitModel::Miss => Option::None,
        SphereHitModel::Tangent(p) => Option::Some(p),
        SphereHitModel::Through(p1, p2) => if m_len2(m_sub(p1, camera)) < m_len2(
            m_sub(p2, camera),
        ) {
            Option::Some(p1)
        } else {
            Option::Some(p2)
        },
    }
}

impl SphereLineIntResult {
    /// The hit point nearest to `camera`, if the ray hit at all.  The point
    /// returned never has a larger squared distance to `camera` than any
    /// other hit point of the result.
    pub fn closest(self, camera: V3) -> (r: Option<V3>)
        requires
            m_hit_wf(self@),
            camera.wf(),
        ensures
            match r {
                Option::None => m_closest(self@, camera@) is None,
                Option::Some(p) => m_closest(self@, camera@) == Option::Some(p@) && m_wf(p@),
            },
            r is None <==> self@ is Miss,
            self@ matches SphereHitModel::Through(p1, p2) ==> (r matches Option::Some(c) ==> {
                &&& m_len2(m_sub(c@, camera@)) <= m_len2(m_sub(p1, camera@))
                &&& m_len2(m_sub(c@, camera@)) <= m_len2(m_sub(p2, camera@))
            }),
    {
        match self {
            SphereLineIntResult::Miss => Option::None,
            SphereLineIntResult::Tangent(p) => Option::Some(p),
            SphereLineIntResult::Through(p1, p2) => {
                if p1.sub(camera).len2() < p2.sub(camera).len2() {
                    Option::Some(p1)
                } else {
                    Option::Some(p2)
                }
            },
        }
    }
}

/// Model of the ray parameter at which the ray crosses the ground plane.
pub open spec fn m_plane_t(p: Vec3Model, d: Vec3Model) -> int {
    crate::fixed::s_div(s_sub(GROUND_Z as int, p.z), d.z)
}

/// Model of the ray/plane intersection point.
pub open spec fn m_plane_point(p: Vec3Model, d: Vec3Model) -> Vec3Model {
    m_add(p, m_scale(d, m_plane_t(p, d)))
}

/// Intersection of the ray from `line_point` along `line_direction` with
/// the ground plane.  The intersection exists exactly when the direction is
/// not parallel to the plane, that is, when its component along the plane's
/// normal axis is nonzero; no front-face test is made, so hits behind the
/// origin are returned too.
pub fn plane_line_int(line_point: V3, line_direction: V3) -> (r: Option<V3>)
    requires
        line_point.wf(),
        line_direction.wf(),
    ensures
        r is None <==> line_direction.z == 0,
        r matches Option::Some(i) ==> i@ == m_plane_point(line_point@, line_direction@) && m_wf(
            i@,
        ),
{
    if line_direction.z == 0 {
        return Option::None;
    }
    let t = crate::fixed::fx_div(fx_sub(GROUND_Z, line_point.z), line_direction.z);
    Option::Some(line_point.add(line_direction.scale(t)))
}

} // verus!
