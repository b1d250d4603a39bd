//! Properties of the pipeline that relate several routines, stated and
//! proved over the same models the routines' contracts use.

use vstd::prelude::*;

use crate::fixed::{
    lemma_tdiv_exact, lemma_tdiv_magnitude, lemma_tdiv_nonneg_monotone, lemma_tdiv_remainder,
    s_abs, s_clamp, s_mul, s_sqrt_fx, s_sub, s_tdiv, in_range, FX_CAP, FX_ONE,
};
use crate::intersect::{
    m_along, m_closest, m_plane_point, m_plane_t, m_sphere_int, m_sphere_nabla, SphereHitModel,
};
use crate::render::{m_char_index, m_frame, BrightnessModel};
use crate::scene::{BALL_RADIUS, GROUND_Z};
use crate::vec3::{m_dot, m_len2, m_sub, m_wf, Vec3Model};

verus! {

/// For a ray origin strictly outside the sphere (as for any other), the
/// sign of the discriminant classifies the hit count: negative means no
/// intersection, zero exactly one (tangent) point, positive two points.
pub proof fn lemma_discriminant_classifies_hits(p: Vec3Model, d: Vec3Model)
    requires
        m_wf(p),
        m_wf(d),
        m_len2(p) > s_mul(BALL_RADIUS as int, BALL_RADIUS as int),
    ensures
        m_sphere_int(p, d) is Miss <==> m_sphere_nabla(p, d) < 0,
        m_sphere_int(p, d) is Tangent <==> m_sphere_nabla(p, d) == 0,
        m_sphere_int(p, d) is Through <==> m_sphere_nabla(p, d) > 0,
{
}

/// When a ray meets the sphere twice, the two hit parameters lie
/// symmetric about `-dp`, the parameter of the ray point nearest the
/// sphere center, so the hit points straddle that closest point.
pub proof fn lemma_through_hits_symmetric(p: Vec3Model, d: Vec3Model)
    requires
        m_wf(p),
        m_wf(d),
        m_sphere_nabla(p, d) > 0,
        in_range(-m_dot(d, p) - s_sqrt_fx(m_sphere_nabla(p, d))),
        in_range(-m_dot(d, p) + s_sqrt_fx(m_sphere_nabla(p, d))),
    ensures
        ({
            let dp = m_dot(d, p);
            let sq = s_sqrt_fx(m_sphere_nabla(p, d));
            &&& m_sphere_int(p, d) == SphereHitModel::Through(
                m_along(p, d, -dp - sq),
                m_along(p, d, -dp + sq),
            )
            &&& (-dp - sq) + (-dp + sq) == 2 * -dp
        }),
{
    let dp = m_dot(d, p);
    let sq = s_sqrt_fx(m_sphere_nabla(p, d));
    assert(s_sub(-dp, sq) == -dp - sq);
    assert(crate::fixed::s_add(-dp, sq) == -dp + sq);
}

/// Of a two-point result, the chosen hit point's squared distance to the
/// camera never exceeds either point's; equal distances choose the second
/// point.
pub proof fn lemma_closest_two_point(p1: Vec3Model, p2: Vec3Model, cam: Vec3Model)
    ensures
        ({
            let r = m_closest(SphereHitModel::Through(p1, p2), cam);
            &&& r matches Option::Some(c) && m_len2(m_sub(c, cam)) <= m_len2(m_sub(p1, cam))
                && m_len2(m_sub(c, cam)) <= m_len2(m_sub(p2, cam))
            &&& m_len2(m_sub(p1, cam)) == m_len2(m_sub(p2, cam)) ==> r == Option::Some(p2)
        }),
{
}

/// The plane intersection point indeed lies on the plane, up to the
/// truncation of one fixed-point division: its height differs from
/// `GROUND_Z` by at most two units plus the direction's vertical
/// component rescaled to world units.  (The intersection exists exactly
/// when the direction is not parallel to the plane; that is part of
/// `plane_line_int`'s contract.)
pub proof fn lemma_plane_hit_on_plane(p: Vec3Model, d: Vec3Model)
    requires
        d.z != 0,
        s_abs(p.z) <= 1099511627776,
        s_abs(d.z) <= 1099511627776,
    ensures
        s_abs(m_plane_point(p, d).z - GROUND_Z) <= 2 + s_abs(d.z) / (FX_ONE as int),
{
    let s = FX_ONE as int;
    let g = GROUND_Z as int;
    let num = g - p.z;
    assert(s_sub(g, p.z) == num);
    let q = s_tdiv(num * s, d.z);
    lemma_tdiv_magnitude(num * s, d.z);
    assert(s_abs(num * s) < FX_CAP as int);
    assert(m_plane_t(p, d) == q);
    lemma_tdiv_remainder(num * s, d.z);
    let r1 = num * s - d.z * q;
    let m = s_tdiv(d.z * q, s);
    lemma_tdiv_remainder(d.z * q, s);
    let r2 = d.z * q - s * m;
    assert(s * (num - m) == r1 + r2);
    assert(s_abs(num - m) <= 1 + s_abs(d.z) / s) by (nonlinear_arith)
        requires
            s == 65536,
            s * (num - m) == r1 + r2,
            s_abs(r1) < s_abs(d.z),
            s_abs(r2) < s,
            1 <= s_abs(d.z),
    ;
    assert(s_mul(d.z, m_plane_t(p, d)) == m);
    assert(m_plane_point(p, d).z == s_clamp(p.z + m));
    assert(s_clamp(p.z + m) == p.z + m);
    assert(p.z + m - g == m - num);
}

/// The brightness-to-character mapping is monotone: a brighter value
/// never maps to an earlier palette index.
pub proof fn lemma_char_index_monotone(b1: int, b2: int)
    requires
        b1 <= b2,
    ensures
        m_char_index(BrightnessModel::Lit(b1)) <= m_char_index(BrightnessModel::Lit(b2)),
{
    let s = FX_ONE as int;
    lemma_scaled_brightness(b1);
    lemma_scaled_brightness(b2);
    let w1 = s_clamp(s_clamp(2 * b1) + 18 * s);
    let w2 = s_clamp(s_clamp(2 * b2) + 18 * s);
    assert(w1 <= w2);
    if 0 <= w1 && w1 <= 91 * s && 0 <= w2 && w2 <= 91 * s {
        lemma_tdiv_nonneg_monotone(w1, w2, s);
    } else if 0 <= w1 && w1 <= 91 * s {
        lemma_tdiv_nonneg_monotone(w1, 91 * s, s);
        lemma_tdiv_exact(91, s);
    } else if 0 <= w2 && w2 <= 91 * s {
        lemma_tdiv_nonneg_monotone(0, w2, s);
        lemma_tdiv_exact(0, s);
    }
}

/// `b * 2` in the brightness transform, written as the fixed-point
/// product with the constant 2, is the saturated doubling.
proof fn lemma_scaled_brightness(b: int)
    ensures
        s_mul(b, 2 * FX_ONE) == s_clamp(2 * b),
{
    lemma_tdiv_exact(2 * b, FX_ONE as int);
    assert(b * (2 * FX_ONE) == (2 * b) * (FX_ONE as int)) by (nonlinear_arith);
}

/// Every brightness maps into the palette's index range.
pub proof fn lemma_char_index_in_range(b: BrightnessModel)
    ensures
        0 <= m_char_index(b) <= 91,
{
    let s = FX_ONE as int;
    match b {
        BrightnessModel::Background => {
        },
        BrightnessModel::Lit(v) => {
            lemma_scaled_brightness(v);
            let w = s_clamp(s_clamp(2 * v) + 18 * s);
            if 0 <= w <= 91 * s {
                lemma_tdiv_nonneg_monotone(0, w, s);
                lemma_tdiv_exact(0, s);
                lemma_tdiv_nonneg_monotone(w, 91 * s, s);
                lemma_tdiv_exact(91, s);
            }
        },
    }
}

/// The mapping clamps correctly at both ends: the background sentinel
/// takes the darkest character, a deeply negative brightness the darkest,
/// and a brightness beyond the palette range the last character.
pub proof fn lemma_char_index_clamps(v: int)
    ensures
        m_char_index(BrightnessModel::Background) == 0,
        v >= 37 * FX_ONE ==> m_char_index(BrightnessModel::Lit(v)) == 91,
        v <= -10 * FX_ONE ==> m_char_index(BrightnessModel::Lit(v)) == 0,
{
    lemma_scaled_brightness(v);
}

/// A full frame is a function of the light position alone: two renders
/// under the same light agree byte for byte.
pub proof fn lemma_frame_deterministic(light: Vec3Model, s1: Seq<char>, s2: Seq<char>)
    requires
        s1 == m_frame(light),
        s2 == m_frame(light),
    ensures
        s1 == s2,
{
}

} // verus!
