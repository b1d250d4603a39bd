//! Fixed-point 3D vectors.
//!
//! `V3` is the executable vector; its view is `Vec3Model`, the same vector
//! over mathematical integers.  Each operation's contract says exactly which
//! model vector it returns.

use vstd::prelude::*;

use crate::fixed::{
    fx_add, fx_div, fx_mul, fx_neg, fx_sqrt, fx_sub, fx_tdiv, in_range, s_clamp, s_div, s_mul,
    s_sqrt_fx, s_tdiv, FX_CAP, FX_ONE,
};

verus! {

/// A vector of three fixed-point scalars.
#[derive(Clone, Copy, Debug, PartialEq, Eq, Structural)]
pub struct V3 {
    pub x: i128,
    pub y: i128,
    pub z: i128,
}

/// The mathematical model of a vector: the same components as integers.
pub ghost struct Vec3Model {
    pub x: int,
    pub y: int,
    pub z: int,
}

impl View for V3 {
    type V = Vec3Model;

    open spec fn view(&self) -> Vec3Model {
        Vec3Model { x: self.x as int, y: self.y as int, z: self.z as int }
    }
}

/// Every component within the scalar range.
pub open spec fn m_wf(v: Vec3Model) -> bool {
    in_range(v.x) && in_range(v.y) && in_range(v.z)
}

/// Componentwise saturating addition.
pub open spec fn m_add(a: Vec3Model, b: Vec3Model) -> Vec3Model {
    Vec3Model { x: s_clamp(a.x + b.x), y: s_clamp(a.y + b.y), z: s_clamp(a.z + b.z) }
}

/// Componentwise saturating subtraction.
pub open spec fn m_sub(a: Vec3Model, b: Vec3Model) -> Vec3Model {
    Vec3Model { x: s_clamp(a.x - b.x), y: s_clamp(a.y - b.y), z: s_clamp(a.z - b.z) }
}

/// Componentwise negation.
pub open spec fn m_neg(a: Vec3Model) -> Vec3Model {
    Vec3Model { x: -a.x, y: -a.y, z: -a.z }
}

/// Scaling by a fixed-point scalar.
pub open spec fn m_scale(a: Vec3Model, k: int) -> Vec3Model {
    Vec3Model { x: s_mul(a.x, k), y: s_mul(a.y, k), z: s_mul(a.z, k) }
}

/// Dot product: the sum of the componentwise products, rescaled once.
pub open spec fn m_dot(a: Vec3Model, b: Vec3Model) -> int {
    s_clamp(s_tdiv(a.x * b.x + a.y * b.y + a.z * b.z, FX_ONE as int))
}

/// Squared length.
pub open spec fn m_len2(a: Vec3Model) -> int {
    m_dot(a, a)
}

/// Normalization: division of each component by the length.  The zero
/// vector (and any vector whose squared length truncates to zero) is
/// returned unchanged, as callers are expected never to supply one.
pub open spec fn m_norm(v: Vec3Model) -> Vec3Model {
    let l2 = m_len2(v);
    if l2 <= 0 {
        v
    } else {
        let l = s_sqrt_fx(l2);
        Vec3Model { x: s_div(v.x, l), y: s_div(v.y, l), z: s_div(v.z, l) }
    }
}

/// A squared length is never negative.
pub proof fn lemma_len2_nonneg(a: Vec3Model)
    ensures
        m_len2(a) >= 0,
{
    assert(a.x * a.x >= 0 && a.y * a.y >= 0 && a.z * a.z >= 0) by (nonlinear_arith);
}

impl V3 {
    /// Every component within the scalar range.
    pub open spec fn wf(self) -> bool {
        m_wf(self@)
    }

    /// The vector with the given components.
    pub fn new(x: i128, y: i128, z: i128) -> (r: V3)
        requires
            in_range(x as int),
            in_range(y as int),
            in_range(z as int),
        ensures
            r@ == (Vec3Model { x: x as int, y: y as int, z: z as int }),
            r.wf(),
    {
        V3 { x, y, z }
    }

    /// Vector addition.
    pub fn add(self, other: V3) -> (r: V3)
        requires
            self.wf(),
            other.wf(),
        ensures
            r@ == m_add(self@, other@),
            r.wf(),
    {
        V3 { x: fx_add(self.x, other.x), y: fx_add(self.y, other.y), z: fx_add(self.z, other.z) }
    }

    /// Vector subtraction.
    pub fn sub(self, other: V3) -> (r: V3)
        requires
            self.wf(),
            other.wf(),
        ensures
            r@ == m_sub(self@, other@),
            r.wf(),
    {
        V3 { x: fx_sub(self.x, other.x), y: fx_sub(self.y, other.y), z: fx_sub(self.z, other.z) }
    }

    /// Vector negation.
    pub fn neg(self) -> (r: V3)
        requires
            self.wf(),
        ensures
            r@ == m_neg(self@),
            r.wf(),
    {
        V3 { x: fx_neg(self.x), y: fx_neg(self.y), z: fx_neg(self.z) }
    }

    /// Scaling by a fixed-point scalar.
    pub fn scale(self, k: i128) -> (r: V3)
        requires
            self.wf(),
            in_range(k as int),
        ensures
            r@ == m_scale(self@, k as int),
            r.wf(),
    {
        V3 { x: fx_mul(self.x, k), y: fx_mul(self.y, k), z: fx_mul(self.z, k) }
    }

    /// Dot product.
    pub fn dot(self, other: V3) -> (r: i128)
        requires
            self.wf(),
            other.wf(),
        ensures
            r as int == m_dot(self@, other@),
            in_range(r as int),
    {
        proof {
            assert((-(FX_CAP as int) * (FX_CAP as int) <= self.x as int * other.x as int <= (
            FX_CAP as int) * (FX_CAP as int)) && (-(FX_CAP as int) * (FX_CAP as int)
                <= self.y as int * other.y as int <= (FX_CAP as int) * (FX_CAP as int)) && (-(
            FX_CAP as int) * (FX_CAP as int) <= self.z as int * other.z as int <= (FX_CAP as int)
                * (FX_CAP as int))) by (nonlinear_arith)
                requires
                    self.wf(),
                    other.wf(),
            ;
        }
        let s: i128 = self.x * other.x + self.y * other.y + self.z * other.z;
        let q = fx_tdiv(s, FX_ONE);
        crate::fixed::fx_clamp(q)
    }

    /// Squared length.
    pub fn len2(self) -> (r: i128)
        requires
            self.wf(),
        ensures
            r as int == m_len2(self@),
            0 <= r as int <= FX_CAP,
    {
        proof {
            lemma_len2_nonneg(self@);
        }
        self.dot(self)
    }

    /// Normalization toward unit length; the degenerate vector whose
    /// squared length truncates to zero comes back unchanged.
    pub fn normalize(self) -> (r: V3)
        requires
            self.wf(),
        ensures
            r@ == m_norm(self@),
            r.wf(),
    {
        let l2 = self.len2();
        if l2 <= 0 {
            self
        } else {
            let l = fx_sqrt(l2);
            V3 { x: fx_div(self.x, l), y: fx_div(self.y, l), z: fx_div(self.z, l) }
        }
    }
}

} // verus!
