//! Fixed-point scalar arithmetic.
//!
//! A scalar carries `FX_ONE` (2^16) fixed-point units per world unit and is
//! stored in an `i128`.  Every operation truncates toward zero, exactly as
//! its mathematical model (`s_mul`, `s_div`, ...) says, and saturates at
//! `FX_CAP`, far beyond every value the scene can produce, so that the
//! executable code is total and free of overflow.

use vstd::prelude::*;

verus! {

/// Fixed-point units per world unit.
pub const FX_ONE: i128 = 65536;

/// Saturation bound of every fixed-point scalar: 2^62.
pub const FX_CAP: i128 = 4611686018427387904;

/// 2^126, the square of the search ceiling of `isqrt_u`.
pub const ISQRT_DOM: i128 = 85070591730234615865843651857942052864;

/// Magnitude of an integer.
pub open spec fn s_abs(a: int) -> int {
    if a < 0 {
        -a
    } else {
        a
    }
}

/// Division truncating toward zero (the machine's signed division),
/// defined as 0 on a zero divisor so that the model is total.
pub open spec fn s_tdiv(a: int, b: int) -> int {
    if b == 0 {
        0
    } else if (a < 0) == (b < 0) {
        s_abs(a) / s_abs(b)
    } else {
        -(s_abs(a) / s_abs(b))
    }
}

/// Saturation into `[-FX_CAP, FX_CAP]`.
pub open spec fn s_clamp(a: int) -> int {
    if a > FX_CAP {
        FX_CAP as int
    } else if a < -FX_CAP {
        -FX_CAP as int
    } else {
        a
    }
}

/// A scalar the executable code may hold.
pub open spec fn in_range(a: int) -> bool {
    -FX_CAP <= a <= FX_CAP
}

/// Model of fixed-point addition.
pub open spec fn s_add(a: int, b: int) -> int {
    s_clamp(a + b)
}

/// Model of fixed-point subtraction.
pub open spec fn s_sub(a: int, b: int) -> int {
    s_clamp(a - b)
}

/// Model of fixed-point multiplication: `a * b` rescaled by `FX_ONE`.
pub open spec fn s_mul(a: int, b: int) -> int {
    s_clamp(s_tdiv(a * b, FX_ONE as int))
}

/// Model of fixed-point division: `a / b` rescaled by `FX_ONE`,
/// 0 on a zero divisor.
pub open spec fn s_div(a: int, b: int) -> int {
    if b == 0 {
        0
    } else {
        s_clamp(s_tdiv(a * FX_ONE, b))
    }
}

/// Integer square root, the unique `r >= 0` with `r * r <= n < (r + 1) * (r + 1)`.
pub open spec fn s_isqrt(n: int) -> int
    decreases n,
{
    if n <= 0 {
        0
    } else {
        let r = s_isqrt(n - 1);
        if (r + 1) * (r + 1) <= n {
            r + 1
        } else {
            r
        }
    }
}

/// Model of the square root of a fixed-point scalar:
/// `sqrt(a / FX_ONE)` in world units is `isqrt(a * FX_ONE)` in fixed-point units.
pub open spec fn s_sqrt_fx(a: int) -> int {
    s_isqrt(a * FX_ONE)
}

/// `s_isqrt` indeed brackets its argument between consecutive squares.
pub proof fn lemma_isqrt_props(n: int)
    requires
        n >= 0,
    ensures
        0 <= s_isqrt(n),
        s_isqrt(n) * s_isqrt(n) <= n,
        n < (s_isqrt(n) + 1) * (s_isqrt(n) + 1),
    decreases n,
{
    if n == 0 {
    } else {
        lemma_isqrt_props(n - 1);
        let r = s_isqrt(n - 1);
        if (r + 1) * (r + 1) <= n {
            assert(n - 1 < (r + 1) * (r + 1));
            assert(n == (r + 1) * (r + 1));
            assert(n < (r + 2) * (r + 2)) by (nonlinear_arith)
                requires
                    n == (r + 1) * (r + 1),
                    r >= 0,
            ;
        }
    }
}

/// Any two integers bracketed by the same consecutive squares are equal.
pub proof fn lemma_isqrt_unique(n: int, r1: int, r2: int) by (nonlinear_arith)
    requires
        0 <= r1,
        0 <= r2,
        r1 * r1 <= n < (r1 + 1) * (r1 + 1),
        r2 * r2 <= n < (r2 + 1) * (r2 + 1),
    ensures
        r1 == r2,
{
}

/// The quotient's magnitude never exceeds the dividend's.
pub proof fn lemma_tdiv_magnitude(a: int, b: int) by (nonlinear_arith)
    requires
        b != 0,
    ensures
        s_abs(s_tdiv(a, b)) <= s_abs(a),
{
}

/// Dividing an exact multiple is exact.
pub proof fn lemma_tdiv_exact(k: int, c: int) by (nonlinear_arith)
    requires
        c > 0,
    ensures
        s_tdiv(k * c, c) == k,
{
}

/// The remainder left by a truncating division is smaller than the divisor.
pub proof fn lemma_tdiv_remainder(a: int, b: int) by (nonlinear_arith)
    requires
        b != 0,
    ensures
        s_abs(a - b * s_tdiv(a, b)) < s_abs(b),
{
}

/// Truncating division by a positive divisor is monotone on nonnegative
/// dividends.
pub proof fn lemma_tdiv_nonneg_monotone(a1: int, a2: int, c: int)
    requires
        0 <= a1 <= a2,
        c > 0,
    ensures
        s_tdiv(a1, c) <= s_tdiv(a2, c),
{
    vstd::arithmetic::div_mod::lemma_div_is_ordered(a1, a2, c);
}

/// Saturation of a raw `i128` into the scalar range.
pub fn fx_clamp(a: i128) -> (r: i128)
    ensures
        r as int == s_clamp(a as int),
        in_range(r as int),
{
    if a > FX_CAP {
        FX_CAP
    } else if a < -FX_CAP {
        -FX_CAP
    } else {
        a
    }
}

/// Division truncating toward zero, carried out on magnitudes so that the
/// rounding direction is stated rather than inherited.
pub fn fx_tdiv(a: i128, b: i128) -> (r: i128)
    requires
        b != 0,
        a != i128::MIN,
        b != i128::MIN,
    ensures
        r as int == s_tdiv(a as int, b as int),
        s_abs(r as int) <= s_abs(a as int),
{
    let an: u128 = if a < 0 {
        (-a) as u128
    } else {
        a as u128
    };
    let bn: u128 = if b < 0 {
        (-b) as u128
    } else {
        b as u128
    };
    let q: u128 = an / bn;
    assert(q <= an);
    if (a < 0) == (b < 0) {
        q as i128
    } else {
        -(q as i128)
    }
}

/// Fixed-point addition.
pub fn fx_add(a: i128, b: i128) -> (r: i128)
    requires
        in_range(a as int),
        in_range(b as int),
    ensures
        r as int == s_add(a as int, b as int),
        in_range(r as int),
{
    fx_clamp(a + b)
}

/// Fixed-point subtraction.
pub fn fx_sub(a: i128, b: i128) -> (r: i128)
    requires
        in_range(a as int),
        in_range(b as int),
    ensures
        r as int == s_sub(a as int, b as int),
        in_range(r as int),
{
    fx_clamp(a - b)
}

/// Fixed-point negation.
pub fn fx_neg(a: i128) -> (r: i128)
    requires
        in_range(a as int),
    ensures
        r as int == -(a as int),
        in_range(r as int),
{
    -a
}

/// Fixed-point multiplication.
pub fn fx_mul(a: i128, b: i128) -> (r: i128)
    requires
        in_range(a as int),
        in_range(b as int),
    ensures
        r as int == s_mul(a as int, b as int),
        in_range(r as int),
{
    assert(-(FX_CAP as int) * (FX_CAP as int) <= a as int * b as int <= (FX_CAP as int) * (
    FX_CAP as int)) by (nonlinear_arith)
        requires
            in_range(a as int),
            in_range(b as int),
    ;
    let p: i128 = a * b;
    let q = fx_tdiv(p, FX_ONE);
    fx_clamp(q)
}

/// Fixed-point division; 0 on a zero divisor.
pub fn fx_div(a: i128, b: i128) -> (r: i128)
    requires
        in_range(a as int),
        in_range(b as int),
    ensures
        r as int == s_div(a as int, b as int),
        in_range(r as int),
{
    if b == 0 {
        0
    } else {
        let p: i128 = a * FX_ONE;
        let q = fx_tdiv(p, b);
        fx_clamp(q)
    }
}

/// Integer square root by binary search.
pub fn isqrt_u(n: u128) -> (r: u128)
    requires
        (n as int) < (ISQRT_DOM as int),
    ensures
        r as int == s_isqrt(n as int),
{
    proof {
        lemma_isqrt_props(n as int);
    }
    if n == 0 {
        return 0;
    }
    let mut lo: u128 = 0;
    let mut hi: u128 = 9223372036854775808;  // 2^63
    while hi - lo > 1
        invariant
            lo < hi <= 9223372036854775808,
            (lo as int) * (lo as int) <= n as int,
            (n as int) < (hi as int) * (hi as int),
            (n as int) < (ISQRT_DOM as int),
        decreases hi - lo,
    {
        let mid: u128 = lo + (hi - lo) / 2;
        assert((mid as int) * (mid as int) <= ISQRT_DOM as int)
            by (nonlinear_arith)
            requires
                mid <= 9223372036854775808u128,
        ;
        if mid * mid <= n {
            lo = mid;
        } else {
            hi = mid;
        }
    }
    proof {
        lemma_isqrt_unique(n as int, lo as int, s_isqrt(n as int));
    }
    lo
}

/// Square root of a nonnegative fixed-point scalar.
pub fn fx_sqrt(a: i128) -> (r: i128)
    requires
        0 <= a as int <= FX_CAP,
    ensures
        r as int == s_sqrt_fx(a as int),
        0 <= r as int <= FX_CAP,
{
    let p: i128 = a * FX_ONE;
    let q = isqrt_u(p as u128);
    proof {
        lemma_isqrt_props(p as int);
        assert(s_isqrt(p as int) <= FX_CAP) by (nonlinear_arith)
            requires
                0 <= s_isqrt(p as int),
                s_isqrt(p as int) * s_isqrt(p as int) <= p as int,
                p as int <= (FX_CAP as int) * (FX_ONE as int),
        ;
    }
    q as i128
}

} // verus!
