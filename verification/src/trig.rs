//! Fixed-point cosine and sine.
//!
//! Angles are micro-radians.  A full turn is `TAU_RAW` raw steps; the
//! quadrant boundaries are exact multiples of `HALF_PI_RAW` so that range
//! reduction is exact integer arithmetic.  On the first quadrant the cosine
//! is the degree-six Taylor polynomial `1 - x^2/2 + x^4/24 - x^6/720`,
//! evaluated in fixed point; the other quadrants fold onto it by symmetry.
//! The result always lies within one unit of magnitude.

use vstd::prelude::*;
use crate::scalar::{Scalar, mul_raw, SCALE};

verus! {

/// A quarter turn (pi/2) in micro-radians.
pub const HALF_PI_RAW: i64 = 1_570_796;

/// A half turn (pi) in micro-radians: exactly two quarter turns.
pub const PI_RAW: i64 = 3_141_592;

/// A full turn (2*pi) in micro-radians: exactly four quarter turns.
pub const TAU_RAW: i64 = 6_283_184;

/// Largest angle magnitude the evaluators accept, in micro-radians.
pub const ANGLE_LIMIT_RAW: i64 = 0x4000_0000_0000_0000;

/// The first-quadrant cosine polynomial `1 - x^2/2 + x^4/24 - x^6/720` on
/// raw values, for `0 <= x <= HALF_PI_RAW`.
pub open spec fn cos_quarter_raw(x: int) -> int {
    let x2 = mul_raw(x, x);
    let x4 = mul_raw(x2, x2);
    let x6 = mul_raw(x4, x2);
    SCALE - x2 / 2 + x4 / 24 - x6 / 720
}

/// The fixed-point cosine of a raw micro-radian angle: range reduction to
/// `[0, TAU_RAW)` and quadrant folding onto `cos_quarter_raw`.
pub open spec fn cos_raw(a: int) -> int {
    let m = a % (TAU_RAW as int);
    if m <= HALF_PI_RAW {
        cos_quarter_raw(m)
    } else if m <= PI_RAW {
        -cos_quarter_raw(PI_RAW - m)
    } else if m < PI_RAW + HALF_PI_RAW {
        -cos_quarter_raw(m - PI_RAW)
    } else {
        cos_quarter_raw(TAU_RAW - m)
    }
}

/// The fixed-point sine: `sin x == cos (x - pi/2)`.
pub open spec fn sin_raw(a: int) -> int {
    cos_raw(a - HALF_PI_RAW)
}

/// The first-quadrant polynomial stays within one unit of magnitude.
pub proof fn lemma_cos_quarter_bounds(x: int)
    requires
        0 <= x <= HALF_PI_RAW,
    ensures
        -(SCALE as int) <= cos_quarter_raw(x) <= SCALE as int,
{
    let s = SCALE as int;
    let x2 = mul_raw(x, x);
    let x4 = mul_raw(x2, x2);
    let x6 = mul_raw(x4, x2);
    assert(0 <= x * x <= 2_467_400_073_616) by (nonlinear_arith)
        requires
            0 <= x <= 1_570_796,
    ;
    assert(x2 == (x * x) / s);
    assert(0 <= x2 <= 2_467_400) by {
        vstd::arithmetic::div_mod::lemma_div_pos_is_pos(x * x, s);
        vstd::arithmetic::div_mod::lemma_div_is_ordered(x * x, 2_467_400_073_616, s);
    }
    assert(0 <= x2 * x2 <= x2 * 12_000_000) by (nonlinear_arith)
        requires
            0 <= x2 <= 2_467_400,
    ;
    assert(x4 == (x2 * x2) / s);
    assert(0 <= x4 <= 12 * x2) by {
        vstd::arithmetic::div_mod::lemma_div_pos_is_pos(x2 * x2, s);
        vstd::arithmetic::div_mod::lemma_div_is_ordered(x2 * x2, x2 * 12_000_000, s);
        vstd::arithmetic::div_mod::lemma_div_multiples_vanish(12 * x2, s);
        assert(x2 * 12_000_000 == (12 * x2) * s) by (nonlinear_arith)
            requires
                s == 1_000_000,
        ;
    }
    assert(x4 / 24 <= (12 * x2) / 24) by {
        vstd::arithmetic::div_mod::lemma_div_is_ordered(x4, 12 * x2, 24);
    }
    assert((12 * x2) / 24 <= x2 / 2) by {
        vstd::arithmetic::div_mod::lemma_div_denominator(12 * x2, 12, 2);
        vstd::arithmetic::div_mod::lemma_div_multiples_vanish(x2, 12);
        assert(12 * x2 == x2 * 12) by (nonlinear_arith);
    }
    assert(x2 / 2 <= 1_233_700) by {
        vstd::arithmetic::div_mod::lemma_div_is_ordered(x2, 2_467_400, 2);
    }
    assert(x2 / 2 >= 0) by {
        vstd::arithmetic::div_mod::lemma_div_pos_is_pos(x2, 2);
    }
    assert(x4 / 24 >= 0) by {
        vstd::arithmetic::div_mod::lemma_div_pos_is_pos(x4, 24);
    }
    assert(x2 * x2 <= 6_088_062_760_000) by (nonlinear_arith)
        requires
            0 <= x2 <= 2_467_400,
    ;
    assert(x4 <= 6_088_062) by {
        vstd::arithmetic::div_mod::lemma_div_is_ordered(x2 * x2, 6_088_062_760_000, s);
    }
    assert(0 <= x4 * x2 <= 15_021_684_178_800) by (nonlinear_arith)
        requires
            0 <= x4 <= 6_088_062,
            0 <= x2 <= 2_467_400,
    ;
    assert(0 <= x6 <= 15_021_684) by {
        vstd::arithmetic::div_mod::lemma_div_pos_is_pos(x4 * x2, s);
        vstd::arithmetic::div_mod::lemma_div_is_ordered(x4 * x2, 15_021_684_178_800, s);
    }
    assert(0 <= x6 / 720 <= 20_863) by {
        vstd::arithmetic::div_mod::lemma_div_pos_is_pos(x6, 720);
        vstd::arithmetic::div_mod::lemma_div_is_ordered(x6, 15_021_684, 720);
    }
}

/// The cosine of any angle stays within one unit of magnitude.
pub proof fn lemma_cos_bounds(a: int)
    ensures
        -(SCALE as int) <= cos_raw(a) <= SCALE as int,
{
    let m = a % (TAU_RAW as int);
    vstd::arithmetic::div_mod::lemma_mod_division_less_than_divisor(a, TAU_RAW as int);
    if m <= HALF_PI_RAW {
        lemma_cos_quarter_bounds(m);
    } else if m <= PI_RAW {
        lemma_cos_quarter_bounds(PI_RAW - m);
    } else if m < PI_RAW + HALF_PI_RAW {
        lemma_cos_quarter_bounds(m - PI_RAW);
    } else {
        lemma_cos_quarter_bounds(TAU_RAW - m);
    }
}

/// The sine of any angle stays within one unit of magnitude.
pub proof fn lemma_sin_bounds(a: int)
    ensures
        -(SCALE as int) <= sin_raw(a) <= SCALE as int,
{
    lemma_cos_bounds(a - HALF_PI_RAW);
}

/// The first-quadrant polynomial, executable; exact against the spec.
fn cos_quarter(x: i64) -> (r: i64)
    requires
        0 <= x <= HALF_PI_RAW,
    ensures
        r == cos_quarter_raw(x as int),
        -SCALE <= r <= SCALE,
{
    proof {
        lemma_cos_quarter_bounds(x as int);
        assert(0 <= (x as int) * (x as int) <= 2_467_400_073_616) by (nonlinear_arith)
            requires
                0 <= x <= 1_570_796,
        ;
    }
    let xx: u64 = (x as u64) * (x as u64);
    let x2: u64 = xx / (SCALE as u64);
    proof {
        assert(x2 == mul_raw(x as int, x as int));
        assert(0 <= (x2 as int) * (x2 as int) <= 6_088_062_760_000) by (nonlinear_arith)
            requires
                0 <= x2 <= 2_467_400,
        ;
    }
    let x4: u64 = (x2 * x2) / (SCALE as u64);
    proof {
        assert(x4 == mul_raw(x2 as int, x2 as int));
        vstd::arithmetic::div_mod::lemma_div_pos_is_pos(x2 as int, 2);
        vstd::arithmetic::div_mod::lemma_div_is_ordered(x2 as int, 2_467_400, 2);
        vstd::arithmetic::div_mod::lemma_div_pos_is_pos(x4 as int, 24);
        vstd::arithmetic::div_mod::lemma_div_is_ordered(x4 as int, 6_088_062, 24);
        assert(0 <= (x4 as int) * (x2 as int) <= 15_021_684_178_800) by (nonlinear_arith)
            requires
                0 <= x4 <= 6_088_062,
                0 <= x2 <= 2_467_400,
        ;
    }
    let x6: u64 = (x4 * x2) / (SCALE as u64);
    proof {
        assert(x6 == mul_raw(x4 as int, x2 as int));
        vstd::arithmetic::div_mod::lemma_div_pos_is_pos(x6 as int, 720);
        vstd::arithmetic::div_mod::lemma_div_is_ordered(x6 as int, 15_021_684, 720);
    }
    let half: i64 = (x2 / 2) as i64;
    let quad: i64 = (x4 / 24) as i64;
    let sixth: i64 = (x6 / 720) as i64;
    SCALE - half + quad - sixth
}

/// Reduces a raw angle to `[0, TAU_RAW)`: the mathematical remainder.
fn angle_mod(a: i64) -> (r: i64)
    requires
        -ANGLE_LIMIT_RAW - PI_RAW <= a <= ANGLE_LIMIT_RAW,
    ensures
        r == (a as int) % (TAU_RAW as int),
        0 <= r < TAU_RAW,
{
    let t: u64 = TAU_RAW as u64;
    if a >= 0 {
        let r: u64 = (a as u64) % t;
        r as i64
    } else {
        let k: u64 = ((-a) as u64) % t;
        proof {
            let ai = a as int;
            let ti = TAU_RAW as int;
            let n = -ai;
            vstd::arithmetic::div_mod::lemma_fundamental_div_mod(n, ti);
            vstd::arithmetic::div_mod::lemma_mod_division_less_than_divisor(n, ti);
            let q = n / ti;
            let rr = n % ti;
            if rr == 0 {
                vstd::arithmetic::div_mod::lemma_fundamental_div_mod_converse(ai, ti, -q, 0);
            } else {
                assert(ai == (-q - 1) * ti + (ti - rr)) by (nonlinear_arith)
                    requires
                        ai == -(ti * q + rr),
                ;
                vstd::arithmetic::div_mod::lemma_fundamental_div_mod_converse(
                    ai,
                    ti,
                    -q - 1,
                    ti - rr,
                );
            }
        }
        if k == 0 {
            0
        } else {
            TAU_RAW - (k as i64)
        }
    }
}

/// The fixed-point cosine of an angle in micro-radians; exact against
/// `cos_raw` and within one unit of magnitude.
pub fn cos_fixed(a: Scalar) -> (r: Scalar)
    requires
        -ANGLE_LIMIT_RAW - PI_RAW <= a.raw <= ANGLE_LIMIT_RAW,
    ensures
        r.raw == cos_raw(a.raw as int),
        -SCALE <= r.raw <= SCALE,
{
    let m = angle_mod(a.raw);
    let c = if m <= HALF_PI_RAW {
        cos_quarter(m)
    } else if m <= PI_RAW {
        -cos_quarter(PI_RAW - m)
    } else if m < PI_RAW + HALF_PI_RAW {
        -cos_quarter(m - PI_RAW)
    } else {
        cos_quarter(TAU_RAW - m)
    };
    Scalar { raw: c }
}

/// The fixed-point sine of an angle in micro-radians; exact against
/// `sin_raw` and within one unit of magnitude.
pub fn sin_fixed(a: Scalar) -> (r: Scalar)
    requires
        -ANGLE_LIMIT_RAW <= a.raw <= ANGLE_LIMIT_RAW,
    ensures
        r.raw == sin_raw(a.raw as int),
        -SCALE <= r.raw <= SCALE,
{
    cos_fixed(Scalar { raw: a.raw - HALF_PI_RAW })
}

} // verus!
