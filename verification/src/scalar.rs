//! Fixed-point scalar arithmetic.
//!
//! All real-valued quantities of the engine (coordinates, speeds, colors,
//! angles, seconds) are carried as `Scalar`: a signed count of micro-units,
//! so `raw == 1_000_000` stands for the value one.  Multiplication truncates
//! toward zero, mirroring the usual fixed-point convention.

use vstd::prelude::*;

verus! {

/// Number of raw steps in one unit.
pub const SCALE: i64 = 1_000_000;

/// A fixed-point number: `raw` micro-units.
#[derive(Clone, Copy, PartialEq, Eq, Structural, Debug)]
pub struct Scalar {
    pub raw: i64,
}

/// Raw values the arithmetic may produce: the symmetric `i64` range.
/// (`i64::MIN` itself is excluded so that every representable value has a
/// representable negation.)
pub open spec fn fits_raw(x: int) -> bool {
    -0x7fff_ffff_ffff_ffff <= x <= 0x7fff_ffff_ffff_ffff
}

/// The truncating fixed-point product of two raw values:
/// `a * b / SCALE`, rounded toward zero.
pub open spec fn mul_raw(a: int, b: int) -> int {
    if a * b >= 0 {
        (a * b) / (SCALE as int)
    } else {
        -((-(a * b)) / (SCALE as int))
    }
}

impl Scalar {
    /// The scalar with the given raw micro-unit count.
    pub fn from_raw(raw: i64) -> (r: Scalar)
        ensures
            r.raw == raw,
    {
        Scalar { raw }
    }

    /// The scalar standing for the whole number `v`.
    pub fn from_int(v: i32) -> (r: Scalar)
        ensures
            r.raw == v * SCALE,
    {
        Scalar { raw: (v as i64) * SCALE }
    }

    /// The scalar zero.
    pub fn zero() -> (r: Scalar)
        ensures
            r.raw == 0,
    {
        Scalar { raw: 0 }
    }

    /// The scalar one.
    pub fn one() -> (r: Scalar)
        ensures
            r.raw == SCALE,
    {
        Scalar { raw: SCALE }
    }

    /// Exact fixed-point sum.
    pub fn plus(self, other: Scalar) -> (r: Scalar)
        requires
            fits_raw(self.raw + other.raw),
        ensures
            r.raw == self.raw + other.raw,
    {
        Scalar { raw: self.raw + other.raw }
    }

    /// Exact fixed-point difference.
    pub fn minus(self, other: Scalar) -> (r: Scalar)
        requires
            fits_raw(self.raw - other.raw),
        ensures
            r.raw == self.raw - other.raw,
    {
        Scalar { raw: self.raw - other.raw }
    }

    /// Fixed-point product, truncated toward zero.
    pub fn times(self, other: Scalar) -> (r: Scalar)
        requires
            fits_raw(mul_raw(self.raw as int, other.raw as int)),
        ensures
            r.raw == mul_raw(self.raw as int, other.raw as int),
    {
        let p: i128 = (self.raw as i128) * (other.raw as i128);
        if p >= 0 {
            let q: u128 = (p as u128) / (SCALE as u128);
            Scalar { raw: q as i64 }
        } else {
            let m: u128 = ((-p) as u128) / (SCALE as u128);
            Scalar { raw: -(m as i64) }
        }
    }
}

/// Multiplying by zero gives zero.
pub proof fn lemma_mul_raw_zero(b: int)
    ensures
        mul_raw(0, b) == 0,
        mul_raw(b, 0) == 0,
{
}

/// A factor of magnitude at most one unit cannot grow the other factor:
/// if `|b| <= SCALE` then `|mul_raw(a, b)| <= |a|`.
pub proof fn lemma_mul_raw_contraction(a: int, b: int)
    requires
        -(SCALE as int) <= b <= SCALE as int,
    ensures
        -(if a >= 0 { a } else { -a }) <= mul_raw(a, b) <= (if a >= 0 { a } else { -a }),
{
    let s = SCALE as int;
    let m = if a >= 0 { a } else { -a };
    assert(-(m * s) <= a * b <= m * s) by (nonlinear_arith)
        requires
            -s <= b <= s,
            m == (if a >= 0 { a } else { -a }),
    ;
    if a * b >= 0 {
        assert((a * b) / s <= (m * s) / s) by {
            vstd::arithmetic::div_mod::lemma_div_is_ordered(a * b, m * s, s);
        }
        assert((m * s) / s == m) by {
            vstd::arithmetic::div_mod::lemma_div_multiples_vanish(m, s);
        }
        assert((a * b) / s >= 0) by {
            vstd::arithmetic::div_mod::lemma_div_pos_is_pos(a * b, s);
        }
    } else {
        assert((-(a * b)) / s <= (m * s) / s) by {
            vstd::arithmetic::div_mod::lemma_div_is_ordered(-(a * b), m * s, s);
        }
        assert((m * s) / s == m) by {
            vstd::arithmetic::div_mod::lemma_div_multiples_vanish(m, s);
        }
        assert((-(a * b)) / s >= 0) by {
            vstd::arithmetic::div_mod::lemma_div_pos_is_pos(-(a * b), s);
        }
    }
}

} // verus!
