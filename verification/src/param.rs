//! Kinematic parameters.
//!
//! A `Param` is a scalar value evolving over elapsed time `t` (seconds) as
//! the cubic polynomial `value + dt*t + d2t*t^2 + d3t*t^3`, in fixed-point
//! arithmetic.  An additive offset may be folded into the constant term after
//! construction to translate a local-frame parameter into world coordinates.

use vstd::prelude::*;
use crate::scalar::{Scalar, fits_raw, mul_raw, SCALE};

verus! {

/// A kinematic parameter: constant term, speed, acceleration and jerk.
#[derive(Clone, Copy, PartialEq, Eq, Structural, Debug)]
pub struct Param {
    pub value: Scalar,
    pub dt: Scalar,
    pub d2t: Scalar,
    pub d3t: Scalar,
}

/// The raw value of `value + dt*t + d2t*t^2 + d3t*t^3` at elapsed time `t`,
/// with every product the truncating fixed-point one.
pub open spec fn eval_raw(value: int, dt: int, d2t: int, d3t: int, t: int) -> int {
    value + mul_raw(dt, t) + mul_raw(d2t, mul_raw(t, t)) + mul_raw(
        d3t,
        mul_raw(mul_raw(t, t), t),
    )
}

impl Param {
    /// Whether evaluating `self` at raw time `t` stays inside the raw range
    /// at every intermediate step.
    pub open spec fn eval_fits(self, t: int) -> bool {
        &&& fits_raw(mul_raw(t, t))
        &&& fits_raw(mul_raw(mul_raw(t, t), t))
        &&& fits_raw(mul_raw(self.dt.raw as int, t))
        &&& fits_raw(mul_raw(self.d2t.raw as int, mul_raw(t, t)))
        &&& fits_raw(mul_raw(self.d3t.raw as int, mul_raw(mul_raw(t, t), t)))
        &&& fits_raw(self.value.raw + mul_raw(self.dt.raw as int, t))
        &&& fits_raw(
            self.value.raw + mul_raw(self.dt.raw as int, t) + mul_raw(
                self.d2t.raw as int,
                mul_raw(t, t),
            ),
        )
        &&& fits_raw(eval_raw(self.value.raw as int, self.dt.raw as int, self.d2t.raw as int, self.d3t.raw as int, t))
    }

    /// The stationary parameter: constantly `value`.
    pub fn fixed(value: Scalar) -> (r: Param)
        ensures
            r == (Param {
                value,
                dt: Scalar { raw: 0 },
                d2t: Scalar { raw: 0 },
                d3t: Scalar { raw: 0 },
            }),
    {
        Param { value, dt: Scalar::zero(), d2t: Scalar::zero(), d3t: Scalar::zero() }
    }

    /// A linearly moving parameter: initial `value` and speed `dt`.
    pub fn with_speed(value: Scalar, dt: Scalar) -> (r: Param)
        ensures
            r == (Param { value, dt, d2t: Scalar { raw: 0 }, d3t: Scalar { raw: 0 } }),
    {
        Param { value, dt, d2t: Scalar::zero(), d3t: Scalar::zero() }
    }

    /// A parameter with speed and acceleration.
    pub fn with_accel(value: Scalar, dt: Scalar, d2t: Scalar) -> (r: Param)
        ensures
            r == (Param { value, dt, d2t, d3t: Scalar { raw: 0 } }),
    {
        Param { value, dt, d2t, d3t: Scalar::zero() }
    }

    /// A parameter with all four coefficients.
    pub fn with_jerk(value: Scalar, dt: Scalar, d2t: Scalar, d3t: Scalar) -> (r: Param)
        ensures
            r == (Param { value, dt, d2t, d3t }),
    {
        Param { value, dt, d2t, d3t }
    }

    /// A copy with `delta` added to the constant term; the time-evolution
    /// coefficients are untouched.
    pub fn offset(&self, delta: Scalar) -> (r: Param)
        requires
            fits_raw(self.value.raw + delta.raw),
        ensures
            r == (Param { value: Scalar { raw: (self.value.raw + delta.raw) as i64 }, ..*self }),
    {
        Param { value: self.value.plus(delta), dt: self.dt, d2t: self.d2t, d3t: self.d3t }
    }

    /// The parameter's value at elapsed time `t`: the exact fixed-point cubic
    /// `value + dt*t + d2t*t^2 + d3t*t^3`.
    pub fn evaluate(&self, t: Scalar) -> (r: Scalar)
        requires
            t.raw >= 0,
            self.eval_fits(t.raw as int),
        ensures
            r.raw == eval_raw(
                self.value.raw as int,
                self.dt.raw as int,
                self.d2t.raw as int,
                self.d3t.raw as int,
                t.raw as int,
            ),
    {
        let t2 = t.times(t);
        let t3 = t2.times(t);
        self.value.plus(self.dt.times(t)).plus(self.d2t.times(t2)).plus(self.d3t.times(t3))
    }
}

/// The truncating fixed-point product, computed wide: defined for every
/// pair of raw values, with the overflow test left to the caller.
fn mul_raw_wide(a: i64, b: i64) -> (r: i128)
    ensures
        r == mul_raw(a as int, b as int),
{
    proof {
        let ai = a as int;
        let bi = b as int;
        assert(-0x4000_0000_0000_0000_0000_0000_0000_0000 <= ai * bi
            <= 0x4000_0000_0000_0000_0000_0000_0000_0000) by (nonlinear_arith)
            requires
                -0x8000_0000_0000_0000 <= ai <= 0x7fff_ffff_ffff_ffff,
                -0x8000_0000_0000_0000 <= bi <= 0x7fff_ffff_ffff_ffff,
        ;
    }
    let p: i128 = (a as i128) * (b as i128);
    if p >= 0 {
        ((p as u128) / (SCALE as u128)) as i128
    } else {
        -((((-p) as u128) / (SCALE as u128)) as i128)
    }
}

impl Param {
    /// Evaluates the parameter at elapsed time `t`, checking every
    /// intermediate step against the raw range at run time: the value is
    /// returned exactly when the whole evaluation fits, and `None` exactly
    /// when it does not.
    pub fn try_evaluate(&self, t: Scalar) -> (r: Option<Scalar>)
        requires
            t.raw >= 0,
        ensures
            r is Some <==> self.eval_fits(t.raw as int),
            r matches Some(v) ==> v.raw == eval_raw(
                self.value.raw as int,
                self.dt.raw as int,
                self.d2t.raw as int,
                self.d3t.raw as int,
                t.raw as int,
            ),
    {
        let max: i128 = 0x7fff_ffff_ffff_ffff;
        let t2w = mul_raw_wide(t.raw, t.raw);
        if t2w > max || t2w < -max {
            return None;
        }
        let t2 = t2w as i64;
        let t3w = mul_raw_wide(t2, t.raw);
        if t3w > max || t3w < -max {
            return None;
        }
        let t3 = t3w as i64;
        let m1 = mul_raw_wide(self.dt.raw, t.raw);
        if m1 > max || m1 < -max {
            return None;
        }
        let m2 = mul_raw_wide(self.d2t.raw, t2);
        if m2 > max || m2 < -max {
            return None;
        }
        let m3 = mul_raw_wide(self.d3t.raw, t3);
        if m3 > max || m3 < -max {
            return None;
        }
        let s1: i128 = (self.value.raw as i128) + m1;
        if s1 > max || s1 < -max {
            return None;
        }
        let s2: i128 = s1 + m2;
        if s2 > max || s2 < -max {
            return None;
        }
        let s3: i128 = s2 + m3;
        if s3 > max || s3 < -max {
            return None;
        }
        Some(Scalar { raw: s3 as i64 })
    }
}

/// Adding an offset `d` shifts the evaluation at every time `t` by exactly
/// `d` and changes nothing else: the polynomial's non-constant terms are
/// untouched.
pub proof fn lemma_offset_shifts_evaluation(p: Param, d: int, t: int)
    ensures
        eval_raw(p.value.raw + d, p.dt.raw as int, p.d2t.raw as int, p.d3t.raw as int, t)
            == eval_raw(p.value.raw as int, p.dt.raw as int, p.d2t.raw as int, p.d3t.raw as int, t)
            + d,
{
}

/// A stationary parameter evaluates to its constant term at every time.
pub proof fn lemma_fixed_param_constant(v: int, t: int)
    ensures
        eval_raw(v, 0, 0, 0, t) == v,
{
    crate::scalar::lemma_mul_raw_zero(t);
    crate::scalar::lemma_mul_raw_zero(mul_raw(t, t));
    crate::scalar::lemma_mul_raw_zero(mul_raw(mul_raw(t, t), t));
}

/// Builds a parameter from one to four scalars, the later ones optional;
/// omitted trailing coefficients default to zero.  As in the script surface,
/// a missing earlier coefficient makes the later ones ignored.
pub fn param(value: Scalar, dt: Option<Scalar>, d2t: Option<Scalar>, d3t: Option<Scalar>) -> (r:
    Param)
    ensures
        dt is None ==> r == (Param {
            value,
            dt: Scalar { raw: 0 },
            d2t: Scalar { raw: 0 },
            d3t: Scalar { raw: 0 },
        }),
        dt matches Some(dtv) ==> (d2t is None ==> r == (Param {
            value,
            dt: dtv,
            d2t: Scalar { raw: 0 },
            d3t: Scalar { raw: 0 },
        })),
        dt matches Some(dtv) ==> (d2t matches Some(d2tv) ==> (d3t is None ==> r == (Param {
            value,
            dt: dtv,
            d2t: d2tv,
            d3t: Scalar { raw: 0 },
        }))),
        dt matches Some(dtv) ==> (d2t matches Some(d2tv) ==> (d3t matches Some(d3tv) ==> r
            == (Param { value, dt: dtv, d2t: d2tv, d3t: d3tv }))),
{
    match dt {
        None => Param::fixed(value),
        Some(dtv) => match d2t {
            None => Param::with_speed(value, dtv),
            Some(d2tv) => match d3t {
                None => Param::with_accel(value, dtv, d2tv),
                Some(d3tv) => Param::with_jerk(value, dtv, d2tv, d3tv),
            },
        },
    }
}

} // verus!
