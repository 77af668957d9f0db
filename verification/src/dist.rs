//! Random-value distributions.
//!
//! A `Dist` is a sampling primitive: a fixed value, a uniform draw from an
//! inclusive range, or an angular draw (uniform angle and magnitude turned
//! into a 2D vector).  The angular kind yields two coupled components and
//! must only be bound where a 2D consumer is expected; the scalar kinds are
//! sampled one value at a time.

use vstd::prelude::*;
use crate::scalar::{Scalar, mul_raw};
use crate::rng::{Rng, rng_next_spec, range_value_spec};
use crate::trig::{cos_raw, sin_raw, cos_fixed, sin_fixed, ANGLE_LIMIT_RAW};

verus! {

/// A random-shape kind: fixed, uniform over `[min, max]`, or angular
/// (uniform angle in `[min_angle, max_angle]` micro-radians and uniform
/// magnitude in `[min_mag, max_mag]`).
#[derive(Clone, Copy, PartialEq, Eq, Structural, Debug)]
pub enum Dist {
    Fixed { value: Scalar },
    Uniform { min: Scalar, max: Scalar },
    Angular { min_angle: Scalar, max_angle: Scalar, min_mag: Scalar, max_mag: Scalar },
}

impl Dist {
    /// The distribution that always yields `value`.
    pub fn create_fixed(value: Scalar) -> (r: Dist)
        ensures
            r == (Dist::Fixed { value }),
    {
        Dist::Fixed { value }
    }

    /// The uniform distribution over the inclusive range `[min, max]`.
    pub fn create_uniform(min: Scalar, max: Scalar) -> (r: Dist)
        ensures
            r == (Dist::Uniform { min, max }),
    {
        Dist::Uniform { min, max }
    }

    /// The angular distribution: a direction in `[min_angle, max_angle]`
    /// and a magnitude in `[min_mag, max_mag]`.
    pub fn create_angular(min_angle: Scalar, max_angle: Scalar, min_mag: Scalar, max_mag: Scalar)
        -> (r: Dist)
        ensures
            r == (Dist::Angular { min_angle, max_angle, min_mag, max_mag }),
    {
        Dist::Angular { min_angle, max_angle, min_mag, max_mag }
    }

    /// Whether this is the two-component angular kind.
    pub open spec fn is_angular(self) -> bool {
        self is Angular
    }

    /// The caller-side invariant: every range is ordered, and the angular
    /// bounds lie where the trigonometry and the raw range admit them.
    pub open spec fn wf(self) -> bool {
        match self {
            Dist::Fixed { .. } => true,
            Dist::Uniform { min, max } => min.raw <= max.raw,
            Dist::Angular { min_angle, max_angle, min_mag, max_mag } => {
                &&& min_angle.raw <= max_angle.raw
                &&& min_mag.raw <= max_mag.raw
                &&& -ANGLE_LIMIT_RAW <= min_angle.raw
                &&& max_angle.raw <= ANGLE_LIMIT_RAW
                &&& -0x7fff_ffff_ffff_ffff <= min_mag.raw
            },
        }
    }

    /// The largest magnitude an angular sample's components can reach.
    pub open spec fn mag_bound(self) -> int {
        match self {
            Dist::Angular { min_mag, max_mag, .. } => {
                let a = if min_mag.raw >= 0 {
                    min_mag.raw as int
                } else {
                    -(min_mag.raw as int)
                };
                let b = if max_mag.raw >= 0 {
                    max_mag.raw as int
                } else {
                    -(max_mag.raw as int)
                };
                if a >= b {
                    a
                } else {
                    b
                }
            },
            _ => 0,
        }
    }

    /// What always holds of one scalar sample: a fixed draw is its value and
    /// a uniform draw lies in its range.
    pub open spec fn sampled_ok(self, v: Scalar) -> bool {
        match self {
            Dist::Fixed { value } => v == value,
            Dist::Uniform { min, max } => min.raw <= v.raw <= max.raw,
            Dist::Angular { .. } => -self.mag_bound() <= v.raw <= self.mag_bound(),
        }
    }

    /// The exact scalar sample and successor state for a draw starting from
    /// random state `s` (the angular kind is not sampled through this path).
    pub open spec fn sample_spec(self, s: u64) -> (Scalar, u64) {
        match self {
            Dist::Fixed { value } => (value, s),
            Dist::Uniform { min, max } => {
                let s1 = rng_next_spec(s);
                (Scalar { raw: range_value_spec(s1, min.raw as int, max.raw as int) as i64 }, s1)
            },
            Dist::Angular { .. } => (Scalar { raw: 0 }, s),
        }
    }

    /// The exact 2D sample and successor state for a draw starting from
    /// random state `s`: the angular kind draws one angle and one magnitude
    /// jointly; a scalar kind draws each component independently.
    pub open spec fn sample2d_spec(self, s: u64) -> ((Scalar, Scalar), u64) {
        match self {
            Dist::Angular { min_angle, max_angle, min_mag, max_mag } => {
                let s1 = rng_next_spec(s);
                let ang = range_value_spec(s1, min_angle.raw as int, max_angle.raw as int);
                let s2 = rng_next_spec(s1);
                let mag = range_value_spec(s2, min_mag.raw as int, max_mag.raw as int);
                (
                    (
                        Scalar { raw: mul_raw(mag, cos_raw(ang)) as i64 },
                        Scalar { raw: mul_raw(mag, sin_raw(ang)) as i64 },
                    ),
                    s2,
                )
            },
            _ => {
                let first = self.sample_spec(s);
                let second = self.sample_spec(first.1);
                ((first.0, second.0), second.1)
            },
        }
    }

    /// Draws one scalar: a fixed value as it stands, a uniform value from
    /// `[min, max]` inclusive.  With `min == max` the draw is that value.
    pub fn sample(&self, rng: &mut Rng) -> (r: Scalar)
        requires
            self.wf(),
            !self.is_angular(),
        ensures
            self.sampled_ok(r),
            r == self.sample_spec(old(rng).state).0,
            final (rng).state == self.sample_spec(old(rng).state).1,
            self matches Dist::Uniform { min, max } ==> (min == max ==> r == min),
    {
        match *self {
            Dist::Fixed { value } => value,
            Dist::Uniform { min, max } => {
                let raw = rng.gen_range(min.raw, max.raw);
                Scalar { raw }
            },
            Dist::Angular { .. } => unreached(),
        }
    }

    /// Draws one 2D value: the angular kind draws an angle and a magnitude
    /// and returns `(mag*cos(angle), mag*sin(angle))`, one joint draw for
    /// both components; a scalar kind draws the components independently.
    /// An angular draw's components never exceed the magnitude bound.
    pub fn sample2d(&self, rng: &mut Rng) -> (r: (Scalar, Scalar))
        requires
            self.wf(),
        ensures
            r.0 == self.sample2d_spec(old(rng).state).0.0,
            r.1 == self.sample2d_spec(old(rng).state).0.1,
            final (rng).state == self.sample2d_spec(old(rng).state).1,
            self.is_angular() ==> -self.mag_bound() <= r.0.raw <= self.mag_bound(),
            self.is_angular() ==> -self.mag_bound() <= r.1.raw <= self.mag_bound(),
            !self.is_angular() ==> self.sampled_ok(r.0) && self.sampled_ok(r.1),
    {
        if let Dist::Angular { min_angle, max_angle, min_mag, max_mag } = *self {
            let ang = rng.gen_range(min_angle.raw, max_angle.raw);
            let mag = rng.gen_range(min_mag.raw, max_mag.raw);
            let c = cos_fixed(Scalar { raw: ang });
            let s = sin_fixed(Scalar { raw: ang });
            proof {
                crate::scalar::lemma_mul_raw_contraction(mag as int, c.raw as int);
                crate::scalar::lemma_mul_raw_contraction(mag as int, s.raw as int);
            }
            let m = Scalar { raw: mag };
            let dx = m.times(c);
            let dy = m.times(s);
            (dx, dy)
        } else {
            let a = self.sample(rng);
            let b = self.sample(rng);
            (a, b)
        }
    }
}

/// The components of an angular draw never exceed the magnitude bound:
/// from any random state, both components of the joint sample lie within
/// the largest magnitude the range admits.  (The full polar statement,
/// `sqrt(dx^2 + dy^2)` within the magnitude range and `atan2(dy, dx)`
/// within the angle range, lives in real arithmetic; in fixed point the
/// truncated trigonometry makes it approximate, so only this bound and the
/// exact draw formula in `sample2d_spec` are stated.)
pub proof fn lemma_angular_components_bounded(d: Dist, s: u64)
    requires
        d.wf(),
        d.is_angular(),
    ensures
        -d.mag_bound() <= d.sample2d_spec(s).0.0.raw <= d.mag_bound(),
        -d.mag_bound() <= d.sample2d_spec(s).0.1.raw <= d.mag_bound(),
{
    match d {
        Dist::Angular { min_angle, max_angle, min_mag, max_mag } => {
            let s1 = rng_next_spec(s);
            let ang = range_value_spec(s1, min_angle.raw as int, max_angle.raw as int);
            let s2 = rng_next_spec(s1);
            let mag = range_value_spec(s2, min_mag.raw as int, max_mag.raw as int);
            vstd::arithmetic::div_mod::lemma_mod_division_less_than_divisor(
                s2 as int,
                max_mag.raw - min_mag.raw + 1,
            );
            crate::trig::lemma_cos_bounds(ang);
            crate::trig::lemma_sin_bounds(ang);
            crate::scalar::lemma_mul_raw_contraction(mag, cos_raw(ang));
            crate::scalar::lemma_mul_raw_contraction(mag, sin_raw(ang));
        },
        _ => {},
    }
}

/// The distribution fixed at zero.
pub fn zero_dist() -> (r: Dist)
    ensures
        r == (Dist::Fixed { value: Scalar { raw: 0 } }),
{
    Dist::create_fixed(Scalar::zero())
}

/// The distribution fixed at `value`.
pub fn fixed_dist(value: Scalar) -> (r: Dist)
    ensures
        r == (Dist::Fixed { value }),
{
    Dist::create_fixed(value)
}

/// The uniform distribution over `[min, max]`.
pub fn uniform_dist(min: Scalar, max: Scalar) -> (r: Dist)
    ensures
        r == (Dist::Uniform { min, max }),
{
    Dist::create_uniform(min, max)
}

/// The angular distribution over the given angle and magnitude ranges.
pub fn angular_dist(min_angle: Scalar, max_angle: Scalar, min_mag: Scalar, max_mag: Scalar) -> (r:
    Dist)
    ensures
        r == (Dist::Angular { min_angle, max_angle, min_mag, max_mag }),
{
    Dist::create_angular(min_angle, max_angle, min_mag, max_mag)
}

} // verus!
