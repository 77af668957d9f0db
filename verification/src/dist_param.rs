//! Randomized kinematic parameters.
//!
//! A `DistParam` is a `Param` whose four coefficients are each drawn once
//! from a distribution at materialization time; the drawn `Param` is then
//! immutable for the lifetime of the entity it governs.  A `DistParam2D` is
//! a pair of randomized parameters for two coupled axes: when a single
//! `DistParam` serves both axes, an angular coefficient is drawn jointly so
//! that one `(dx, dy)` draw supplies both axes coherently.

use vstd::prelude::*;
use crate::scalar::Scalar;
use crate::rng::Rng;
use crate::dist::Dist;
use crate::param::Param;

verus! {

/// Four distributions, one per kinematic coefficient.
#[derive(Clone, Copy, PartialEq, Eq, Structural, Debug)]
pub struct DistParam {
    pub value: Dist,
    pub dt: Dist,
    pub d2t: Dist,
    pub d3t: Dist,
}

impl DistParam {
    /// The randomized parameter with the four given coefficient
    /// distributions.
    pub fn new(value: Dist, dt: Dist, d2t: Dist, d3t: Dist) -> (r: DistParam)
        ensures
            r == (DistParam { value, dt, d2t, d3t }),
    {
        DistParam { value, dt, d2t, d3t }
    }

    /// Every coefficient distribution is well formed.
    pub open spec fn wf(self) -> bool {
        self.value.wf() && self.dt.wf() && self.d2t.wf() && self.d3t.wf()
    }

    /// No coefficient distribution is the two-component angular kind.
    pub open spec fn scalar_only(self) -> bool {
        !self.value.is_angular() && !self.dt.is_angular() && !self.d2t.is_angular()
            && !self.d3t.is_angular()
    }

    /// Every coefficient distribution is a fixed value.
    pub open spec fn all_fixed(self) -> bool {
        self.value is Fixed && self.dt is Fixed && self.d2t is Fixed && self.d3t is Fixed
    }

    /// What always holds of a materialized parameter: each coefficient is an
    /// admissible sample of its distribution.
    pub open spec fn generated_ok(self, p: Param) -> bool {
        self.value.sampled_ok(p.value) && self.dt.sampled_ok(p.dt) && self.d2t.sampled_ok(p.d2t)
            && self.d3t.sampled_ok(p.d3t)
    }

    /// The exact materialization from random state `s`: the coefficients are
    /// drawn in declaration order, one draw each.
    pub open spec fn generate_spec(self, s: u64) -> (Param, u64) {
        let v = self.value.sample_spec(s);
        let d1 = self.dt.sample_spec(v.1);
        let d2 = self.d2t.sample_spec(d1.1);
        let d3 = self.d3t.sample_spec(d2.1);
        (Param { value: v.0, dt: d1.0, d2t: d2.0, d3t: d3.0 }, d3.1)
    }

    /// Materializes one concrete `Param`, sampling each coefficient
    /// distribution exactly once, in declaration order.  Not idempotent: a
    /// second call draws fresh values from the advanced random state.
    pub fn generate(&self, rng: &mut Rng) -> (r: Param)
        requires
            self.wf(),
            self.scalar_only(),
        ensures
            self.generated_ok(r),
            r == self.generate_spec(old(rng).state).0,
            final (rng).state == self.generate_spec(old(rng).state).1,
    {
        let value = self.value.sample(rng);
        let dt = self.dt.sample(rng);
        let d2t = self.d2t.sample(rng);
        let d3t = self.d3t.sample(rng);
        Param { value, dt, d2t, d3t }
    }
}

/// With all-fixed coefficient distributions, every materialization yields
/// the same parameter, whatever the random state.
pub proof fn lemma_all_fixed_materialization_identical(dp: DistParam, s1: u64, s2: u64)
    requires
        dp.all_fixed(),
    ensures
        dp.generate_spec(s1).0 == dp.generate_spec(s2).0,
        dp.generate_spec(s1).1 == s1,
{
}

/// A pair of randomized parameters for two coupled axes.  When `y` is
/// absent, the single `x` parameter serves both axes.
#[derive(Clone, Copy, PartialEq, Eq, Structural, Debug)]
pub struct DistParam2D {
    pub x: DistParam,
    pub y: Option<DistParam>,
}

impl DistParam2D {
    /// The 2D randomized parameter; with `y` absent both axes share `x`.
    pub fn new(x: DistParam, y: Option<DistParam>) -> (r: DistParam2D)
        ensures
            r == (DistParam2D { x, y }),
    {
        DistParam2D { x, y }
    }

    /// The parameter governing the second axis: `y` where given, else `x`.
    pub open spec fn y_effective(self) -> DistParam {
        match self.y {
            Some(p) => p,
            None => self.x,
        }
    }

    /// Well-formedness: the shared form admits angular coefficients (drawn
    /// jointly); with two independent parameters every coefficient must be a
    /// scalar kind.
    pub open spec fn wf(self) -> bool {
        &&& self.x.wf()
        &&& (match self.y {
            Some(p) => p.wf() && p.scalar_only() && self.x.scalar_only(),
            None => true,
        })
    }

    /// The exact shared-axis materialization: each coefficient distribution
    /// is drawn once through its 2D sample, so an angular coefficient
    /// supplies both axes from one joint draw, and a scalar coefficient
    /// gives each axis an independent draw.
    pub open spec fn generate2d_shared_spec(p: DistParam, s: u64) -> ((Param, Param), u64) {
        let v = p.value.sample2d_spec(s);
        let d1 = p.dt.sample2d_spec(v.1);
        let d2 = p.d2t.sample2d_spec(d1.1);
        let d3 = p.d3t.sample2d_spec(d2.1);
        (
            (
                Param { value: v.0.0, dt: d1.0.0, d2t: d2.0.0, d3t: d3.0.0 },
                Param { value: v.0.1, dt: d1.0.1, d2t: d2.0.1, d3t: d3.0.1 },
            ),
            d3.1,
        )
    }

    /// The exact 2D materialization from random state `s`.
    pub open spec fn generate2d_spec(self, s: u64) -> ((Param, Param), u64) {
        match self.y {
            Some(yp) => {
                let rx = self.x.generate_spec(s);
                let ry = yp.generate_spec(rx.1);
                ((rx.0, ry.0), ry.1)
            },
            None => Self::generate2d_shared_spec(self.x, s),
        }
    }

    /// What always holds of one axis pair drawn from one distribution.
    pub open spec fn pair_ok(d: Dist, a: Scalar, b: Scalar) -> bool {
        if d.is_angular() {
            -d.mag_bound() <= a.raw <= d.mag_bound() && -d.mag_bound() <= b.raw <= d.mag_bound()
        } else {
            d.sampled_ok(a) && d.sampled_ok(b)
        }
    }

    /// Materializes both axes.  With a shared parameter, each coefficient is
    /// drawn through one 2D sample (joint for angular kinds); with two
    /// parameters, each axis is materialized independently.
    pub fn generate2d(&self, rng: &mut Rng) -> (r: (Param, Param))
        requires
            self.wf(),
        ensures
            r.0 == self.generate2d_spec(old(rng).state).0.0,
            r.1 == self.generate2d_spec(old(rng).state).0.1,
            final (rng).state == self.generate2d_spec(old(rng).state).1,
            self.y is Some ==> self.x.generated_ok(r.0) && self.y_effective().generated_ok(r.1),
            self.y is None ==> {
                &&& Self::pair_ok(self.x.value, r.0.value, r.1.value)
                &&& Self::pair_ok(self.x.dt, r.0.dt, r.1.dt)
                &&& Self::pair_ok(self.x.d2t, r.0.d2t, r.1.d2t)
                &&& Self::pair_ok(self.x.d3t, r.0.d3t, r.1.d3t)
            },
    {
        match &self.y {
            Some(yp) => {
                let a = self.x.generate(rng);
                let b = yp.generate(rng);
                (a, b)
            },
            None => {
                let v = self.x.value.sample2d(rng);
                let d1 = self.x.dt.sample2d(rng);
                let d2 = self.x.d2t.sample2d(rng);
                let d3 = self.x.d3t.sample2d(rng);
                (
                    Param { value: v.0, dt: d1.0, d2t: d2.0, d3t: d3.0 },
                    Param { value: v.1, dt: d1.1, d2t: d2.1, d3t: d3.1 },
                )
            },
        }
    }
}

/// Builds a randomized parameter from one to four distributions, the later
/// ones optional; omitted trailing coefficients default to the fixed zero
/// distribution.  As in the script surface, a missing earlier coefficient
/// makes the later ones ignored.
pub fn dist_param(value: Dist, dt: Option<Dist>, d2t: Option<Dist>, d3t: Option<Dist>) -> (r:
    DistParam)
    ensures
        dt is None ==> r == (DistParam {
            value,
            dt: Dist::Fixed { value: Scalar { raw: 0 } },
            d2t: Dist::Fixed { value: Scalar { raw: 0 } },
            d3t: Dist::Fixed { value: Scalar { raw: 0 } },
        }),
        dt matches Some(dtv) ==> (d2t is None ==> r == (DistParam {
            value,
            dt: dtv,
            d2t: Dist::Fixed { value: Scalar { raw: 0 } },
            d3t: Dist::Fixed { value: Scalar { raw: 0 } },
        })),
        dt matches Some(dtv) ==> (d2t matches Some(d2tv) ==> (d3t is None ==> r == (DistParam {
            value,
            dt: dtv,
            d2t: d2tv,
            d3t: Dist::Fixed { value: Scalar { raw: 0 } },
        }))),
        dt matches Some(dtv) ==> (d2t matches Some(d2tv) ==> (d3t matches Some(d3tv) ==> r
            == (DistParam { value, dt: dtv, d2t: d2tv, d3t: d3tv }))),
{
    match dt {
        None => DistParam::new(value, zero_d(), zero_d(), zero_d()),
        Some(dtv) => match d2t {
            None => DistParam::new(value, dtv, zero_d(), zero_d()),
            Some(d2tv) => match d3t {
                None => DistParam::new(value, dtv, d2tv, zero_d()),
                Some(d3tv) => DistParam::new(value, dtv, d2tv, d3tv),
            },
        },
    }
}

/// The fixed zero distribution, the default for omitted coefficients.
fn zero_d() -> (r: Dist)
    ensures
        r == (Dist::Fixed { value: Scalar { raw: 0 } }),
{
    Dist::create_fixed(Scalar::zero())
}

} // verus!
