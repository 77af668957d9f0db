//! The generator configuration object.
//!
//! A `GeneratorModel` is the aggregate, value-typed configuration of one
//! particle generator: duration, world position, optional rotation, color,
//! spawn-rate and initial-burst control, layering flags, and the optional
//! per-particle randomized fields.  It is built incrementally by setters and
//! later frozen by value into a runtime instance, so mutating the source
//! configuration never affects an already-running animation.

use vstd::prelude::*;
use crate::scalar::Scalar;
use crate::param::Param;
use crate::dist::Dist;
use crate::dist_param::DistParam2D;
use crate::rng::Rng;

verus! {

/// A time budget in milliseconds: finite, or unbounded.
#[derive(Clone, Copy, PartialEq, Eq, Structural, Debug)]
pub enum ExtInt {
    Int(u32),
    Infinity,
}

impl ExtInt {
    /// Whether the budget is unbounded.
    pub fn is_infinite(&self) -> (r: bool)
        ensures
            r == (*self is Infinity),
    {
        match self {
            ExtInt::Int(_) => false,
            ExtInt::Infinity => true,
        }
    }
}

/// The configuration of one generator instance.
#[derive(Clone, Copy, PartialEq, Eq, Debug)]
pub struct GeneratorModel {
    /// Elapsed-time budget of the whole generator.
    pub duration_millis: ExtInt,
    /// World position of the generator's frame.
    pub position: (Param, Param),
    /// Optional rotation applied to all particles, in micro-radians.
    pub rotation: Option<Param>,
    /// Color components, each nominally in `[0, 1]`.
    pub red: Param,
    pub green: Param,
    pub blue: Param,
    pub alpha: Param,
    /// Particles generated per second.
    pub gen_rate: Param,
    /// Fractional particle count pre-seeded at activation.
    pub initial_overflow: Scalar,
    /// Whether the animation blocks the caller until it completes.
    pub is_blocking: bool,
    /// Whether drawing happens above the entity layer.
    pub draw_above_entities: bool,
    /// Whether the generator follows its parent's position.
    pub moves_with_parent: bool,
    /// Optional per-particle randomized fields.
    pub particle_position_dist: Option<DistParam2D>,
    pub particle_duration_dist: Option<Dist>,
    pub particle_size_dist: Option<(Dist, Dist)>,
    pub particle_frame_time_offset_dist: Option<Dist>,
}

/// The freshly built model: stationary at `(x, y)`, opaque white color, one
/// particle per second, no pre-seeded particles, blocking exactly when the
/// duration is finite, drawn below the entity layer, and no per-particle
/// randomization.
pub open spec fn model_new_spec(duration_millis: ExtInt, x: Scalar, y: Scalar) -> GeneratorModel {
    GeneratorModel {
        duration_millis,
        position: (
            Param {
                value: x,
                dt: Scalar { raw: 0 },
                d2t: Scalar { raw: 0 },
                d3t: Scalar { raw: 0 },
            },
            Param {
                value: y,
                dt: Scalar { raw: 0 },
                d2t: Scalar { raw: 0 },
                d3t: Scalar { raw: 0 },
            },
        ),
        rotation: None,
        red: Param {
            value: Scalar { raw: crate::scalar::SCALE },
            dt: Scalar { raw: 0 },
            d2t: Scalar { raw: 0 },
            d3t: Scalar { raw: 0 },
        },
        green: Param {
            value: Scalar { raw: crate::scalar::SCALE },
            dt: Scalar { raw: 0 },
            d2t: Scalar { raw: 0 },
            d3t: Scalar { raw: 0 },
        },
        blue: Param {
            value: Scalar { raw: crate::scalar::SCALE },
            dt: Scalar { raw: 0 },
            d2t: Scalar { raw: 0 },
            d3t: Scalar { raw: 0 },
        },
        alpha: Param {
            value: Scalar { raw: crate::scalar::SCALE },
            dt: Scalar { raw: 0 },
            d2t: Scalar { raw: 0 },
            d3t: Scalar { raw: 0 },
        },
        gen_rate: Param {
            value: Scalar { raw: crate::scalar::SCALE },
            dt: Scalar { raw: 0 },
            d2t: Scalar { raw: 0 },
            d3t: Scalar { raw: 0 },
        },
        initial_overflow: Scalar { raw: 0 },
        is_blocking: !(duration_millis is Infinity),
        draw_above_entities: false,
        moves_with_parent: false,
        particle_position_dist: None,
        particle_duration_dist: None,
        particle_size_dist: None,
        particle_frame_time_offset_dist: None,
    }
}

impl GeneratorModel {
    /// Builds the default model at position `(x, y)` with the given
    /// duration.
    pub fn new(duration_millis: ExtInt, x: Scalar, y: Scalar) -> (r: GeneratorModel)
        ensures
            r == model_new_spec(duration_millis, x, y),
    {
        let inf = duration_millis.is_infinite();
        GeneratorModel {
            duration_millis,
            position: (Param::fixed(x), Param::fixed(y)),
            rotation: None,
            red: Param::fixed(Scalar::one()),
            green: Param::fixed(Scalar::one()),
            blue: Param::fixed(Scalar::one()),
            alpha: Param::fixed(Scalar::one()),
            gen_rate: Param::fixed(Scalar::one()),
            initial_overflow: Scalar::zero(),
            is_blocking: !inf,
            draw_above_entities: false,
            moves_with_parent: false,
            particle_position_dist: None,
            particle_duration_dist: None,
            particle_size_dist: None,
            particle_frame_time_offset_dist: None,
        }
    }
}

/// The values drawn once for one spawned particle.  Fields whose
/// distribution the model does not configure stay `None` and the runtime
/// driver applies its defaults.
#[derive(Clone, Copy, PartialEq, Eq, Debug)]
pub struct Particle {
    /// Kinematic offset from the generator's position, one axis each.
    pub position: Option<(Param, Param)>,
    /// Lifetime in seconds.
    pub duration: Option<Scalar>,
    /// Width and height, in tiles.
    pub size: Option<(Scalar, Scalar)>,
    /// Frame time offset, in seconds.
    pub frame_time_offset: Option<Scalar>,
}

/// The exact sample a scalar field draw takes, `None` staying unsampled.
pub open spec fn field_sample_spec(d: Option<Dist>, s: u64) -> (Option<Scalar>, u64) {
    match d {
        Some(dist) => {
            let drawn = dist.sample_spec(s);
            (Some(drawn.0), drawn.1)
        },
        None => (None, s),
    }
}

impl GeneratorModel {
    /// Every configured per-particle distribution is admissible: well
    /// formed, and scalar wherever a single value is drawn.
    pub open spec fn particle_dists_wf(self) -> bool {
        &&& (match self.particle_position_dist {
            Some(d) => d.wf(),
            None => true,
        })
        &&& (match self.particle_duration_dist {
            Some(d) => d.wf() && !d.is_angular(),
            None => true,
        })
        &&& (match self.particle_size_dist {
            Some((w, h)) => w.wf() && !w.is_angular() && h.wf() && !h.is_angular(),
            None => true,
        })
        &&& (match self.particle_frame_time_offset_dist {
            Some(d) => d.wf() && !d.is_angular(),
            None => true,
        })
    }

    /// The exact particle drawn from random state `s`: the fields are
    /// sampled in a fixed order (position, duration, size, frame time
    /// offset), so a seeded source makes spawning reproducible.
    pub open spec fn spawn_spec(self, s: u64) -> (Particle, u64) {
        let pos = match self.particle_position_dist {
            Some(d) => {
                let drawn = d.generate2d_spec(s);
                (Some(drawn.0), drawn.1)
            },
            None => (None, s),
        };
        let dur = field_sample_spec(self.particle_duration_dist, pos.1);
        let size = match self.particle_size_dist {
            Some((wd, hd)) => {
                let w = wd.sample_spec(dur.1);
                let h = hd.sample_spec(w.1);
                (Some((w.0, h.0)), h.1)
            },
            None => (None, dur.1),
        };
        let off = field_sample_spec(self.particle_frame_time_offset_dist, size.1);
        (
            Particle {
                position: pos.0,
                duration: dur.0,
                size: size.0,
                frame_time_offset: off.0,
            },
            off.1,
        )
    }

    /// Draws the per-particle values for one spawned particle, sampling
    /// each configured distribution in the fixed field order: position,
    /// duration, size, frame time offset.  Every drawn value is an
    /// admissible sample of its distribution.
    pub fn spawn_particle(&self, rng: &mut Rng) -> (r: Particle)
        requires
            self.particle_dists_wf(),
        ensures
            r == self.spawn_spec(old(rng).state).0,
            final (rng).state == self.spawn_spec(old(rng).state).1,
            self.particle_duration_dist matches Some(d) ==> (r.duration matches Some(v)
                && d.sampled_ok(v)),
            self.particle_duration_dist is None ==> r.duration is None,
            self.particle_size_dist matches Some(wh) ==> (r.size matches Some(v)
                && wh.0.sampled_ok(v.0) && wh.1.sampled_ok(v.1)),
            self.particle_size_dist is None ==> r.size is None,
            self.particle_frame_time_offset_dist matches Some(d) ==> (r.frame_time_offset
                matches Some(v) && d.sampled_ok(v)),
            self.particle_frame_time_offset_dist is None ==> r.frame_time_offset is None,
            self.particle_position_dist is Some <==> r.position is Some,
    {
        let position = match &self.particle_position_dist {
            Some(d) => Some(d.generate2d(rng)),
            None => None,
        };
        let duration = match &self.particle_duration_dist {
            Some(d) => Some(d.sample(rng)),
            None => None,
        };
        let size = match &self.particle_size_dist {
            Some((wd, hd)) => {
                let w = wd.sample(rng);
                let h = hd.sample(rng);
                Some((w, h))
            },
            None => None,
        };
        let frame_time_offset = match &self.particle_frame_time_offset_dist {
            Some(d) => Some(d.sample(rng)),
            None => None,
        };
        Particle { position, duration, size, frame_time_offset }
    }
}

/// The freshly built model's alpha component evaluates to exactly one at
/// every elapsed time, so a color set without an alpha argument stays fully
/// opaque.
pub proof fn lemma_default_alpha_constant_one(
    duration_millis: ExtInt,
    x: Scalar,
    y: Scalar,
    t: int,
)
    ensures
        crate::param::eval_raw(
            model_new_spec(duration_millis, x, y).alpha.value.raw as int,
            model_new_spec(duration_millis, x, y).alpha.dt.raw as int,
            model_new_spec(duration_millis, x, y).alpha.d2t.raw as int,
            model_new_spec(duration_millis, x, y).alpha.d3t.raw as int,
            t,
        ) == crate::scalar::SCALE,
{
    crate::param::lemma_fixed_param_constant(crate::scalar::SCALE as int, t);
}

} // verus!
