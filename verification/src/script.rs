//! The script-facing particle generator.
//!
//! A `ScriptParticleGenerator` is the mutable configuration object the
//! embedding scripting layer builds up: a parent entity, an image
//! identifier, scheduled callbacks, and a `GeneratorModel`.  Activation
//! freezes the configuration into an `Anim` runtime instance: the caller
//! resolves the image identifier to a handle and passes it in, and the
//! scheduled callback times are converted from seconds to whole
//! milliseconds by truncation at that point.

use vstd::prelude::*;
use crate::scalar::{Scalar, fits_raw, SCALE};
use crate::param::Param;
use crate::dist::Dist;
use crate::dist_param::{DistParam, DistParam2D};
use crate::generator::{ExtInt, GeneratorModel, model_new_spec};

verus! {

/// An opaque token standing for a scripted callback owned by the caller.
#[derive(Clone, Copy, PartialEq, Eq, Structural, Debug)]
pub struct CallbackData {
    pub id: u64,
}

impl CallbackData {
    /// The token with the given identifier.
    pub fn new(id: u64) -> (r: CallbackData)
        ensures
            r.id == id,
    {
        CallbackData { id }
    }
}

/// A resolved image resource handle.
#[derive(Clone, Copy, PartialEq, Eq, Structural, Debug)]
pub struct ImageHandle {
    pub id: u64,
}

impl ImageHandle {
    /// The handle with the given identifier.
    pub fn new(id: u64) -> (r: ImageHandle)
        ensures
            r.id == id,
    {
        ImageHandle { id }
    }
}

/// The owner entity's placement: tile location and size.  The generator's
/// default origin is the owner's center point.
#[derive(Clone, Copy, PartialEq, Eq, Structural, Debug)]
pub struct EntityInfo {
    pub x: i32,
    pub y: i32,
    pub width: i32,
    pub height: i32,
}

/// The raw horizontal center of an entity: `x + width / 2` in fixed point.
pub open spec fn center_x_raw(e: EntityInfo) -> int {
    e.x * (SCALE as int) + e.width * 500_000
}

/// The raw vertical center of an entity: `y + height / 2` in fixed point.
pub open spec fn center_y_raw(e: EntityInfo) -> int {
    e.y * (SCALE as int) + e.height * 500_000
}

/// Why an activation failed.
#[derive(Clone, Copy, PartialEq, Eq, Structural, Debug)]
pub enum Error {
    /// The image identifier did not resolve to a loaded resource.
    ResourceNotFound,
}

/// A scheduled callback time in seconds, truncated to whole milliseconds.
/// Negative times and times beyond the driver's range saturate.
pub open spec fn millis_of(t: Scalar) -> u32 {
    if t.raw < 0 {
        0u32
    } else if (t.raw as int) / 1000 > u32::MAX {
        u32::MAX
    } else {
        ((t.raw as int) / 1000) as u32
    }
}

/// Converts a second count to the driver's millisecond unit by truncation.
fn to_millis(t: Scalar) -> (r: u32)
    ensures
        r == millis_of(t),
{
    if t.raw < 0 {
        0
    } else {
        let m: u64 = (t.raw as u64) / 1000;
        if m > 0xffff_ffffu64 {
            u32::MAX
        } else {
            m as u32
        }
    }
}

/// A frozen runtime instance: the deep copy of a configuration handed to
/// the external animation driver.
#[derive(Clone, Debug)]
pub struct Anim {
    /// Index of the entity the animation is attached to.
    pub owner: usize,
    /// The resolved image resource.
    pub image: ImageHandle,
    /// The frozen configuration snapshot.
    pub model: GeneratorModel,
    /// Fires once when the generator's duration elapses.
    pub completion_callback: Option<CallbackData>,
    /// Scheduled callbacks, each with its time in whole milliseconds.
    pub update_callbacks: Vec<(u32, CallbackData)>,
}

impl Anim {
    /// Sets the callback fired at completion; the last write wins.
    pub fn add_completion_callback(&mut self, cb: CallbackData)
        ensures
            final (self).completion_callback == Some(cb),
            final (self).owner == old(self).owner,
            final (self).image == old(self).image,
            final (self).model == old(self).model,
            final (self).update_callbacks@ == old(self).update_callbacks@,
    {
        self.completion_callback = Some(cb);
    }

    /// Appends one scheduled callback at the given millisecond time;
    /// duplicate times are legal and all fire independently.
    pub fn add_update_callback(&mut self, cb: CallbackData, millis: u32)
        ensures
            final (self).update_callbacks@ == old(self).update_callbacks@.push((millis, cb)),
            final (self).owner == old(self).owner,
            final (self).image == old(self).image,
            final (self).model == old(self).model,
            final (self).completion_callback == old(self).completion_callback,
    {
        self.update_callbacks.push((millis, cb));
    }
}

/// The script-facing configuration object for one particle generator.
#[derive(Clone, Debug)]
pub struct ScriptParticleGenerator {
    /// Index of the parent entity.
    pub parent: usize,
    /// Identifier of the image resource, resolved at activation.
    pub image: String,
    /// Fires once when the generator's duration elapses.
    pub completion_callback: Option<CallbackData>,
    /// Scheduled callbacks, each with its time in seconds.
    pub callbacks: Vec<(Scalar, CallbackData)>,
    /// The generator configuration being built.
    pub model: GeneratorModel,
}

impl ScriptParticleGenerator {
    /// A fresh generator attached to `parent`, positioned at the owner's
    /// center point, with the default model.
    pub fn new(parent: usize, image: String, duration_millis: ExtInt, owner: &EntityInfo) -> (r:
        ScriptParticleGenerator)
        ensures
            r.parent == parent,
            r.image@ == image@,
            r.completion_callback is None,
            r.callbacks@.len() == 0,
            r.model == model_new_spec(
                duration_millis,
                Scalar { raw: center_x_raw(*owner) as i64 },
                Scalar { raw: center_y_raw(*owner) as i64 },
            ),
    {
        let x = Scalar { raw: (owner.x as i64) * SCALE + (owner.width as i64) * 500_000 };
        let y = Scalar { raw: (owner.y as i64) * SCALE + (owner.height as i64) * 500_000 };
        let model = GeneratorModel::new(duration_millis, x, y);
        ScriptParticleGenerator {
            parent,
            image,
            completion_callback: None,
            callbacks: Vec::new(),
            model,
        }
    }

    /// A fresh generator set up as a one-shot frame animation: one particle
    /// pre-seeded and a zero generation rate.
    pub fn new_anim(parent: usize, image: String, duration_millis: ExtInt, owner: &EntityInfo)
        -> (r: ScriptParticleGenerator)
        ensures
            r.parent == parent,
            r.image@ == image@,
            r.completion_callback is None,
            r.callbacks@.len() == 0,
            r.model == (GeneratorModel {
                initial_overflow: Scalar { raw: SCALE },
                gen_rate: Param {
                    value: Scalar { raw: 0 },
                    dt: Scalar { raw: 0 },
                    d2t: Scalar { raw: 0 },
                    d3t: Scalar { raw: 0 },
                },
                ..model_new_spec(
                    duration_millis,
                    Scalar { raw: center_x_raw(*owner) as i64 },
                    Scalar { raw: center_y_raw(*owner) as i64 },
                )
            }),
    {
        let mut pgen = ScriptParticleGenerator::new(parent, image, duration_millis, owner);
        pgen.model.initial_overflow = Scalar::one();
        pgen.model.gen_rate = Param::fixed(Scalar::zero());
        pgen
    }

    /// A copy of the configuration being built.
    pub fn owned_model(&self) -> (r: GeneratorModel)
        ensures
            r == self.model,
    {
        self.model
    }

    /// Sets whether the animation blocks the caller.
    pub fn set_blocking(&mut self, blocking: bool)
        ensures
            *final (self) == (ScriptParticleGenerator {
                model: GeneratorModel { is_blocking: blocking, ..old(self).model },
                ..*old(self)
            }),
    {
        self.model.is_blocking = blocking;
    }

    /// Draws this animation below the entity layer.
    pub fn set_draw_below_entities(&mut self)
        ensures
            *final (self) == (ScriptParticleGenerator {
                model: GeneratorModel { draw_above_entities: false, ..old(self).model },
                ..*old(self)
            }),
    {
        self.model.draw_above_entities = false;
    }

    /// Draws this animation above the entity layer.
    pub fn set_draw_above_entities(&mut self)
        ensures
            *final (self) == (ScriptParticleGenerator {
                model: GeneratorModel { draw_above_entities: true, ..old(self).model },
                ..*old(self)
            }),
    {
        self.model.draw_above_entities = true;
    }

    /// Sets the particle count generated immediately on the first frame.
    pub fn set_initial_gen(&mut self, value: Scalar)
        ensures
            *final (self) == (ScriptParticleGenerator {
                model: GeneratorModel { initial_overflow: value, ..old(self).model },
                ..*old(self)
            }),
    {
        self.model.initial_overflow = value;
    }

    /// Makes the animation follow its parent's position.
    pub fn set_moves_with_parent(&mut self)
        ensures
            *final (self) == (ScriptParticleGenerator {
                model: GeneratorModel { moves_with_parent: true, ..old(self).model },
                ..*old(self)
            }),
    {
        self.model.moves_with_parent = true;
    }

    /// Sets the number of particles generated each second.
    pub fn set_gen_rate(&mut self, rate: Param)
        ensures
            *final (self) == (ScriptParticleGenerator {
                model: GeneratorModel { gen_rate: rate, ..old(self).model },
                ..*old(self)
            }),
    {
        self.model.gen_rate = rate;
    }

    /// Sets the generator's overall world position.
    pub fn set_position(&mut self, x: Param, y: Param)
        ensures
            *final (self) == (ScriptParticleGenerator {
                model: GeneratorModel { position: (x, y), ..old(self).model },
                ..*old(self)
            }),
    {
        self.model.position = (x, y);
    }

    /// Sets a rotation (micro-radians) for all particles.
    pub fn set_rotation(&mut self, rotation: Param)
        ensures
            *final (self) == (ScriptParticleGenerator {
                model: GeneratorModel { rotation: Some(rotation), ..old(self).model },
                ..*old(self)
            }),
    {
        self.model.rotation = Some(rotation);
    }

    /// Sets the draw color; with the alpha component omitted, alpha
    /// defaults to the fixed value one, which evaluates to exactly one at
    /// every elapsed time.
    pub fn set_color(&mut self, r: Param, g: Param, b: Param, a: Option<Param>)
        ensures
            *final (self) == (ScriptParticleGenerator {
                model: GeneratorModel {
                    red: r,
                    green: g,
                    blue: b,
                    alpha: (match a {
                        Some(ap) => ap,
                        None => Param {
                            value: Scalar { raw: SCALE },
                            dt: Scalar { raw: 0 },
                            d2t: Scalar { raw: 0 },
                            d3t: Scalar { raw: 0 },
                        },
                    }),
                    ..old(self).model
                },
                ..*old(self)
            }),
    {
        self.model.red = r;
        self.model.green = g;
        self.model.blue = b;
        self.model.alpha = match a {
            Some(ap) => ap,
            None => Param::fixed(Scalar::one()),
        };
    }

    /// Sets the alpha color component alone.
    pub fn set_alpha(&mut self, a: Param)
        ensures
            *final (self) == (ScriptParticleGenerator {
                model: GeneratorModel { alpha: a, ..old(self).model },
                ..*old(self)
            }),
    {
        self.model.alpha = a;
    }

    /// Sets the callback fired at completion; the last write wins.
    pub fn set_completion_callback(&mut self, cb: CallbackData)
        ensures
            *final (self) == (ScriptParticleGenerator {
                completion_callback: Some(cb),
                ..*old(self)
            }),
    {
        self.completion_callback = Some(cb);
    }

    /// Appends one scheduled callback at the given time in seconds;
    /// duplicate times are legal and all fire independently.
    pub fn add_callback(&mut self, cb: CallbackData, time: Scalar)
        ensures
            final (self).callbacks@ == old(self).callbacks@.push((time, cb)),
            final (self).parent == old(self).parent,
            final (self).image == old(self).image,
            final (self).completion_callback == old(self).completion_callback,
            final (self).model == old(self).model,
    {
        self.callbacks.push((time, cb));
    }

    /// Sets the per-particle position distribution; with `y` omitted the
    /// single `x` parameter serves both axes.
    pub fn set_particle_position_dist(&mut self, x: DistParam, y: Option<DistParam>)
        ensures
            *final (self) == (ScriptParticleGenerator {
                model: GeneratorModel {
                    particle_position_dist: Some(DistParam2D { x, y }),
                    ..old(self).model
                },
                ..*old(self)
            }),
            y is None ==> (final (self).model.particle_position_dist matches Some(d)
                && d.y_effective() == x && d.x == x),
    {
        self.model.particle_position_dist = Some(DistParam2D::new(x, y));
    }

    /// Sets the per-particle lifetime distribution, in seconds.
    pub fn set_particle_duration_dist(&mut self, value: Dist)
        ensures
            *final (self) == (ScriptParticleGenerator {
                model: GeneratorModel {
                    particle_duration_dist: Some(value),
                    ..old(self).model
                },
                ..*old(self)
            }),
    {
        self.model.particle_duration_dist = Some(value);
    }

    /// Sets the per-particle size distributions (width, height).
    pub fn set_particle_size_dist(&mut self, width: Dist, height: Dist)
        ensures
            *final (self) == (ScriptParticleGenerator {
                model: GeneratorModel {
                    particle_size_dist: Some((width, height)),
                    ..old(self).model
                },
                ..*old(self)
            }),
    {
        self.model.particle_size_dist = Some((width, height));
    }

    /// Sets the per-particle frame time offset distribution.
    pub fn set_particle_frame_time_offset_dist(&mut self, value: Dist)
        ensures
            *final (self) == (ScriptParticleGenerator {
                model: GeneratorModel {
                    particle_frame_time_offset_dist: Some(value),
                    ..old(self).model
                },
                ..*old(self)
            }),
    {
        self.model.particle_frame_time_offset_dist = Some(value);
    }

    /// Freezes this configuration into a runtime instance bound to the
    /// resolved image, if the caller's resolution succeeded.  The returned
    /// instance is an independent value: later mutation of this object
    /// cannot affect it.
    pub fn activate(&self, image: Option<ImageHandle>) -> (r: Result<Anim, Error>)
        ensures
            image is None ==> r == Err::<Anim, Error>(Error::ResourceNotFound),
            image matches Some(img) ==> (r matches Ok(a) && anim_matches(
                a,
                self,
                self.model,
                img,
            )),
    {
        create_pgen(self, self.owned_model(), image)
    }
}

/// The alpha a three-argument `set_color` installs — the fixed value one —
/// evaluates to exactly one at every elapsed time.
pub proof fn lemma_omitted_alpha_fully_opaque(t: int)
    ensures
        crate::param::eval_raw(SCALE as int, 0, 0, 0, t) == SCALE as int,
{
    crate::param::lemma_fixed_param_constant(SCALE as int, t);
}

/// What the frozen instance holds: the generator's parent and callbacks,
/// the given model snapshot, and every scheduled time converted to whole
/// milliseconds in order.
pub open spec fn anim_matches(
    a: Anim,
    gen: &ScriptParticleGenerator,
    model: GeneratorModel,
    img: ImageHandle,
) -> bool {
    &&& a.owner == gen.parent
    &&& a.image == img
    &&& a.model == model
    &&& a.completion_callback == gen.completion_callback
    &&& a.update_callbacks@.len() == gen.callbacks@.len()
    &&& forall|j: int|
        0 <= j < gen.callbacks@.len() ==> a.update_callbacks@[j] == (
            millis_of(gen.callbacks@[j].0),
            gen.callbacks@[j].1,
        )
}

/// Freezes the given model snapshot into a runtime instance for `gen`.
/// Fails, creating nothing, exactly when the image did not resolve.
pub fn create_pgen(gen: &ScriptParticleGenerator, model: GeneratorModel, image: Option<
    ImageHandle,
>) -> (r: Result<Anim, Error>)
    ensures
        image is None ==> r == Err::<Anim, Error>(Error::ResourceNotFound),
        image matches Some(img) ==> (r matches Ok(a) && anim_matches(a, gen, model, img)),
{
    let img = match image {
        Some(img) => img,
        None => {
            return Err(Error::ResourceNotFound);
        },
    };
    let mut update_callbacks: Vec<(u32, CallbackData)> = Vec::new();
    let mut i: usize = 0;
    while i < gen.callbacks.len()
        invariant
            i <= gen.callbacks@.len(),
            update_callbacks@.len() == i,
            forall|j: int|
                0 <= j < i ==> update_callbacks@[j] == (
                    millis_of(gen.callbacks@[j].0),
                    gen.callbacks@[j].1,
                ),
        decreases gen.callbacks@.len() - i,
    {
        let (time, cb) = gen.callbacks[i];
        let m = to_millis(time);
        update_callbacks.push((m, cb));
        i = i + 1;
    }
    Ok(
        Anim {
            owner: gen.parent,
            image: img,
            model,
            completion_callback: gen.completion_callback,
            update_callbacks,
        },
    )
}

/// Freezes a copy of `gen`'s model translated by the whole-tile offset
/// `(x, y)`: only the position constant terms move, so one template can be
/// replayed at another origin without mutating the shared configuration.
pub fn create_surface_pgen(gen: &ScriptParticleGenerator, x: i32, y: i32, image: Option<
    ImageHandle,
>) -> (r: Result<Anim, Error>)
    requires
        fits_raw(gen.model.position.0.value.raw + x * (SCALE as int)),
        fits_raw(gen.model.position.1.value.raw + y * (SCALE as int)),
    ensures
        image is None ==> r == Err::<Anim, Error>(Error::ResourceNotFound),
        image matches Some(img) ==> (r matches Ok(a) && anim_matches(
            a,
            gen,
            GeneratorModel {
                position: (
                    Param {
                        value: Scalar {
                            raw: (gen.model.position.0.value.raw + x * (SCALE as int)) as i64,
                        },
                        ..gen.model.position.0
                    },
                    Param {
                        value: Scalar {
                            raw: (gen.model.position.1.value.raw + y * (SCALE as int)) as i64,
                        },
                        ..gen.model.position.1
                    },
                ),
                ..gen.model
            },
            img,
        )),
{
    let mut model = gen.owned_model();
    let x_param = model.position.0.offset(Scalar::from_int(x));
    let y_param = model.position.1.offset(Scalar::from_int(y));
    model.position = (x_param, y_param);
    create_pgen(gen, model, image)
}

} // verus!
