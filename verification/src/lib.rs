//! A parametric, time-driven particle animation engine.
//!
//! The engine evaluates the visual state of particles and generators as a
//! pure function of elapsed time.  A generator is configured declaratively:
//! kinematic parameters (value, speed, acceleration, jerk), optional random
//! distributions for per-particle fields, spawn-rate and layering flags, and
//! scheduled callbacks.  All quantities are fixed-point scalars (micro-units),
//! so every formula in the engine is exact integer arithmetic with a proved
//! contract.

pub mod dist;
pub mod dist_param;
pub mod generator;
pub mod inventory;
pub mod param;
pub mod rng;
pub mod script;
pub mod scalar;
pub mod trig;

pub use dist::Dist;
pub use dist_param::{DistParam, DistParam2D};
pub use generator::{ExtInt, GeneratorModel, Particle};
pub use inventory::InventoryWindow;
pub use param::Param;
pub use rng::Rng;
pub use scalar::Scalar;
pub use script::{Anim, CallbackData, EntityInfo, Error, ImageHandle, ScriptParticleGenerator};
