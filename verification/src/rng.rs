//! The engine's pseudo-random source.
//!
//! A single linear-congruential generator supplies every random draw, so an
//! activation is reproducible: given the seed, each draw is an exact function
//! of the state, and the contracts below say exactly which one.

use vstd::prelude::*;

verus! {

/// Multiplier of the linear-congruential step.
pub const RNG_MUL: u64 = 6364136223846793005;

/// Increment of the linear-congruential step.
pub const RNG_INC: u64 = 1442695040888963407;

/// The state after one step: `(RNG_MUL * s + RNG_INC) mod 2^64`.
pub open spec fn rng_next_spec(s: u64) -> u64 {
    ((RNG_MUL * s + RNG_INC) % 0x1_0000_0000_0000_0000) as u64
}

/// The value a draw from `[min, max]` yields when the step lands on state `s`.
pub open spec fn range_value_spec(s: u64, min: int, max: int) -> int {
    min + (s as int) % (max - min + 1)
}

/// A deterministic pseudo-random source (linear-congruential).
#[derive(Clone, Copy, PartialEq, Eq, Structural, Debug)]
pub struct Rng {
    pub state: u64,
}

impl Rng {
    /// A source starting from the given seed.
    pub fn new(seed: u64) -> (r: Rng)
        ensures
            r.state == seed,
    {
        Rng { state: seed }
    }

    /// Advances the state one step and returns it.
    pub fn next_u64(&mut self) -> (r: u64)
        ensures
            final (self).state == rng_next_spec(old(self).state),
            r == final (self).state,
    {
        proof {
            let m = RNG_MUL as int;
            let s = self.state as int;
            assert(m * s <= m * 0xffff_ffff_ffff_ffff) by (nonlinear_arith)
                requires
                    0 <= s <= 0xffff_ffff_ffff_ffff,
                    m >= 0,
            ;
        }
        let p: u128 = (RNG_MUL as u128) * (self.state as u128) + (RNG_INC as u128);
        let s: u64 = (p % 0x1_0000_0000_0000_0000u128) as u64;
        self.state = s;
        s
    }

    /// Draws a value uniformly from the inclusive range `[min, max]`.
    pub fn gen_range(&mut self, min: i64, max: i64) -> (r: i64)
        requires
            min <= max,
        ensures
            min <= r <= max,
            final (self).state == rng_next_spec(old(self).state),
            r == range_value_spec(final (self).state, min as int, max as int),
    {
        let x = self.next_u64();
        let span: u128 = ((max as i128) - (min as i128) + 1) as u128;
        let off: u128 = (x as u128) % span;
        let r: i64 = ((min as i128) + (off as i128)) as i64;
        r
    }
}

} // verus!
