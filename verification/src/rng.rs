//! The injected randomness capability: a small deterministic generator.
//!
//! The integrator and the scene builders draw every random quantity from a
//! `Sampler`, a 64-bit xorshift generator whose next state is a pure function
//! of the current one. Rendering with the same seed therefore reproduces the
//! same image bit for bit, while a fresh seed can be drawn from the process
//! entropy through `Sampler::from_entropy`.

use vstd::prelude::*;
use crate::fx::Fx;
use crate::fx::fx_add;
use crate::fx::fx_mul;
use crate::fx::fx_sub;

verus! {

/// The xorshift successor of a generator state.
pub open spec fn step(s: u64) -> u64 {
    let a = s ^ (s << 13);
    let b = a ^ (a >> 7);
    b ^ (b << 17)
}

/// Seeds are scrambled by a multiplicative mix so that nearby small seeds
/// land on well-separated states, and forced odd so the state is never
/// zero, the one fixed point of `step`.
pub open spec fn seed_fix(seed: u64) -> u64 {
    seed.wrapping_mul(0x9e3779b97f4a7c15) | 1
}

/// The unit-interval mantissa drawn from a state: its top sixteen bits.
pub open spec fn unit_of(s: u64) -> int {
    (s >> 48) as int
}

/// A draw from `[min, max)` scaled out of a state.
pub open spec fn range_of(s: u64, min: int, max: int) -> int {
    fx_add(min, fx_mul(fx_sub(max, min), unit_of(s)))
}

/// A deterministic pseudo-random generator, passed explicitly to everything
/// that samples.
#[derive(Clone, Copy, PartialEq, Eq, Structural, Debug)]
pub struct Sampler {
    pub state: u64,
}

/// Relies on rand::random: a uniformly drawn 64-bit value from the thread's
/// generator, used only to pick a fresh seed.
#[verifier::external_body]
fn entropy_seed() -> u64 {
    rand::random::<u64>()
}

impl Sampler {
    /// A sampler starting from the given seed.
    pub fn new(seed: u64) -> (r: Sampler)
        ensures
            r.state == seed_fix(seed),
    {
        Sampler { state: seed.wrapping_mul(0x9e3779b97f4a7c15) | 1 }
    }

    /// A sampler seeded from process entropy; nothing is known of the seed
    /// beyond being usable.
    pub fn from_entropy() -> (r: Sampler)
        ensures
            r.state != 0,
    {
        let r = Self::new(entropy_seed());
        proof {
            let st = r.state;
            assert(st & 1 == 1 ==> st != 0) by (bit_vector);
            assert((st | 1) == st ==> st & 1 == 1) by (bit_vector);
            assert(forall|x: u64| (x | 1) & 1 == 1) by (bit_vector);
        }
        r
    }

    /// The next raw 64-bit draw.
    pub fn next_u64(&mut self) -> (r: u64)
        ensures
            final(self).state == step(old(self).state),
            r == step(old(self).state),
    {
        let s = self.state;
        let a = s ^ (s << 13u64);
        let b = a ^ (a >> 7u64);
        let c = b ^ (b << 17u64);
        self.state = c;
        c
    }

    /// A draw from the unit interval `[0, 1)`, on the mantissa grid.
    pub fn next_unit(&mut self) -> (r: Fx)
        ensures
            final(self).state == step(old(self).state),
            r@ == unit_of(step(old(self).state)),
            0 <= r@ < 65536,
    {
        let d = self.next_u64();
        let bits = (d >> 48u64) as i64;
        proof {
            assert(d >> 48u64 < 65536) by (bit_vector);
        }
        Fx { bits }
    }

    /// A draw from `[min, max)`.
    pub fn next_range(&mut self, min: Fx, max: Fx) -> (r: Fx)
        ensures
            final(self).state == step(old(self).state),
            r@ == range_of(step(old(self).state), min@, max@),
    {
        let u = self.next_unit();
        min.add(max.sub(min).mul(u))
    }
}

} // verus!
