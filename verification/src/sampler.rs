//! Sources of random draws for Monte Carlo sampling. A `Sampler` either
//! forwards to the process random number generator or steps a seeded
//! xorshift generator, so that renders can be made reproducible.

use vstd::prelude::*;
use crate::fx::Fx;
use crate::fx::SCALE;
use crate::fx::s_add;
use crate::fx::s_sub;
use crate::fx::s_mul;
use crate::fx::fx_add;
use crate::fx::fx_sub;
use crate::fx::fx_mul;
use crate::vector3::Vector3;
use crate::vector3::sv_add_scalar;
use crate::vector3::sv_norm_squared;
use crate::vector3::sv_scale;
use crate::vector3::sv_to_unit;

verus! {

/// Relies on rand::random: draws a value of the requested type from the
/// thread-local generator. Nothing can be promised of a random value.
pub assume_specification<T>[ rand::random::<T> ]() -> (r: T)
    where
        rand::distributions::Standard: rand::distributions::Distribution<T>,
;

/// One step of the xorshift generator that seeded sampling uses.
pub open spec fn spec_xorshift(s: u64) -> u64 {
    let a = s ^ (s << 13);
    let b = a ^ (a >> 7);
    b ^ (b << 17)
}

/// The unit-range scalar a seeded sampler derives from its next state.
pub open spec fn spec_unit_of(s: u64) -> Fx {
    Fx { bits: (spec_xorshift(s) % (SCALE as u64)) as i64 }
}

/// A scalar drawn from the unit range `[0, 1)`.
pub open spec fn is_unit_draw(u: Fx) -> bool {
    0 <= u.bits < SCALE
}

/// A vector whose components were all drawn from the unit range.
pub open spec fn in_unit_cube(v: Vector3) -> bool {
    is_unit_draw(v.x) && is_unit_draw(v.y) && is_unit_draw(v.z)
}

#[derive(Clone, Copy, PartialEq, Eq, Structural, Debug)]
pub enum Sampler {
    /// Draws from the process random number generator.
    System,
    /// Deterministic draws from the stored xorshift state.
    Seeded(u64),
}

impl Sampler {
    pub fn system() -> (r: Sampler)
        ensures
            r is System,
    {
        Sampler::System
    }

    /// A zero state is a fixed point of the xorshift step (every draw would
    /// be zero forever), so a zero seed is replaced with a fixed nonzero one.
    pub fn seeded(seed: u64) -> (r: Sampler)
        ensures
            seed != 0 ==> r == Sampler::Seeded(seed),
            seed == 0 ==> r == Sampler::Seeded(0x9E3779B97F4A7C15),
    {
        if seed == 0 {
            Sampler::Seeded(0x9E3779B97F4A7C15)
        } else {
            Sampler::Seeded(seed)
        }
    }

    fn next_u64(&mut self) -> (r: u64)
        ensures
            *old(self) matches Sampler::Seeded(s) ==> r == spec_xorshift(s) && *final(self)
                == Sampler::Seeded(spec_xorshift(s)),
            *old(self) is System ==> *final(self) is System,
    {
        match self {
            Sampler::System => rand::random::<u64>(),
            Sampler::Seeded(s) => {
                let a: u64 = *s ^ (*s << 13u64);
                let b: u64 = a ^ (a >> 7u64);
                let c: u64 = b ^ (b << 17u64);
                *self = Sampler::Seeded(c);
                c
            },
        }
    }

    /// A draw in `[0, 1)`: a scalar with bit count below one whole unit.
    pub fn next_unit(&mut self) -> (r: Fx)
        ensures
            0 <= r.bits < SCALE,
            *old(self) matches Sampler::Seeded(s) ==> r == spec_unit_of(s) && *final(self)
                == Sampler::Seeded(spec_xorshift(s)),
            *old(self) is System ==> *final(self) is System,
    {
        let x = self.next_u64();
        Fx { bits: (x % (SCALE as u64)) as i64 }
    }

    /// A draw in `[min, max)`: `min + (max - min) * unit`.
    pub fn next_range(&mut self, min: Fx, max: Fx) -> (r: Fx)
        ensures
            exists|u: Fx| is_unit_draw(u) && r == s_add(min, s_mul(s_sub(max, min), u)),
            *old(self) matches Sampler::Seeded(s) ==> r == s_add(
                min,
                s_mul(s_sub(max, min), spec_unit_of(s)),
            ) && *final(self) == Sampler::Seeded(spec_xorshift(s)),
            *old(self) is System ==> *final(self) is System,
    {
        let u = self.next_unit();
        let r = fx_add(min, fx_mul(fx_sub(max, min), u));
        proof {
            assert(is_unit_draw(u) && r == s_add(min, s_mul(s_sub(max, min), u)));
        }
        r
    }
}

impl Vector3 {
    /// A vector with each component drawn uniformly from `[0, 1)`.
    pub fn random(sampler: &mut Sampler) -> (r: Vector3)
        ensures
            0 <= r.x.bits < SCALE,
            0 <= r.y.bits < SCALE,
            0 <= r.z.bits < SCALE,
    {
        let x = sampler.next_unit();
        let y = sampler.next_unit();
        let z = sampler.next_unit();
        Vector3 { x, y, z }
    }

    /// A vector with each component drawn uniformly from `[min, max)`:
    /// a unit draw scaled by the span and offset by `min`.
    pub fn random_range(sampler: &mut Sampler, min: Fx, max: Fx) -> (r: Vector3)
        ensures
            exists|v: Vector3|
                in_unit_cube(v) && r == sv_add_scalar(sv_scale(v, s_sub(max, min)), min),
    {
        let v = Vector3::random(sampler);
        let r = v.scale(fx_sub(max, min)).add_scalar(min);
        proof {
            assert(in_unit_cube(v) && r == sv_add_scalar(sv_scale(v, s_sub(max, min)), min));
        }
        r
    }

    /// A random direction: a draw from the cube `[-1, 1)^3`, normalized.
    pub fn random_unit_vector(sampler: &mut Sampler) -> (r: Vector3)
        ensures
            exists|v: Vector3| r == sv_to_unit(v),
    {
        let one = Fx { bits: SCALE };
        let neg_one = Fx { bits: -SCALE };
        let v = Vector3::random_range(sampler, neg_one, one);
        let r = v.to_unit();
        proof {
            assert(r == sv_to_unit(v));
        }
        r
    }

    /// A point in the unit disk of the `x`-`y` plane, found by rejection
    /// sampling; after a bounded number of misses the disk's center is
    /// returned, so the result always lies inside the disk.
    pub fn random_in_unit_disk(sampler: &mut Sampler) -> (r: Vector3)
        ensures
            sv_norm_squared(r).bits < SCALE,
            r.z.bits == 0,
    {
        let one = Fx { bits: SCALE };
        let neg_one = Fx { bits: -SCALE };
        let mut tries: u32 = 0;
        while tries < 64
            invariant
                tries <= 64,
            decreases 64 - tries,
        {
            let x = sampler.next_range(neg_one, one);
            let y = sampler.next_range(neg_one, one);
            let p = Vector3 { x, y, z: Fx { bits: 0 } };
            if p.norm_squared().bits < SCALE {
                return p;
            }
            tries = tries + 1;
        }
        let center = Vector3::zero();
        proof {
            assert(sv_norm_squared(center).bits == 0);
        }
        center
    }
}

} // verus!
