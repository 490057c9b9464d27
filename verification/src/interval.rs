//! Closed numeric ranges with containment, exclusive-containment and clamp
//! queries, used to bound valid ray parameters and to clamp color channels.

use vstd::prelude::*;
use crate::fx::Fx;
use crate::fx::fx_wf;

verus! {

#[derive(Clone, Copy, PartialEq, Eq, Structural, Debug)]
pub struct Interval {
    pub min: Fx,
    pub max: Fx,
}

impl Interval {
    pub open spec fn spec_contains(self, x: Fx) -> bool {
        self.min.bits <= x.bits && x.bits <= self.max.bits
    }

    /// Strict containment: rejects intersections exactly at the domain boundary.
    pub open spec fn spec_surrounds(self, x: Fx) -> bool {
        self.min.bits < x.bits && x.bits < self.max.bits
    }

    pub open spec fn spec_clamp(self, v: Fx) -> Fx {
        if v.bits < self.min.bits {
            self.min
        } else if v.bits > self.max.bits {
            self.max
        } else {
            v
        }
    }

    pub fn contains(&self, x: Fx) -> (r: bool)
        ensures
            r == self.spec_contains(x),
    {
        self.min.bits <= x.bits && x.bits <= self.max.bits
    }

    pub fn surrounds(&self, x: Fx) -> (r: bool)
        ensures
            r == self.spec_surrounds(x),
    {
        self.min.bits < x.bits && x.bits < self.max.bits
    }

    pub fn clamp(&self, value: Fx) -> (r: Fx)
        ensures
            r == self.spec_clamp(value),
    {
        if value.bits < self.min.bits {
            return self.min;
        }
        if value.bits > self.max.bits {
            return self.max;
        }
        value
    }

    /// The interval containing nothing.
    pub fn empty() -> (r: Interval)
        ensures
            r.min == Fx::spec_infinity(),
            r.max == Fx::spec_neg_infinity(),
            forall|x: Fx| !r.spec_contains(x),
    {
        Interval { min: Fx::infinity(), max: Fx::neg_infinity() }
    }

    /// The interval containing every representable scalar.
    pub fn universe() -> (r: Interval)
        ensures
            r.min == Fx::spec_neg_infinity(),
            r.max == Fx::spec_infinity(),
            forall|x: Fx| fx_wf(x) ==> r.spec_contains(x),
    {
        Interval { min: Fx::neg_infinity(), max: Fx::infinity() }
    }
}

impl From<(Fx, Fx)> for Interval {
    fn from(value: (Fx, Fx)) -> (r: Self) {
        Interval { min: value.0, max: value.1 }
    }
}

impl vstd::std_specs::convert::FromSpecImpl<(Fx, Fx)> for Interval {
    open spec fn obeys_from_spec() -> bool {
        true
    }

    open spec fn from_spec(v: (Fx, Fx)) -> Interval {
        Interval { min: v.0, max: v.1 }
    }
}

/// Boundary semantics of a well-formed interval: the exclusive test rejects
/// both endpoints, the inclusive test accepts them, and clamping is idempotent
/// and the identity on values already inside the range.
pub proof fn lemma_interval_semantics(i: Interval, x: Fx)
    requires
        i.min.bits <= i.max.bits,
    ensures
        !i.spec_surrounds(i.min),
        !i.spec_surrounds(i.max),
        i.spec_contains(i.min),
        i.spec_contains(i.max),
        i.spec_clamp(i.spec_clamp(x)) == i.spec_clamp(x),
        i.spec_contains(x) ==> i.spec_clamp(x) == x,
{
}

} // verus!
