//! Rays: an origin point plus a direction vector, with parametrized point
//! evaluation `at(t) = origin + direction * t`.

use vstd::prelude::*;
use crate::fx::Fx;
use crate::fx::SCALE;
use crate::vector3::Point3;
use crate::vector3::Vector3;
use crate::vector3::v3_wf;
use crate::vector3::sv_add;
use crate::vector3::sv_scale;

verus! {

#[derive(Clone, Copy, PartialEq, Eq, Structural, Debug)]
pub struct Ray {
    pub origin: Point3,
    pub direction: Vector3,
}

pub open spec fn ray_wf(r: Ray) -> bool {
    v3_wf(r.origin) && v3_wf(r.direction)
}

impl Ray {
    /// The default ray: unit direction along the first axis from the origin.
    pub fn new() -> (r: Ray)
        ensures
            r.origin == Vector3::spec_zero(),
            r.direction == (Vector3 { x: Fx { bits: SCALE }, y: Fx { bits: 0 }, z: Fx { bits: 0 } }),
    {
        Ray {
            origin: Vector3::zero(),
            direction: Vector3 { x: Fx { bits: SCALE }, y: Fx { bits: 0 }, z: Fx { bits: 0 } },
        }
    }

    pub open spec fn spec_at(self, t: Fx) -> Vector3 {
        sv_add(self.origin, sv_scale(self.direction, t))
    }

    pub fn at(self, t: Fx) -> (r: Vector3)
        ensures
            r == self.spec_at(t),
    {
        self.origin.vadd(self.direction.scale(t))
    }
}

impl From<(Point3, Vector3)> for Ray {
    fn from(value: (Point3, Vector3)) -> (r: Self) {
        Ray { origin: value.0, direction: value.1 }
    }
}

impl vstd::std_specs::convert::FromSpecImpl<(Point3, Vector3)> for Ray {
    open spec fn obeys_from_spec() -> bool {
        true
    }

    open spec fn from_spec(v: (Point3, Vector3)) -> Ray {
        Ray { origin: v.0, direction: v.1 }
    }
}

} // verus!
