//! A triangle primitive: three corner points and a face normal.

use vstd::prelude::*;
use crate::fx::Fx;
use crate::vector3::Point3;
use crate::vector3::Vector3;
use crate::vector3::sv_add;
use crate::vector3::sv_div_scalar;

verus! {

#[derive(Clone, Copy, Debug)]
pub struct Triangle {
    pub points: [Point3; 3],
    pub normal: Vector3,
}

impl Triangle {
    /// The centroid: the mean of the three corners.
    pub fn gravity_center(&self) -> (r: Point3)
        ensures
            r == sv_div_scalar(
                sv_add(sv_add(self.points@[0], self.points@[1]), self.points@[2]),
                Fx::spec_from_int(3),
            ),
    {
        self.points[0].vadd(self.points[1]).vadd(self.points[2]).div_scalar(Fx::from_int(3))
    }
}

} // verus!
