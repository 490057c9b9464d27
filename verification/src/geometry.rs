//! Orthogonal axis bundles and local coordinate systems used by the camera
//! and by finite planes.

use vstd::prelude::*;
use crate::vector3::Point3;
use crate::vector3::Vector3;
use crate::vector3::v3_wf;

verus! {

#[derive(Clone, Copy, PartialEq, Eq, Structural, Debug)]
pub struct Axes3D {
    pub u: Vector3,
    pub v: Vector3,
    pub w: Vector3,
}

pub open spec fn axes3_wf(a: Axes3D) -> bool {
    v3_wf(a.u) && v3_wf(a.v) && v3_wf(a.w)
}

#[derive(Clone, Copy, PartialEq, Eq, Structural, Debug)]
pub struct Axes2D {
    pub u: Vector3,
    pub v: Vector3,
}

pub open spec fn axes2_wf(a: Axes2D) -> bool {
    v3_wf(a.u) && v3_wf(a.v)
}

#[derive(Clone, Copy, PartialEq, Eq, Structural, Debug)]
pub struct CoordinateSystem {
    pub axes: Axes3D,
    pub origin: Point3,
}

pub open spec fn coord_wf(c: CoordinateSystem) -> bool {
    axes3_wf(c.axes) && v3_wf(c.origin)
}

} // verus!
