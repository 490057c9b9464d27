//! 3D vectors over the fixed-point scalar, with componentwise arithmetic,
//! dot and cross products, norms and normalization.

use vstd::prelude::*;
use crate::fx::Fx;
use crate::fx::fx_wf;
use crate::fx::s_add;
use crate::fx::s_sub;
use crate::fx::s_mul;
use crate::fx::s_div;
use crate::fx::s_neg;
use crate::fx::s_abs;
use crate::fx::s_sqrt;
use crate::fx::fx_add;
use crate::fx::fx_sub;
use crate::fx::fx_mul;
use crate::fx::fx_div;
use crate::fx::fx_neg;
use crate::fx::fx_abs;
use crate::fx::fx_sqrt;

verus! {

#[derive(Clone, Copy, PartialEq, Eq, Structural, Debug)]
pub struct Vector3 {
    pub x: Fx,
    pub y: Fx,
    pub z: Fx,
}

pub type Point3 = Vector3;

pub open spec fn v3_wf(v: Vector3) -> bool {
    fx_wf(v.x) && fx_wf(v.y) && fx_wf(v.z)
}

pub open spec fn sv_add(a: Vector3, b: Vector3) -> Vector3 {
    Vector3 { x: s_add(a.x, b.x), y: s_add(a.y, b.y), z: s_add(a.z, b.z) }
}

pub open spec fn sv_sub(a: Vector3, b: Vector3) -> Vector3 {
    Vector3 { x: s_sub(a.x, b.x), y: s_sub(a.y, b.y), z: s_sub(a.z, b.z) }
}

pub open spec fn sv_mul(a: Vector3, b: Vector3) -> Vector3 {
    Vector3 { x: s_mul(a.x, b.x), y: s_mul(a.y, b.y), z: s_mul(a.z, b.z) }
}

pub open spec fn sv_neg(a: Vector3) -> Vector3 {
    Vector3 { x: s_neg(a.x), y: s_neg(a.y), z: s_neg(a.z) }
}

pub open spec fn sv_scale(a: Vector3, k: Fx) -> Vector3 {
    Vector3 { x: s_mul(a.x, k), y: s_mul(a.y, k), z: s_mul(a.z, k) }
}

pub open spec fn sv_div_scalar(a: Vector3, k: Fx) -> Vector3 {
    Vector3 { x: s_div(a.x, k), y: s_div(a.y, k), z: s_div(a.z, k) }
}

pub open spec fn sv_add_scalar(a: Vector3, k: Fx) -> Vector3 {
    Vector3 { x: s_add(a.x, k), y: s_add(a.y, k), z: s_add(a.z, k) }
}

pub open spec fn sv_dot(a: Vector3, b: Vector3) -> Fx {
    s_add(s_add(s_mul(a.x, b.x), s_mul(a.y, b.y)), s_mul(a.z, b.z))
}

pub open spec fn sv_cross(a: Vector3, b: Vector3) -> Vector3 {
    Vector3 {
        x: s_sub(s_mul(a.y, b.z), s_mul(a.z, b.y)),
        y: s_sub(s_mul(a.z, b.x), s_mul(a.x, b.z)),
        z: s_sub(s_mul(a.x, b.y), s_mul(a.y, b.x)),
    }
}

pub open spec fn sv_norm_squared(a: Vector3) -> Fx {
    sv_dot(a, a)
}

pub open spec fn sv_norm(a: Vector3) -> Fx {
    s_sqrt(sv_norm_squared(a))
}

pub open spec fn sv_to_unit(a: Vector3) -> Vector3 {
    sv_div_scalar(a, sv_norm(a))
}

pub open spec fn sv_sqrt(a: Vector3) -> Vector3 {
    Vector3 { x: s_sqrt(a.x), y: s_sqrt(a.y), z: s_sqrt(a.z) }
}

/// Componentwise magnitudes all below one fixed-point unit; with this
/// resolution that is exact cancellation to the zero vector.
pub open spec fn spec_near_zero(v: Vector3) -> bool {
    s_abs(v.x).bits < 1 && s_abs(v.y).bits < 1 && s_abs(v.z).bits < 1
}

/// Return true if the vector is close to zero in all dimensions.
pub fn near_zero(vec: &Vector3) -> (r: bool)
    ensures
        r == spec_near_zero(*vec),
        r == (vec.x.bits == 0 && vec.y.bits == 0 && vec.z.bits == 0),
{
    let ax = fx_abs(vec.x);
    let ay = fx_abs(vec.y);
    let az = fx_abs(vec.z);
    ax.bits < 1 && ay.bits < 1 && az.bits < 1
}

impl Vector3 {
    pub fn new(x: Fx, y: Fx, z: Fx) -> (r: Vector3)
        ensures
            r == (Vector3 { x, y, z }),
    {
        Vector3 { x, y, z }
    }

    pub open spec fn spec_zero() -> Vector3 {
        Vector3 { x: Fx { bits: 0 }, y: Fx { bits: 0 }, z: Fx { bits: 0 } }
    }

    pub fn zero() -> (r: Vector3)
        ensures
            r == Vector3::spec_zero(),
    {
        Vector3 { x: Fx { bits: 0 }, y: Fx { bits: 0 }, z: Fx { bits: 0 } }
    }

    pub fn vadd(self, rhs: Vector3) -> (r: Vector3)
        ensures
            r == sv_add(self, rhs),
    {
        Vector3 { x: fx_add(self.x, rhs.x), y: fx_add(self.y, rhs.y), z: fx_add(self.z, rhs.z) }
    }

    pub fn vsub(self, rhs: Vector3) -> (r: Vector3)
        ensures
            r == sv_sub(self, rhs),
    {
        Vector3 { x: fx_sub(self.x, rhs.x), y: fx_sub(self.y, rhs.y), z: fx_sub(self.z, rhs.z) }
    }

    pub fn vmul(self, rhs: Vector3) -> (r: Vector3)
        ensures
            r == sv_mul(self, rhs),
    {
        Vector3 { x: fx_mul(self.x, rhs.x), y: fx_mul(self.y, rhs.y), z: fx_mul(self.z, rhs.z) }
    }

    pub fn vneg(self) -> (r: Vector3)
        ensures
            r == sv_neg(self),
    {
        Vector3 { x: fx_neg(self.x), y: fx_neg(self.y), z: fx_neg(self.z) }
    }

    pub fn scale(self, k: Fx) -> (r: Vector3)
        ensures
            r == sv_scale(self, k),
    {
        Vector3 { x: fx_mul(self.x, k), y: fx_mul(self.y, k), z: fx_mul(self.z, k) }
    }

    pub fn add_scalar(self, k: Fx) -> (r: Vector3)
        ensures
            r == sv_add_scalar(self, k),
    {
        Vector3 { x: fx_add(self.x, k), y: fx_add(self.y, k), z: fx_add(self.z, k) }
    }

    pub fn div_scalar(self, k: Fx) -> (r: Vector3)
        ensures
            r == sv_div_scalar(self, k),
    {
        Vector3 { x: fx_div(self.x, k), y: fx_div(self.y, k), z: fx_div(self.z, k) }
    }

    pub fn norm_squared(self) -> (r: Fx)
        ensures
            r == sv_norm_squared(self),
    {
        self.dot(&self)
    }

    pub fn norm(self) -> (r: Fx)
        ensures
            r == sv_norm(self),
    {
        fx_sqrt(self.norm_squared())
    }

    pub fn to_unit(self) -> (r: Vector3)
        ensures
            r == sv_to_unit(self),
    {
        let n = self.norm();
        self.div_scalar(n)
    }

    pub fn sqrt(self) -> (r: Vector3)
        ensures
            r == sv_sqrt(self),
    {
        Vector3 { x: fx_sqrt(self.x), y: fx_sqrt(self.y), z: fx_sqrt(self.z) }
    }
}

/// Negating the second (in-range) factor negates the dot product.
pub proof fn lemma_sv_dot_neg_right(d: Vector3, n: Vector3)
    requires
        v3_wf(n),
    ensures
        sv_dot(d, sv_neg(n)) == s_neg(sv_dot(d, n)),
{
    crate::fx::lemma_s_mul_neg_right(d.x, n.x);
    crate::fx::lemma_s_mul_neg_right(d.y, n.y);
    crate::fx::lemma_s_mul_neg_right(d.z, n.z);
    let mx = s_mul(d.x, n.x);
    let my = s_mul(d.y, n.y);
    let mz = s_mul(d.z, n.z);
    crate::fx::lemma_s_add_neg(mx, my);
    crate::fx::lemma_s_add_neg(s_add(mx, my), mz);
}

// Dot operation
pub trait MatrixDot<Rhs, Output> {
    spec fn dot_spec(&self, rhs: &Rhs) -> Output;

    fn dot(&self, rhs: &Rhs) -> (r: Output)
        ensures
            r == self.dot_spec(rhs),
    ;
}

impl MatrixDot<Vector3, Fx> for Vector3 {
    open spec fn dot_spec(&self, rhs: &Vector3) -> Fx {
        sv_dot(*self, *rhs)
    }

    fn dot(&self, rhs: &Vector3) -> (r: Fx)
        ensures
            r == sv_dot(*self, *rhs),
    {
        let r = fx_add(fx_add(fx_mul(self.x, rhs.x), fx_mul(self.y, rhs.y)), fx_mul(self.z, rhs.z));
        proof {
            assert(r == sv_dot(*self, *rhs));
            assert(self.dot_spec(rhs) == sv_dot(*self, *rhs));
        }
        r
    }
}

// Cross operation
pub trait MatrixCross<Rhs, Output> {
    spec fn cross_spec(&self, rhs: &Rhs) -> Output;

    fn cross(&self, rhs: &Rhs) -> (r: Output)
        ensures
            r == self.cross_spec(rhs),
    ;
}

impl MatrixCross<Vector3, Vector3> for Vector3 {
    open spec fn cross_spec(&self, rhs: &Vector3) -> Vector3 {
        sv_cross(*self, *rhs)
    }

    fn cross(&self, rhs: &Vector3) -> (r: Vector3)
        ensures
            r == sv_cross(*self, *rhs),
    {
        Vector3 {
            x: fx_sub(fx_mul(self.y, rhs.z), fx_mul(self.z, rhs.y)),
            y: fx_sub(fx_mul(self.z, rhs.x), fx_mul(self.x, rhs.z)),
            z: fx_sub(fx_mul(self.x, rhs.y), fx_mul(self.y, rhs.x)),
        }
    }
}

} // verus!
