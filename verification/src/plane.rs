//! Ray-plane intersection: a finite rectangle carrying a local coordinate
//! system, and an unbounded plane. A ray parallel to the plane is rejected by
//! an explicit early guard rather than by the arithmetic.

use vstd::prelude::*;
use crate::fx::Fx;
use crate::fx::s_div;
use crate::fx::fx_div;
use crate::geometry::CoordinateSystem;
use crate::hittable::HitRecord;
use crate::hittable::Hittable;
use crate::hittable::first_surrounding;
use crate::interval::Interval;
use crate::ray::Ray;
use crate::vector3::MatrixDot;
use crate::vector3::Point3;
use crate::vector3::Vector3;
use crate::vector3::sv_sub;
use crate::vector3::sv_neg;
use crate::vector3::sv_dot;
use crate::vector3::sv_scale;
use crate::vector3::v3_wf;
use crate::vector3::lemma_sv_dot_neg_right;

verus! {

/// A finite rectangular plane: local coordinate system whose `v` axis is the
/// normal, with extents `width` along `u` and `height` along `w`.
#[derive(Clone, Copy, PartialEq, Eq, Structural, Debug)]
pub struct Plane {
    pub coordinate: CoordinateSystem,
    pub material_id: usize,
    pub width: Fx,
    pub height: Fx,
}

impl Plane {
    /// Lower-left corner of the rectangle.
    pub open spec fn spec_plane00_loc(&self) -> Point3 {
        sv_sub(
            sv_sub(
                self.coordinate.origin,
                sv_scale(self.coordinate.axes.u, s_div(self.width, Fx::spec_from_int(2))),
            ),
            sv_scale(self.coordinate.axes.w, s_div(self.height, Fx::spec_from_int(2))),
        )
    }

    fn get_plane00_loc(&self) -> (r: Point3)
        ensures
            r == self.spec_plane00_loc(),
    {
        let two = Fx::from_int(2);
        self.coordinate.origin
            .vsub(self.coordinate.axes.u.scale(fx_div(self.width, two)))
            .vsub(self.coordinate.axes.w.scale(fx_div(self.height, two)))
    }

    /// Whether a point lies within the rectangle's extent: its offsets from
    /// the lower-left corner, measured along the rectangle's own `u` and `w`
    /// axes, fall inside `[0, width]` and `[0, height]`.
    pub open spec fn spec_inside_area(&self, point: Point3) -> bool {
        let d = sv_sub(point, self.spec_plane00_loc());
        let du = sv_dot(d, self.coordinate.axes.u);
        let dw = sv_dot(d, self.coordinate.axes.w);
        0 <= du.bits && du.bits <= self.width.bits && 0 <= dw.bits && dw.bits
            <= self.height.bits
    }

    fn inside_area(&self, point: Point3) -> (r: bool)
        ensures
            r == self.spec_inside_area(point),
    {
        let d = point.vsub(self.get_plane00_loc());
        let du = d.dot(&self.coordinate.axes.u);
        let dw = d.dot(&self.coordinate.axes.w);
        0 <= du.bits && du.bits <= self.width.bits && 0 <= dw.bits && dw.bits
            <= self.height.bits
    }

    /// Intersection parameter `t = (origin - ray.origin) . normal / (d . normal)`.
    pub open spec fn spec_t(&self, ray: Ray) -> Fx {
        s_div(
            sv_dot(sv_sub(self.coordinate.origin, ray.origin), self.coordinate.axes.v),
            sv_dot(ray.direction, self.coordinate.axes.v),
        )
    }

    pub open spec fn spec_record_at(&self, ray: Ray, t: Fx) -> HitRecord {
        let normal = self.coordinate.axes.v;
        let front_face = sv_dot(ray.direction, normal).bits < 0;
        HitRecord {
            point: ray.spec_at(t),
            norm: if front_face {
                normal
            } else {
                sv_neg(normal)
            },
            front_face,
            t,
            material_id: self.material_id,
        }
    }
}

/// The rectangle's single intersection candidate, present when the ray is
/// not parallel and the intersection point lies inside the extent. Kept
/// opaque so scene-level proofs do not unfold the plane formulas.
#[verifier::opaque]
pub open spec fn plane_candidates(p: Plane, ray: Ray) -> Seq<HitRecord> {
    if sv_dot(ray.direction, p.coordinate.axes.v).bits == 0 {
        Seq::empty()
    } else {
        let t = p.spec_t(ray);
        if !p.spec_inside_area(ray.spec_at(t)) {
            Seq::empty()
        } else {
            seq![p.spec_record_at(ray, t)]
        }
    }
}

impl Hittable for Plane {
    open spec fn wf(&self) -> bool {
        v3_wf(self.coordinate.axes.v)
    }

    open spec fn spec_candidates(&self, ray: Ray) -> Seq<HitRecord> {
        plane_candidates(*self, ray)
    }

    open spec fn spec_hit(&self, ray: Ray, itv: Interval) -> Option<HitRecord> {
        first_surrounding(self.spec_candidates(ray), itv)
    }

    proof fn lemma_hit_form(&self, ray: Ray, itv: Interval) {
        reveal(plane_candidates);
    }

    fn hit(&self, ray: &Ray, itv: Interval) -> (r: Option<HitRecord>) {
        proof {
            reveal(plane_candidates);
            reveal_with_fuel(first_surrounding, 2);
        }
        let normal = self.coordinate.axes.v;
        let ray_dot_face = ray.direction.dot(&normal);
        if ray_dot_face.bits == 0 {
            // parallel ray: no intersection
            return None;
        }
        let t = fx_div(self.coordinate.origin.vsub(ray.origin).dot(&normal), ray_dot_face);
        let point = ray.at(t);

        proof {
            reveal(plane_candidates);
            reveal_with_fuel(first_surrounding, 2);
        }
        if !self.inside_area(point) || !itv.surrounds(t) {
            None
        } else {
            let front_face = ray_dot_face.bits < 0;
            let norm = if front_face {
                normal
            } else {
                proof {
                    lemma_sv_dot_neg_right(ray.direction, normal);
                }
                normal.vneg()
            };
            Some(HitRecord { point, norm, front_face, t, material_id: self.material_id })
        }
    }
}

/// An unbounded plane: an origin point and a normal vector.
#[derive(Clone, Copy, PartialEq, Eq, Structural, Debug)]
pub struct InfinitePlane {
    pub origin: Point3,
    pub normal: Vector3,
    pub material_id: usize,
}

impl InfinitePlane {
    pub open spec fn spec_t(&self, ray: Ray) -> Fx {
        s_div(
            sv_dot(sv_sub(self.origin, ray.origin), self.normal),
            sv_dot(ray.direction, self.normal),
        )
    }

    pub open spec fn spec_record_at(&self, ray: Ray, t: Fx) -> HitRecord {
        let front_face = sv_dot(ray.direction, self.normal).bits < 0;
        HitRecord {
            point: ray.spec_at(t),
            norm: if front_face {
                self.normal
            } else {
                sv_neg(self.normal)
            },
            front_face,
            t,
            material_id: self.material_id,
        }
    }
}

/// The unbounded plane's single intersection candidate, present when the ray
/// is not parallel. Kept opaque for the same reason as the rectangle's.
#[verifier::opaque]
pub open spec fn infinite_plane_candidates(p: InfinitePlane, ray: Ray) -> Seq<HitRecord> {
    if sv_dot(ray.direction, p.normal).bits == 0 {
        Seq::empty()
    } else {
        seq![p.spec_record_at(ray, p.spec_t(ray))]
    }
}

impl Hittable for InfinitePlane {
    open spec fn wf(&self) -> bool {
        v3_wf(self.normal)
    }

    open spec fn spec_candidates(&self, ray: Ray) -> Seq<HitRecord> {
        infinite_plane_candidates(*self, ray)
    }

    open spec fn spec_hit(&self, ray: Ray, itv: Interval) -> Option<HitRecord> {
        first_surrounding(self.spec_candidates(ray), itv)
    }

    proof fn lemma_hit_form(&self, ray: Ray, itv: Interval) {
        reveal(infinite_plane_candidates);
    }

    fn hit(&self, ray: &Ray, itv: Interval) -> (r: Option<HitRecord>) {
        proof {
            reveal(infinite_plane_candidates);
            reveal_with_fuel(first_surrounding, 2);
        }
        let ray_dot_face = ray.direction.dot(&self.normal);
        if ray_dot_face.bits == 0 {
            // parallel ray: no intersection
            return None;
        }
        let t = fx_div(self.origin.vsub(ray.origin).dot(&self.normal), ray_dot_face);

        proof {
            reveal(infinite_plane_candidates);
            reveal_with_fuel(first_surrounding, 2);
        }
        if !itv.surrounds(t) {
            return None;
        }

        let point = ray.direction.scale(t).vadd(ray.origin);
        proof {
            assert(point == ray.spec_at(t));
        }
        let front_face = ray_dot_face.bits < 0;
        let norm = if front_face {
            self.normal
        } else {
            proof {
                lemma_sv_dot_neg_right(ray.direction, self.normal);
            }
            self.normal.vneg()
        };
        Some(HitRecord { point, norm, front_face, t, material_id: self.material_id })
    }
}

/// `front_face` records whether the plane's stored normal already opposed the
/// incoming ray.
pub proof fn lemma_plane_front_face(p: Plane, ray: Ray, itv: Interval)
    ensures
        p.spec_hit(ray, itv) matches Some(h) ==> h.front_face == (sv_dot(
            ray.direction,
            p.coordinate.axes.v,
        ).bits < 0),
{
    reveal(plane_candidates);
    reveal_with_fuel(first_surrounding, 2);
}

pub proof fn lemma_infinite_plane_front_face(p: InfinitePlane, ray: Ray, itv: Interval)
    ensures
        p.spec_hit(ray, itv) matches Some(h) ==> h.front_face == (sv_dot(
            ray.direction,
            p.normal,
        ).bits < 0),
{
    reveal(infinite_plane_candidates);
    reveal_with_fuel(first_surrounding, 2);
}

} // verus!
