//! Ray-sphere intersection by the classic quadratic test. A negative radius
//! yields an inverted surface normal, which glass shells rely on.

use vstd::prelude::*;
use crate::fx::Fx;
use crate::fx::SCALE;
use crate::fx::s_add;
use crate::fx::s_sub;
use crate::fx::s_mul;
use crate::fx::s_div;
use crate::fx::s_neg;
use crate::fx::s_sqrt;
use crate::fx::fx_add;
use crate::fx::fx_sub;
use crate::fx::fx_mul;
use crate::fx::fx_div;
use crate::fx::fx_neg;
use crate::fx::fx_sqrt;
use crate::fx::lemma_sqrt_floor_exists;
use crate::fx::lemma_sat_monotone;
use crate::fx::lemma_s_div_monotone_num;
use crate::hittable::HitRecord;
use crate::hittable::Hittable;
use crate::hittable::first_surrounding;
use crate::interval::Interval;
use crate::ray::Ray;
use crate::vector3::MatrixDot;
use crate::vector3::Point3;
use crate::vector3::Vector3;
use crate::vector3::sv_sub;
use crate::vector3::sv_neg;
use crate::vector3::sv_dot;
use crate::vector3::sv_norm_squared;
use crate::vector3::sv_div_scalar;
use crate::vector3::v3_wf;
use crate::vector3::lemma_sv_dot_neg_right;

verus! {

#[derive(Clone, Copy, PartialEq, Eq, Structural, Debug)]
pub struct Sphere {
    pub r: Fx,
    pub center: Point3,
    pub material_id: usize,
}

impl Sphere {
    /// The unit sphere at the origin, with the first registered material.
    pub fn new() -> (s: Sphere)
        ensures
            s.r == Fx::spec_one(),
            s.center == Vector3::spec_zero(),
            s.material_id == 0,
    {
        Sphere { r: Fx::one(), center: Vector3::zero(), material_id: 0 }
    }

    /// Quadratic coefficient `a = |d|^2`.
    pub open spec fn spec_a(&self, ray: Ray) -> Fx {
        sv_norm_squared(ray.direction)
    }

    /// Half-form linear coefficient `b = d . (o - c)`.
    pub open spec fn spec_b(&self, ray: Ray) -> Fx {
        sv_dot(ray.direction, sv_sub(ray.origin, self.center))
    }

    /// Constant coefficient `c = |o - c|^2 - r^2`.
    pub open spec fn spec_c(&self, ray: Ray) -> Fx {
        s_sub(sv_norm_squared(sv_sub(ray.origin, self.center)), s_mul(self.r, self.r))
    }

    /// Discriminant `b^2 - a * c`; negative means the ray misses entirely.
    pub open spec fn spec_discriminant(&self, ray: Ray) -> Fx {
        s_sub(
            s_mul(self.spec_b(ray), self.spec_b(ray)),
            s_mul(self.spec_a(ray), self.spec_c(ray)),
        )
    }

    /// Outward geometric normal `(point - center) / r` at parameter `t`; the
    /// sign of a negative radius is kept, so a hollow shell points inward.
    pub open spec fn spec_outward_normal(&self, ray: Ray, t: Fx) -> Vector3 {
        sv_div_scalar(sv_sub(ray.spec_at(t), self.center), self.r)
    }

    /// The two intersection parameters `(-b -/+ sqrt(disc)) / a`, in order.
    pub open spec fn spec_roots(&self, ray: Ray) -> (Fx, Fx) {
        let a = self.spec_a(ray);
        let b = self.spec_b(ray);
        let sq = s_sqrt(self.spec_discriminant(ray));
        (s_div(s_sub(s_neg(b), sq), a), s_div(s_add(s_neg(b), sq), a))
    }

    pub open spec fn spec_record_at(&self, ray: Ray, t: Fx) -> HitRecord {
        let point = ray.spec_at(t);
        let outward = self.spec_outward_normal(ray, t);
        let front_face = sv_dot(ray.direction, outward).bits < 0;
        HitRecord {
            point,
            norm: if front_face {
                outward
            } else {
                sv_neg(outward)
            },
            front_face,
            t,
            material_id: self.material_id,
        }
    }

    fn record_at(&self, ray: &Ray, t: Fx) -> (rec: HitRecord)
        ensures
            rec == self.spec_record_at(*ray, t),
            sv_dot(ray.direction, rec.norm).bits <= 0,
    {
        let point = ray.at(t);
        let outward = point.vsub(self.center).div_scalar(self.r);
        let d_dot = ray.direction.dot(&outward);
        let front_face = d_dot.bits < 0;
        let norm = if front_face {
            outward
        } else {
            proof {
                assert(v3_wf(outward));
                lemma_sv_dot_neg_right(ray.direction, outward);
            }
            outward.vneg()
        };
        HitRecord { point, norm, front_face, t, material_id: self.material_id }
    }
}

/// The sphere's intersection candidates: both roots when the discriminant is
/// nonnegative and the quadratic is nondegenerate, nothing otherwise. Kept
/// opaque so scene-level proofs do not unfold the quadratic formulas.
#[verifier::opaque]
pub open spec fn sphere_candidates(s: Sphere, ray: Ray) -> Seq<HitRecord> {
    if s.spec_discriminant(ray).bits < 0 || s.spec_a(ray).bits <= 0 {
        Seq::empty()
    } else {
        seq![
            s.spec_record_at(ray, s.spec_roots(ray).0),
            s.spec_record_at(ray, s.spec_roots(ray).1),
        ]
    }
}

impl Hittable for Sphere {
    open spec fn wf(&self) -> bool {
        true
    }

    open spec fn spec_candidates(&self, ray: Ray) -> Seq<HitRecord> {
        sphere_candidates(*self, ray)
    }

    open spec fn spec_hit(&self, ray: Ray, itv: Interval) -> Option<HitRecord> {
        first_surrounding(self.spec_candidates(ray), itv)
    }

    proof fn lemma_hit_form(&self, ray: Ray, itv: Interval) {
        reveal(sphere_candidates);
        let cands = self.spec_candidates(ray);
        if self.spec_discriminant(ray).bits < 0 || self.spec_a(ray).bits <= 0 {
            assert(cands.len() == 0);
        } else {
            let disc = self.spec_discriminant(ray);
            let sq = s_sqrt(disc);
            if disc.bits > 0 {
                lemma_sqrt_floor_exists(disc.bits * SCALE);
            }
            assert(sq.bits >= 0);
            let b = self.spec_b(ray);
            let n0 = s_sub(s_neg(b), sq);
            let n1 = s_add(s_neg(b), sq);
            lemma_sat_monotone(s_neg(b).bits - sq.bits, s_neg(b).bits + sq.bits);
            lemma_s_div_monotone_num(n0, n1, self.spec_a(ray));
            assert(cands[0].t == self.spec_roots(ray).0);
            assert(cands[1].t == self.spec_roots(ray).1);
            assert(cands[0].t.bits <= cands[1].t.bits);
        }
    }

    fn hit(&self, ray: &Ray, itv: Interval) -> (r: Option<HitRecord>) {
        proof {
            reveal(sphere_candidates);
            reveal_with_fuel(first_surrounding, 3);
        }
        let direction = ray.direction;
        let oc = ray.origin.vsub(self.center);
        let a = direction.norm_squared();
        let b = direction.dot(&oc);
        let c = fx_sub(oc.norm_squared(), fx_mul(self.r, self.r));
        let disc = fx_sub(fx_mul(b, b), fx_mul(a, c));

        if disc.bits < 0 || a.bits <= 0 {
            return None;
        }

        let sq = fx_sqrt(disc);
        let t0 = fx_div(fx_sub(fx_neg(b), sq), a);
        let t1 = fx_div(fx_add(fx_neg(b), sq), a);

        let ghost cands = self.spec_candidates(*ray);
        proof {
            reveal(sphere_candidates);
            reveal_with_fuel(first_surrounding, 3);
            assert(cands.len() == 2);
            assert(cands[0].t == t0);
            assert(cands[1].t == t1);
            assert(cands.drop_first() =~= seq![self.spec_record_at(*ray, t1)]);
            assert(cands.drop_first().drop_first() =~= Seq::<HitRecord>::empty());
        }

        if itv.surrounds(t0) {
            Some(self.record_at(ray, t0))
        } else if itv.surrounds(t1) {
            Some(self.record_at(ray, t1))
        } else {
            None
        }
    }
}

/// A zero discriminant (the tangent case) yields exactly one intersection
/// parameter: both roots coincide.
pub proof fn lemma_tangent_single_root(s: Sphere, ray: Ray)
    requires
        s.spec_discriminant(ray).bits == 0,
    ensures
        s.spec_roots(ray).0 == s.spec_roots(ray).1,
{
}

/// A negative discriminant misses: no interval produces a hit.
pub proof fn lemma_negative_discriminant_misses(s: Sphere, ray: Ray, itv: Interval)
    requires
        s.spec_discriminant(ray).bits < 0,
    ensures
        s.spec_hit(ray, itv) is None,
{
    reveal(sphere_candidates);
}

/// `front_face` records whether the outward geometric normal already opposed
/// the incoming ray.
pub proof fn lemma_sphere_front_face(s: Sphere, ray: Ray, itv: Interval)
    ensures
        s.spec_hit(ray, itv) matches Some(h) ==> h.front_face == (sv_dot(
            ray.direction,
            s.spec_outward_normal(ray, h.t),
        ).bits < 0),
{
    reveal(sphere_candidates);
    reveal_with_fuel(first_surrounding, 3);
    let cands = s.spec_candidates(ray);
    if s.spec_discriminant(ray).bits < 0 || s.spec_a(ray).bits <= 0 {
        assert(cands.len() == 0);
    } else {
        let t0 = s.spec_roots(ray).0;
        let t1 = s.spec_roots(ray).1;
        assert(cands[0] == s.spec_record_at(ray, t0));
        assert(cands[1] == s.spec_record_at(ray, t1));
        assert(cands.drop_first() =~= seq![s.spec_record_at(ray, t1)]);
        assert(cands.drop_first().drop_first() =~= Seq::<HitRecord>::empty());
    }
}

} // verus!
