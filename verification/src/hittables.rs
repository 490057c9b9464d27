//! The scene aggregate: a registry of geometric primitives scanned in one
//! pass, shrinking the query interval to the closest hit found so far so the
//! final record is the globally nearest intersection.

use vstd::prelude::*;
use crate::fx::Fx;
use crate::hittable::HitRecord;
use crate::hittable::Hittable;
use crate::hittable::first_surrounding;
use crate::hittable::lemma_first_surrounding_surrounds;
use crate::hittable::lemma_first_surrounding_shrink;
use crate::hittable::lemma_first_surrounding_min;
use crate::interval::Interval;
use crate::plane::InfinitePlane;
use crate::plane::Plane;
use crate::plane::plane_candidates;
use crate::plane::infinite_plane_candidates;
use crate::ray::Ray;
use crate::sphere::Sphere;
use crate::sphere::sphere_candidates;
use crate::vector3::sv_dot;

verus! {

/// A geometric primitive of the scene; the closed set of shapes the tracer
/// knows how to intersect.
#[derive(Clone, Copy, PartialEq, Eq, Structural, Debug)]
pub enum Object {
    Sphere(Sphere),
    Plane(Plane),
    InfinitePlane(InfinitePlane),
}

impl Hittable for Object {
    open spec fn wf(&self) -> bool {
        match *self {
            Object::Sphere(s) => s.wf(),
            Object::Plane(p) => p.wf(),
            Object::InfinitePlane(p) => p.wf(),
        }
    }

    open spec fn spec_candidates(&self, ray: Ray) -> Seq<HitRecord> {
        match *self {
            Object::Sphere(s) => s.spec_candidates(ray),
            Object::Plane(p) => p.spec_candidates(ray),
            Object::InfinitePlane(p) => p.spec_candidates(ray),
        }
    }

    open spec fn spec_hit(&self, ray: Ray, itv: Interval) -> Option<HitRecord> {
        first_surrounding(self.spec_candidates(ray), itv)
    }

    proof fn lemma_hit_form(&self, ray: Ray, itv: Interval) {
        match *self {
            Object::Sphere(s) => s.lemma_hit_form(ray, itv),
            Object::Plane(p) => p.lemma_hit_form(ray, itv),
            Object::InfinitePlane(p) => p.lemma_hit_form(ray, itv),
        }
    }

    fn hit(&self, ray: &Ray, itv: Interval) -> (r: Option<HitRecord>) {
        match self {
            Object::Sphere(s) => s.hit(ray, itv),
            Object::Plane(p) => p.hit(ray, itv),
            Object::InfinitePlane(p) => p.hit(ray, itv),
        }
    }
}

/// The material handle a primitive's hit records carry.
pub open spec fn obj_material_id(o: Object) -> usize {
    match o {
        Object::Sphere(s) => s.material_id,
        Object::Plane(p) => p.material_id,
        Object::InfinitePlane(p) => p.material_id,
    }
}

/// Whatever record an object answers carries that object's material handle.
pub proof fn lemma_object_hit_material(o: Object, ray: Ray, itv: Interval)
    requires
        o.wf(),
    ensures
        o.spec_hit(ray, itv) matches Some(h) ==> h.material_id == obj_material_id(o),
{
    o.lemma_hit_form(ray, itv);
    let cands = o.spec_candidates(ray);
    assert forall|j: int| 0 <= j < cands.len() implies cands[j].material_id == obj_material_id(
        o,
    ) by {
        reveal(sphere_candidates);
        reveal(plane_candidates);
        reveal(infinite_plane_candidates);
    }
    lemma_first_surrounding_min(cands, itv);
    match o.spec_hit(ray, itv) {
        Some(h) => {
            let j = choose|j: int| 0 <= j < cands.len() && cands[j] == h;
            assert(cands[j].material_id == obj_material_id(o));
        },
        None => {},
    }
}

/// A record the scene scan returns carries a handle below any bound that
/// every member's handle respects.
pub proof fn lemma_scene_hit_material_bound(objs: Seq<Object>, ray: Ray, itv: Interval, bound: int)
    requires
        forall|i: int| 0 <= i < objs.len() ==> objs[i].wf(),
        forall|i: int| 0 <= i < objs.len() ==> obj_material_id(objs[i]) < bound,
    ensures
        spec_scene_hit(objs, ray, itv) matches Some(h) ==> h.material_id < bound,
{
    lemma_scene_hit_nearest(objs, ray, itv);
    match spec_scene_hit(objs, ray, itv) {
        Some(h) => {
            let i = choose|i: int|
                0 <= i < objs.len() && objs[i].spec_hit(ray, itv) == Some(h);
            lemma_object_hit_material(objs[i], ray, itv);
        },
        None => {},
    }
}

/// The upper bound the scan queries with: the closest parameter found so far,
/// or the original bound while nothing was found.
pub open spec fn spec_cur_max(cur: Option<HitRecord>, itv: Interval) -> Fx {
    match cur {
        Some(h) => h.t,
        None => itv.max,
    }
}

/// What the scan computes: fold over the members, each queried against the
/// interval shrunk to the best parameter so far.
pub open spec fn spec_scene_hit(objs: Seq<Object>, ray: Ray, itv: Interval) -> Option<HitRecord>
    decreases objs.len(),
{
    if objs.len() == 0 {
        None
    } else {
        let prev = spec_scene_hit(objs.drop_last(), ray, itv);
        let shrunk = Interval { min: itv.min, max: spec_cur_max(prev, itv) };
        match objs.last().spec_hit(ray, shrunk) {
            Some(h) => Some(h),
            None => prev,
        }
    }
}

pub struct Hittables {
    pub objects: Vec<Object>,
}

impl Hittables {
    pub open spec fn wf(&self) -> bool {
        forall|i: int| 0 <= i < self.objects@.len() ==> self.objects@[i].wf()
    }

    pub fn new() -> (r: Hittables)
        ensures
            r.objects@ =~= Seq::<Object>::empty(),
            r.wf(),
    {
        Hittables { objects: Vec::new() }
    }

    pub fn insert(&mut self, object: Object)
        ensures
            final(self).objects@ == old(self).objects@.push(object),
            old(self).wf() && object.wf() ==> final(self).wf(),
    {
        self.objects.push(object);
    }

    /// Scan every member, shrinking the query interval to each hit found, so
    /// that the returned record is the nearest intersection along the ray.
    pub fn hit(&self, ray: &Ray, interval: Interval) -> (r: Option<HitRecord>)
        requires
            self.wf(),
        ensures
            r == spec_scene_hit(self.objects@, *ray, interval),
            r matches Some(h) ==> sv_dot(ray.direction, h.norm).bits <= 0,
    {
        let mut current_interval = Interval { min: interval.min, max: interval.max };
        let mut current_record: Option<HitRecord> = None;
        let n = self.objects.len();
        let mut i: usize = 0;
        while i < n
            invariant
                i <= n,
                n == self.objects@.len(),
                self.wf(),
                current_record == spec_scene_hit(self.objects@.take(i as int), *ray, interval),
                current_interval == (Interval {
                    min: interval.min,
                    max: spec_cur_max(current_record, interval),
                }),
                current_record matches Some(h) ==> sv_dot(ray.direction, h.norm).bits <= 0,
            decreases n - i,
        {
            let object = &self.objects[i];
            let answer = object.hit(ray, current_interval);
            proof {
                assert(self.objects@.take(i as int + 1).drop_last() =~= self.objects@.take(
                    i as int,
                ));
                assert(self.objects@.take(i as int + 1).last() == self.objects@[i as int]);
            }
            match answer {
                Some(record) => {
                    current_interval.max = record.t;
                    current_record = Some(record);
                },
                None => {},
            }
            i = i + 1;
        }
        proof {
            assert(self.objects@.take(n as int) =~= self.objects@);
        }
        current_record
    }
}

/// The nearest-hit property of the scan: a returned record is exactly what
/// one member answers for the whole query interval, and its parameter is the
/// least among every member's answer; no record means no member hits.
#[verifier::rlimit(100)]
#[verifier::spinoff_prover]
pub proof fn lemma_scene_hit_nearest(objs: Seq<Object>, ray: Ray, itv: Interval)
    requires
        forall|i: int| 0 <= i < objs.len() ==> objs[i].wf(),
    ensures
        match spec_scene_hit(objs, ray, itv) {
            Some(h) => {
                &&& itv.spec_surrounds(h.t)
                &&& exists|i: int| 0 <= i < objs.len() && objs[i].spec_hit(ray, itv) == Some(h)
                &&& forall|i: int|
                    0 <= i < objs.len() && objs[i].spec_hit(ray, itv) is Some ==> h.t.bits
                        <= objs[i].spec_hit(ray, itv).unwrap().t.bits
            },
            None => forall|i: int| 0 <= i < objs.len() ==> objs[i].spec_hit(ray, itv) is None,
        },
    decreases objs.len(),
{
    if objs.len() == 0 {
    } else {
        let init = objs.drop_last();
        let obj = objs.last();
        let last_idx = objs.len() - 1;
        assert(forall|i: int| 0 <= i < init.len() ==> init[i] == objs[i]);
        lemma_scene_hit_nearest(init, ray, itv);
        let prev = spec_scene_hit(init, ray, itv);
        let shrunk = Interval { min: itv.min, max: spec_cur_max(prev, itv) };
        obj.lemma_hit_form(ray, itv);
        obj.lemma_hit_form(ray, shrunk);
        let cands = obj.spec_candidates(ray);
        match prev {
            None => {
                assert(shrunk == itv);
                match obj.spec_hit(ray, itv) {
                    Some(h) => {
                        lemma_first_surrounding_surrounds(cands, itv);
                        assert(spec_scene_hit(objs, ray, itv) == Some(h));
                        assert(objs[last_idx].spec_hit(ray, itv) == Some(h));
                    },
                    None => {
                        assert(spec_scene_hit(objs, ray, itv) is None);
                    },
                }
            },
            Some(hp) => {
                assert(itv.spec_surrounds(hp.t));
                lemma_first_surrounding_shrink(cands, itv, hp.t);
                match obj.spec_hit(ray, shrunk) {
                    Some(h) => {
                        lemma_first_surrounding_surrounds(cands, shrunk);
                        assert(obj.spec_hit(ray, itv) == Some(h));
                        assert(h.t.bits < hp.t.bits);
                        assert(spec_scene_hit(objs, ray, itv) == Some(h));
                        assert(objs[last_idx].spec_hit(ray, itv) == Some(h));
                        assert forall|i: int|
                            0 <= i < objs.len() && objs[i].spec_hit(ray, itv) is Some implies h.t.bits
                            <= objs[i].spec_hit(ray, itv).unwrap().t.bits by {
                            if i < last_idx {
                                assert(init[i] == objs[i]);
                                assert(hp.t.bits <= init[i].spec_hit(ray, itv).unwrap().t.bits);
                            }
                        }
                    },
                    None => {
                        assert(spec_scene_hit(objs, ray, itv) == Some(hp));
                        let w = choose|i: int|
                            0 <= i < init.len() && init[i].spec_hit(ray, itv) == Some(hp);
                        assert(objs[w].spec_hit(ray, itv) == Some(hp));
                        assert forall|i: int|
                            0 <= i < objs.len() && objs[i].spec_hit(ray, itv) is Some implies hp.t.bits
                            <= objs[i].spec_hit(ray, itv).unwrap().t.bits by {
                            if i < last_idx {
                                assert(init[i] == objs[i]);
                            } else {
                                assert(objs[i] == obj);
                            }
                        }
                    },
                }
            },
        }
    }
}

} // verus!
