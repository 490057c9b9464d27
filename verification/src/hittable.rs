//! The intersection protocol: hit records, the `Hittable` capability, and the
//! shared notion of "first intersection parameter strictly inside an interval"
//! that every primitive's contract is stated against.

use vstd::prelude::*;
use crate::fx::Fx;
use crate::interval::Interval;
use crate::ray::Ray;
use crate::vector3::Point3;
use crate::vector3::Vector3;
use crate::vector3::sv_dot;

verus! {

/// Result of a successful ray-surface intersection query. The normal is
/// always oriented against the incoming ray; `front_face` records whether the
/// geometric outward normal already was.
#[derive(Clone, Copy, PartialEq, Eq, Structural, Debug)]
pub struct HitRecord {
    pub point: Point3,
    pub norm: Vector3,
    pub front_face: bool,
    pub t: Fx,
    pub material_id: usize,
}

/// Candidate records listed in order of nondecreasing ray parameter.
pub open spec fn sorted_by_t(cands: Seq<HitRecord>) -> bool {
    forall|i: int, j: int| 0 <= i <= j < cands.len() ==> cands[i].t.bits <= cands[j].t.bits
}

/// The first candidate whose parameter lies strictly inside the interval.
pub open spec fn first_surrounding(cands: Seq<HitRecord>, itv: Interval) -> Option<HitRecord>
    decreases cands.len(),
{
    if cands.len() == 0 {
        None
    } else if itv.spec_surrounds(cands[0].t) {
        Some(cands[0])
    } else {
        first_surrounding(cands.drop_first(), itv)
    }
}

pub proof fn lemma_first_surrounding_surrounds(cands: Seq<HitRecord>, itv: Interval)
    ensures
        first_surrounding(cands, itv) matches Some(h) ==> itv.spec_surrounds(h.t),
    decreases cands.len(),
{
    if cands.len() == 0 {
    } else if itv.spec_surrounds(cands[0].t) {
    } else {
        lemma_first_surrounding_surrounds(cands.drop_first(), itv);
    }
}

/// On a sorted candidate list, the first surrounding candidate is also the
/// one of least parameter, and a `None` answer means no candidate qualifies.
pub proof fn lemma_first_surrounding_min(cands: Seq<HitRecord>, itv: Interval)
    requires
        sorted_by_t(cands),
    ensures
        match first_surrounding(cands, itv) {
            Some(h) => (exists|i: int| 0 <= i < cands.len() && cands[i] == h) && (forall|i: int|
                0 <= i < cands.len() && itv.spec_surrounds(cands[i].t)
                    ==> h.t.bits <= cands[i].t.bits),
            None => forall|i: int| 0 <= i < cands.len() ==> !itv.spec_surrounds(cands[i].t),
        },
    decreases cands.len(),
{
    if cands.len() == 0 {
    } else if itv.spec_surrounds(cands[0].t) {
        assert(cands[0] == cands[0]);
    } else {
        let rest = cands.drop_first();
        assert forall|i: int, j: int| 0 <= i <= j < rest.len() implies rest[i].t.bits
            <= rest[j].t.bits by {
            assert(rest[i] == cands[i + 1]);
            assert(rest[j] == cands[j + 1]);
        }
        lemma_first_surrounding_min(rest, itv);
        match first_surrounding(cands, itv) {
            Some(h) => {
                let w = choose|i: int| 0 <= i < rest.len() && rest[i] == h;
                assert(cands[w + 1] == h);
                assert forall|i: int|
                    0 <= i < cands.len() && itv.spec_surrounds(cands[i].t) implies h.t.bits
                    <= cands[i].t.bits by {
                    assert(i >= 1);
                    assert(rest[i - 1] == cands[i]);
                }
            },
            None => {
                assert forall|i: int| 0 <= i < cands.len() implies !itv.spec_surrounds(
                    cands[i].t,
                ) by {
                    if i >= 1 {
                        assert(rest[i - 1] == cands[i]);
                    }
                }
            },
        }
    }
}

/// Shrinking the upper bound of the query interval keeps the same answer when
/// its parameter still fits, and removes it otherwise.
pub proof fn lemma_first_surrounding_shrink(cands: Seq<HitRecord>, itv: Interval, m2: Fx)
    requires
        sorted_by_t(cands),
        m2.bits <= itv.max.bits,
    ensures
        first_surrounding(cands, Interval { min: itv.min, max: m2 }) == match first_surrounding(
            cands,
            itv,
        ) {
            Some(h) => if h.t.bits < m2.bits {
                Some(h)
            } else {
                None::<HitRecord>
            },
            None => None::<HitRecord>,
        },
    decreases cands.len(),
{
    let itv2 = Interval { min: itv.min, max: m2 };
    if cands.len() == 0 {
    } else {
        let rest = cands.drop_first();
        assert forall|i: int, j: int| 0 <= i <= j < rest.len() implies rest[i].t.bits
            <= rest[j].t.bits by {
            assert(rest[i] == cands[i + 1]);
            assert(rest[j] == cands[j + 1]);
        }
        if itv.spec_surrounds(cands[0].t) {
            if cands[0].t.bits < m2.bits {
                assert(itv2.spec_surrounds(cands[0].t));
            } else {
                assert(!itv2.spec_surrounds(cands[0].t));
                assert forall|i: int| 0 <= i < rest.len() implies !itv2.spec_surrounds(
                    rest[i].t,
                ) by {
                    assert(rest[i] == cands[i + 1]);
                    assert(rest[i].t.bits >= cands[0].t.bits);
                }
                lemma_first_surrounding_none(rest, itv2);
            }
        } else {
            assert(!itv2.spec_surrounds(cands[0].t));
            lemma_first_surrounding_shrink(rest, itv, m2);
        }
    }
}

pub proof fn lemma_first_surrounding_none(cands: Seq<HitRecord>, itv: Interval)
    requires
        forall|i: int| 0 <= i < cands.len() ==> !itv.spec_surrounds(cands[i].t),
    ensures
        first_surrounding(cands, itv) is None,
    decreases cands.len(),
{
    if cands.len() > 0 {
        let rest = cands.drop_first();
        assert forall|i: int| 0 <= i < rest.len() implies !itv.spec_surrounds(rest[i].t) by {
            assert(rest[i] == cands[i + 1]);
        }
        lemma_first_surrounding_none(rest, itv);
    }
}

/// Uniform intersection capability: an object answers a ray-interval query
/// with the record of least parameter strictly inside the interval, and the
/// record's normal always opposes the incoming ray.
pub trait Hittable {
    /// Validity of the object's stored geometry.
    spec fn wf(&self) -> bool;

    /// The ordered intersection records the object offers along a ray, before
    /// any interval filtering.
    spec fn spec_candidates(&self, ray: Ray) -> Seq<HitRecord>;

    /// What a hit query answers: the first candidate inside the interval.
    spec fn spec_hit(&self, ray: Ray, itv: Interval) -> Option<HitRecord>;

    proof fn lemma_hit_form(&self, ray: Ray, itv: Interval)
        requires
            self.wf(),
        ensures
            self.spec_hit(ray, itv) == first_surrounding(self.spec_candidates(ray), itv),
            sorted_by_t(self.spec_candidates(ray)),
    ;

    fn hit(&self, ray: &Ray, itv: Interval) -> (r: Option<HitRecord>)
        requires
            self.wf(),
        ensures
            r == self.spec_hit(*ray, itv),
            r matches Some(h) ==> itv.spec_surrounds(h.t),
            r matches Some(h) ==> sv_dot(ray.direction, h.norm).bits <= 0,
    ;
}

} // verus!
