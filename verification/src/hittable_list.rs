//! A scene: the geometry that a ray is tested against.
use vstd::prelude::*;
use std::ops::Range;
use crate::hittable::HitRecord;
use crate::hittable::Hittable;
use crate::hittable::coherent;
use crate::hittable::cut_off;
use crate::hittable::narrowed;
use crate::hittable::spec_surrounds;
use crate::ray::Ray;
use crate::scalar::Scalar;

verus! {

/// An ordered collection of geometry, which it owns.
pub struct HittableList {
    pub objects: Vec<Box<dyn Hittable>>,
}

impl HittableList {
    /// The scene made of `objects`.
    pub fn new(objects: Vec<Box<dyn Hittable>>) -> (list: HittableList)
        ensures
            list.objects@ == objects@,
    {
        HittableList { objects }
    }

    /// Puts `object` behind the others.
    pub fn add(&mut self, object: Box<dyn Hittable>)
        ensures
            final(self).objects@ == old(self).objects@.push(object),
    {
        self.objects.push(object);
    }
}

impl Default for HittableList {
    /// The empty scene.
    fn default() -> (list: HittableList)
        ensures
            list.objects@.len() == 0,
    {
        HittableList { objects: Vec::new() }
    }
}

/// The upper end of the interval in which the next piece of geometry is
/// tested: the parameter of the best record so far, or the end of `ray_t`
/// where there is none yet.
pub open spec fn bound_after(best: Option<HitRecord>, ray_t: Range<Scalar>) -> Scalar {
    match best {
        Some(h) => h.t,
        None => ray_t.end,
    }
}

/// The record kept after the first `n` pieces of `objects` have been tested
/// in turn, each inside the interval that the records before it have left.
pub open spec fn nearest_upto(
    objects: Seq<Box<dyn Hittable>>,
    r: Ray,
    ray_t: Range<Scalar>,
    n: nat,
) -> Option<HitRecord>
    decreases n,
{
    if n == 0 {
        None
    } else {
        let before = nearest_upto(objects, r, ray_t, (n - 1) as nat);
        let tested = objects[n - 1].hits(r, narrowed(ray_t, bound_after(before, ray_t)));
        match tested {
            Some(h) => Some(h),
            None => before,
        }
    }
}

/// Among the first `n` pieces of `objects`, none reports a hit inside the
/// whole of `ray_t`.
pub open spec fn none_hit(
    objects: Seq<Box<dyn Hittable>>,
    r: Ray,
    ray_t: Range<Scalar>,
    n: nat,
) -> bool {
    forall|j: int| 0 <= j < n ==> #[trigger] objects[j].hits(r, ray_t) is None
}

/// `h` is what one of the first `n` pieces of `objects` reports inside the
/// whole of `ray_t`, and none of them reports a hit with a smaller
/// parameter.
pub open spec fn is_nearest(
    objects: Seq<Box<dyn Hittable>>,
    r: Ray,
    ray_t: Range<Scalar>,
    n: nat,
    h: HitRecord,
) -> bool {
    &&& spec_surrounds(ray_t, h.t)
    &&& exists|k: int| 0 <= k < n && #[trigger] objects[k].hits(r, ray_t) == Some(h)
    &&& forall|j: int|
        0 <= j < n ==> (#[trigger] objects[j].hits(r, ray_t) matches Some(g) ==> h.t.spec_le(g.t))
}

/// The scene reports the nearest hit. Where every piece of geometry answers
/// as `coherent` says, the record kept after `n` pieces is the one with the
/// smallest parameter among what those pieces report inside the whole
/// interval, and there is none exactly where none of them reports a hit.
pub proof fn lemma_nearest_hit(
    objects: Seq<Box<dyn Hittable>>,
    r: Ray,
    ray_t: Range<Scalar>,
    n: nat,
)
    requires
        n <= objects.len(),
        forall|k: int| 0 <= k < n ==> #[trigger] coherent(objects, k, r, ray_t),
    ensures
        nearest_upto(objects, r, ray_t, n) is None <==> none_hit(objects, r, ray_t, n),
        nearest_upto(objects, r, ray_t, n) matches Some(h) ==> is_nearest(objects, r, ray_t, n, h),
    decreases n,
{
    if n > 0 {
        let m = (n - 1) as nat;
        lemma_nearest_hit(objects, r, ray_t, m);
        let before = nearest_upto(objects, r, ray_t, m);
        let object = objects[m as int];
        let full = object.hits(r, ray_t);
        let bound = bound_after(before, ray_t);
        let tested = object.hits(r, narrowed(ray_t, bound));
        assert(coherent(objects, m as int, r, ray_t));
        match before {
            None => {
                assert(narrowed(ray_t, bound) == ray_t);
                match full {
                    Some(g) => {
                        assert(is_nearest(objects, r, ray_t, n, g)) by {
                            assert(objects[m as int].hits(r, ray_t) == Some(g));
                        }
                        assert(!none_hit(objects, r, ray_t, n));
                    },
                    None => {
                        assert(none_hit(objects, r, ray_t, n));
                    },
                }
            },
            Some(h) => {
                assert(tested == cut_off(full, bound));
                let k = choose|k: int| 0 <= k < m && #[trigger] objects[k].hits(r, ray_t) == Some(h);
                assert(!none_hit(objects, r, ray_t, n)) by {
                    assert(objects[k].hits(r, ray_t) is Some);
                }
                match tested {
                    Some(g) => {
                        assert(is_nearest(objects, r, ray_t, n, g)) by {
                            assert(objects[m as int].hits(r, ray_t) == Some(g));
                        }
                    },
                    None => {
                        assert(is_nearest(objects, r, ray_t, n, h)) by {
                            assert(objects[k].hits(r, ray_t) == Some(h));
                        }
                    },
                }
            },
        }
    }
}

/// What a scene of coherent geometry reports is the nearest of what its
/// pieces report, and nothing exactly where no piece reports a hit.
pub proof fn lemma_scene_reports_nearest(world: HittableList, r: Ray, ray_t: Range<Scalar>)
    requires
        forall|k: int|
            0 <= k < world.objects@.len() ==> #[trigger] coherent(world.objects@, k, r, ray_t),
    ensures
        world.hits(r, ray_t) is None <==> none_hit(
            world.objects@,
            r,
            ray_t,
            world.objects@.len(),
        ),
        world.hits(r, ray_t) matches Some(h) ==> is_nearest(
            world.objects@,
            r,
            ray_t,
            world.objects@.len(),
            h,
        ),
{
    lemma_nearest_hit(world.objects@, r, ray_t, world.objects@.len());
}

impl Hittable for HittableList {
    /// The record kept after all of the scene has been tested.
    open spec fn hits(&self, r: Ray, ray_t: Range<Scalar>) -> Option<HitRecord> {
        nearest_upto(self.objects@, r, ray_t, self.objects@.len())
    }

    /// Tests every piece of geometry in turn and keeps the nearest record:
    /// each record found shrinks the interval for the pieces after it.
    fn hit(&self, r: &Ray, ray_t: Range<Scalar>) -> (rec: Option<HitRecord>) {
        let mut hit_record: Option<HitRecord> = None;
        let mut closest_so_far: Scalar = ray_t.end;
        let mut i: usize = 0;
        while i < self.objects.len()
            invariant
                i <= self.objects@.len(),
                hit_record == nearest_upto(self.objects@, *r, ray_t, i as nat),
                closest_so_far == bound_after(hit_record, ray_t),
                hit_record matches Some(h) ==> spec_surrounds(ray_t, h.t),
            decreases self.objects@.len() - i,
        {
            let tested = self.objects[i].hit(
                r,
                Range { start: ray_t.start, end: closest_so_far },
            );
            assert(Range { start: ray_t.start, end: closest_so_far } == narrowed(
                ray_t,
                closest_so_far,
            ));
            if let Some(rec) = tested {
                closest_so_far = rec.t;
                hit_record = Some(rec);
            }
            i = i + 1;
        }
        hit_record
    }
}

} // verus!
