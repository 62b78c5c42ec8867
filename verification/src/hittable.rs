//! What a ray can strike, and what is recorded when it does.
use vstd::prelude::*;
use std::ops::Neg;
use std::ops::Range;
use crate::material::Material;
use crate::ray::Ray;
use crate::scalar::Scalar;
use crate::vec3::Vec3;

verus! {

/// What is known of the point where a ray strikes a surface.
#[derive(Clone, Copy, Debug)]
pub struct HitRecord {
    /// The point struck.
    pub p: Vec3,
    /// The surface normal there, turned against the incoming ray.
    pub normal: Vec3,
    /// The material of the surface.
    pub material: Material,
    /// The ray's parameter at the point.
    pub t: Scalar,
    /// Whether the ray came from outside the surface.
    pub front_face: bool,
}

impl HitRecord {
    /// The record of a hit at `p` with the parameter `t`, where the surface
    /// has the outward unit normal `outward_normal` and `facing` is the dot
    /// product of the ray's direction with that normal.
    ///
    /// The ray comes from outside exactly where `facing` is below zero. The
    /// normal stored is the outward one in that case and its opposite
    /// otherwise, so that it always stands against the ray.
    pub fn oriented(
        p: Vec3,
        t: Scalar,
        outward_normal: Vec3,
        facing: Scalar,
        material: Material,
    ) -> (rec: HitRecord)
        ensures
            rec.p == p,
            rec.t == t,
            rec.material == material,
            rec.front_face == facing.spec_lt(Scalar { bits: 0 }),
            rec.normal == (if rec.front_face {
                outward_normal
            } else {
                outward_normal.negated()
            }),
    {
        let front_face: bool = facing.lt(Scalar::zero());
        let normal: Vec3 = if front_face {
            outward_normal
        } else {
            outward_normal.neg()
        };
        HitRecord { p, normal, material, t, front_face }
    }
}

/// `t` lies strictly between the two ends of `ray_t`. What is not a number
/// lies in no interval.
pub open spec fn spec_surrounds(ray_t: Range<Scalar>, t: Scalar) -> bool {
    ray_t.start.spec_lt(t) && t.spec_lt(ray_t.end)
}

/// Whether `t` lies strictly between the two ends of `ray_t`.
pub fn surrounds(ray_t: &Range<Scalar>, t: Scalar) -> (r: bool)
    ensures
        r == spec_surrounds(*ray_t, t),
{
    ray_t.start.lt(t) && t.lt(ray_t.end)
}

/// `ray_t` with its end drawn in to `end`.
pub open spec fn narrowed(ray_t: Range<Scalar>, end: Scalar) -> Range<Scalar> {
    Range { start: ray_t.start, end }
}

/// What `full`, the answer inside a whole interval, becomes when the end of
/// the interval is drawn in to `end`: the same record where its parameter is
/// still below the end, and nothing otherwise.
pub open spec fn cut_off(full: Option<HitRecord>, end: Scalar) -> Option<HitRecord> {
    match full {
        Some(g) => if g.t.spec_lt(end) {
            full
        } else {
            None
        },
        None => None,
    }
}

/// The `k`-th of `objects` answers for `r` as geometry does that reports
/// its nearest crossing: a record lies inside the interval it was asked for,
/// and drawing the end of `ray_t` in changes the answer as `cut_off` says.
/// Geometry that reports the first of its crossings inside the interval
/// answers so.
pub open spec fn coherent(
    objects: Seq<Box<dyn Hittable>>,
    k: int,
    r: Ray,
    ray_t: Range<Scalar>,
) -> bool {
    &&& (objects[k].hits(r, ray_t) matches Some(g) ==> spec_surrounds(ray_t, g.t))
    &&& forall|end: Scalar|
        #![trigger narrowed(ray_t, end)]
        end.spec_le(ray_t.end) ==> objects[k].hits(r, narrowed(ray_t, end)) == cut_off(
            objects[k].hits(r, ray_t),
            end,
        )
}

/// Geometry that a ray can strike.
pub trait Hittable {
    /// The nearest point at which `r` strikes this geometry with its parameter
    /// inside `ray_t`, both ends excluded, or `None` where there is no such
    /// point. Geometry defined elsewhere leaves this unspecified: all that is
    /// then known of it is that it depends on nothing but the geometry, the
    /// ray and the interval.
    open spec fn hits(&self, r: Ray, ray_t: Range<Scalar>) -> Option<HitRecord> {
        vstd::pervasive::arbitrary::<spec_fn(&Self, Ray, Range<Scalar>) -> Option<HitRecord>>()(
            self,
            r,
            ray_t,
        )
    }

    /// Computes `hits`. A record that is returned has its parameter inside
    /// `ray_t`.
    ///
    /// Nothing checks an implementation outside this library against these
    /// two clauses: it must answer the same question in the same way every
    /// time, and must not report a hit outside the interval.
    fn hit(&self, r: &Ray, ray_t: Range<Scalar>) -> (rec: Option<HitRecord>)
        ensures
            rec == self.hits(*r, ray_t),
            rec matches Some(h) ==> spec_surrounds(ray_t, h.t),
    ;
}

} // verus!
