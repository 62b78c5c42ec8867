//! A sphere, and which of its two crossings with a ray counts.
use vstd::prelude::*;
use std::ops::Range;
use crate::hittable::narrowed;
use crate::hittable::spec_surrounds;
use crate::hittable::surrounds;
use crate::material::Material;
use crate::scalar::Scalar;
use crate::vec3::Vec3;

verus! {

/// A sphere with its material.
#[derive(Clone, Copy, Debug)]
pub struct Sphere {
    pub center: Vec3,
    pub radius: Scalar,
    pub material: Material,
}

impl Sphere {
    /// The sphere around `center` with the given radius and material.
    pub fn new(center: Vec3, radius: Scalar, material: Material) -> (s: Sphere)
        ensures
            s.center == center,
            s.radius == radius,
            s.material == material,
    {
        Sphere { center, radius, material }
    }

    /// The parameter at which a ray counts as striking the sphere, given the
    /// discriminant of the quadratic and its two roots, `near` the smaller.
    ///
    /// Below a discriminant of zero there is none. Otherwise it is `near`
    /// where that lies inside `ray_t`, else `far` where that does, else none.
    /// A root that is not a number, or infinite as for a ray without a
    /// direction, lies inside no interval.
    pub open spec fn spec_select_root(
        discriminant: Scalar,
        near: Scalar,
        far: Scalar,
        ray_t: Range<Scalar>,
    ) -> Option<Scalar> {
        if discriminant.spec_lt(Scalar { bits: 0 }) {
            None
        } else if spec_surrounds(ray_t, near) {
            Some(near)
        } else if spec_surrounds(ray_t, far) {
            Some(far)
        } else {
            None
        }
    }

    /// Drawing the end of the interval in never brings another root forward:
    /// the root chosen inside the whole interval is chosen still where it lies
    /// below the new end, and no root is chosen otherwise. This is what makes
    /// a sphere answer as a scene needs it to find the nearest hit.
    pub proof fn lemma_select_root_narrows(
        discriminant: Scalar,
        near: Scalar,
        far: Scalar,
        ray_t: Range<Scalar>,
        end: Scalar,
    )
        requires
            !far.spec_lt(near),
            end.spec_le(ray_t.end),
        ensures
            Self::spec_select_root(discriminant, near, far, narrowed(ray_t, end)) == (
            match Self::spec_select_root(discriminant, near, far, ray_t) {
                Some(t) => if t.spec_lt(end) {
                    Some(t)
                } else {
                    None
                },
                None => None,
            }),
    {
    }

    /// Chooses the root at which the ray strikes: see `spec_select_root`.
    pub fn select_root(
        discriminant: Scalar,
        near: Scalar,
        far: Scalar,
        ray_t: &Range<Scalar>,
    ) -> (root: Option<Scalar>)
        ensures
            root == Self::spec_select_root(discriminant, near, far, *ray_t),
            root matches Some(t) ==> spec_surrounds(*ray_t, t),
    {
        if discriminant.lt(Scalar::zero()) {
            return None;
        }
        if surrounds(ray_t, near) {
            Some(near)
        } else if surrounds(ray_t, far) {
            Some(far)
        } else {
            None
        }
    }
}

} // verus!
