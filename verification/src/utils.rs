//! The radiance estimator: what a ray brings back.
use vstd::prelude::*;
use std::ops::Range;
use crate::hittable::HitRecord;
use crate::hittable::Hittable;
use crate::hittable_list::HittableList;
use crate::ray::Ray;
use crate::scalar::Scalar;
use crate::scalar::INFINITY_BITS;

verus! {

/// Bit pattern of the parameter below which a hit is ignored: one
/// thousandth, rounded to single precision. A scattered ray starts on the
/// surface that scattered it; without this margin rounding would let it
/// strike that surface again at once.
pub const SELF_HIT_MARGIN_BITS: u32 = 0x3a83_126f;

/// What a ray brings back, as far as it can be said without arithmetic.
#[derive(Clone, Copy, Debug)]
pub enum Radiance {
    /// No light: the path has used up its bounces.
    Black,
    /// The ray leaves the scene and brings the colour of the background.
    Background,
    /// The ray strikes a surface. Where the material scatters it, it brings
    /// the attenuation times what the scattered ray brings back with
    /// `depth` bounces left; where the material absorbs it, no light.
    Surface { rec: HitRecord, depth: i32 },
}

/// The interval in which hits count: from the margin to infinity.
pub open spec fn visible() -> Range<Scalar> {
    Range { start: Scalar { bits: SELF_HIT_MARGIN_BITS }, end: Scalar { bits: INFINITY_BITS } }
}

/// What `r` brings back from `world` with `depth` bounces left.
pub open spec fn spec_color(r: Ray, depth: i32, world: HittableList) -> Radiance {
    if depth <= 0 {
        Radiance::Black
    } else {
        match world.hits(r, visible()) {
            Some(rec) => Radiance::Surface { rec, depth: (depth - 1) as i32 },
            None => Radiance::Background,
        }
    }
}

/// One step of the estimator. With no bounce left the answer is black
/// whatever the scene holds, and the scene is not looked at. Otherwise the
/// scene is tested inside `visible()`: a miss brings the background, a hit
/// is handed back with one bounce fewer.
pub fn color(r: &Ray, depth: i32, world: &HittableList) -> (c: Radiance)
    ensures
        c == spec_color(*r, depth, *world),
        depth <= 0 ==> c is Black,
        c matches Radiance::Surface { rec, depth: left } ==> 0 <= left < depth
            && crate::hittable::spec_surrounds(visible(), rec.t),
{
    if depth <= 0 {
        return Radiance::Black;
    }
    let ray_t = Range {
        start: Scalar::from_bits(SELF_HIT_MARGIN_BITS),
        end: Scalar::infinity(),
    };
    match world.hit(r, ray_t) {
        Some(rec) => Radiance::Surface { rec, depth: depth - 1 },
        None => Radiance::Background,
    }
}

} // verus!
