//! What a surface is made of.
use vstd::prelude::*;
use crate::hittable::HitRecord;
use crate::ray::Ray;
use crate::scalar::Scalar;
use crate::scalar::ONE_BITS;
use crate::vec3::Vec3;

verus! {

/// The material of a surface. A value, copied into the geometry that has it
/// and from there into every record of a hit.
#[derive(Clone, Copy, Debug)]
pub enum Material {
    /// A diffuse surface that reflects the fraction `albedo` of each colour.
    Lambertian { albedo: Vec3 },
    /// A mirror of colour `albedo`, blurred by `fuzz`.
    Metal { albedo: Vec3, fuzz: Scalar },
    /// Clear glass with the index of refraction `ir`.
    Dielectric { ir: Scalar },
}

impl Default for Material {
    /// A diffuse surface that reflects nothing.
    fn default() -> (m: Material)
        ensures
            m matches Material::Lambertian { albedo } && albedo.e[0].bits == 0 && albedo.e[1].bits
                == 0 && albedo.e[2].bits == 0,
    {
        Material::Lambertian { albedo: Vec3::default() }
    }
}

/// What the arithmetic offers for one scatter event: the directions that the
/// material may send the ray in, and the numbers that decide between them.
#[derive(Clone, Copy, Debug)]
pub enum Proposal {
    /// For a diffuse surface: the normal plus a random unit vector.
    Diffuse { direction: Vec3 },
    /// For a mirror: the reflected direction with its blur added, and
    /// `facing`, the dot product of that direction with the normal.
    Mirror { direction: Vec3, facing: Scalar },
    /// For glass: the reflected and the refracted direction; `bend`, the
    /// refraction ratio times the sine of the angle of incidence; the
    /// reflectance at that angle; and a uniform random `draw`.
    Glass { reflected: Vec3, refracted: Vec3, bend: Scalar, reflectance: Scalar, draw: Scalar },
}

impl Proposal {
    /// The proposal is of the kind that `material` takes.
    pub open spec fn spec_fits(self, material: Material) -> bool {
        match material {
            Material::Lambertian { .. } => self is Diffuse,
            Material::Metal { .. } => self is Mirror,
            Material::Dielectric { .. } => self is Glass,
        }
    }

    /// Whether the proposal is of the kind that `material` takes.
    #[verifier::when_used_as_spec(spec_fits)]
    pub fn fits(self, material: Material) -> (r: bool)
        ensures
            r == self.spec_fits(material),
    {
        match (material, self) {
            (Material::Lambertian { .. }, Proposal::Diffuse { .. }) => true,
            (Material::Metal { .. }, Proposal::Mirror { .. }) => true,
            (Material::Dielectric { .. }, Proposal::Glass { .. }) => true,
            _ => false,
        }
    }
}

/// The colour white, which glass leaves to the light that passes.
pub open spec fn white() -> Vec3 {
    Vec3::spec_new(Scalar { bits: ONE_BITS }, Scalar { bits: ONE_BITS }, Scalar { bits: ONE_BITS })
}

/// Whether glass reflects: the ray cannot be refracted, `bend` being above
/// one, or the reflectance is above the draw.
pub open spec fn glass_reflects(bend: Scalar, reflectance: Scalar, draw: Scalar) -> bool {
    bend.spec_gt(Scalar { bits: ONE_BITS }) || reflectance.spec_gt(draw)
}

/// The ratio of the refractive indices that a ray meets at a surface of
/// glass: the inverse of the index where it enters, the index where it
/// leaves.
pub fn refraction_ratio(front_face: bool, ir: Scalar, ir_inverse: Scalar) -> (ratio: Scalar)
    ensures
        ratio == (if front_face {
            ir_inverse
        } else {
            ir
        }),
{
    if front_face {
        ir_inverse
    } else {
        ir
    }
}

/// The attenuation and the scattered ray of one scatter event, or `None`
/// where the surface absorbs the ray.
pub open spec fn spec_scatter(material: Material, rec: HitRecord, proposal: Proposal) -> Option<
    (Vec3, Ray),
> {
    match (material, proposal) {
        (Material::Lambertian { albedo }, Proposal::Diffuse { direction }) => {
            let kept = if direction.spec_near_zero() {
                rec.normal
            } else {
                direction
            };
            Some((albedo, Ray { orig: rec.p, dir: kept }))
        },
        (Material::Metal { albedo, fuzz }, Proposal::Mirror { direction, facing }) => {
            if facing.spec_gt(Scalar { bits: 0 }) {
                Some((albedo, Ray { orig: rec.p, dir: direction }))
            } else {
                None
            }
        },
        (
            Material::Dielectric { ir },
            Proposal::Glass { reflected, refracted, bend, reflectance, draw },
        ) => {
            let kept = if glass_reflects(bend, reflectance, draw) {
                reflected
            } else {
                refracted
            };
            Some((white(), Ray { orig: rec.p, dir: kept }))
        },
        _ => None,
    }
}

/// Decides one scatter event.
///
/// A diffuse surface never absorbs: it sends the ray along the proposed
/// direction, or along the normal where that direction is close to zero. A
/// mirror sends the ray on only where the proposed direction points away
/// from the surface, and absorbs it otherwise. Glass never absorbs: it
/// reflects where `glass_reflects` holds and refracts otherwise, and takes no
/// colour from the light. The scattered ray starts at the point struck.
pub fn scatter(material: &Material, rec: &HitRecord, proposal: &Proposal) -> (out: Option<
    (Vec3, Ray),
>)
    requires
        proposal.fits(*material),
    ensures
        out == spec_scatter(*material, *rec, *proposal),
        *material is Lambertian ==> out is Some,
        *material is Dielectric ==> out is Some,
        *material is Metal ==> (out is Some <==> proposal->facing.spec_gt(Scalar { bits: 0 })),
        out matches Some(s) ==> s.1.orig == rec.p,
        (*proposal is Glass && proposal->bend.spec_le(Scalar { bits: ONE_BITS })
            && !proposal->reflectance.spec_gt(proposal->draw)) ==> out == Some(
            (white(), Ray { orig: rec.p, dir: proposal->refracted }),
        ),
{
    match (*material, *proposal) {
        (Material::Lambertian { albedo }, Proposal::Diffuse { direction }) => {
            let kept: Vec3 = if direction.near_zero() {
                rec.normal
            } else {
                direction
            };
            Some((albedo, Ray::ray(rec.p, kept)))
        },
        (Material::Metal { albedo, fuzz: _ }, Proposal::Mirror { direction, facing }) => {
            if facing.gt(Scalar::zero()) {
                Some((albedo, Ray::ray(rec.p, direction)))
            } else {
                None
            }
        },
        (
            Material::Dielectric { ir: _ },
            Proposal::Glass { reflected, refracted, bend, reflectance, draw },
        ) => {
            let cannot_refract: bool = bend.gt(Scalar::one());
            let kept: Vec3 = if cannot_refract || reflectance.gt(draw) {
                reflected
            } else {
                refracted
            };
            let one: Scalar = Scalar::one();
            Some((Vec3::new(one, one, one), Ray::ray(rec.p, kept)))
        },
        _ => None,
    }
}

} // verus!
