//! What a surface does to a ray that hits it.
//!
//! A material either sends a new ray on from the point of the hit, with a
//! colour by which whatever that ray sees is multiplied, or absorbs the ray.
//! The directions among which it chooses are the caller's arithmetic; the
//! choice is made here.

use crate::math::ray::Ray;
use crate::math::scalar::{Scalar, ONE_BITS};
use crate::math::vec3::{ColorRGB, Vec3};
use crate::shapes::HitRecord;
use vstd::prelude::*;

verus! {

/// A matt surface: it scatters every ray, tinted by `albedo`.
#[derive(Clone, Copy, Debug)]
pub struct Lambertian {
    pub albedo: ColorRGB,
}

/// A mirror that `roughness`, from 0 to 1, blurs.
#[derive(Clone, Copy, Debug)]
pub struct Metal {
    pub albedo: ColorRGB,
    pub roughness: Scalar,
}

/// A clear material such as glass.
#[derive(Clone, Copy, Debug)]
pub struct Dielectric {
    pub index_of_refraction: Scalar,
}

/// The materials a surface can be made of.
#[derive(Clone, Copy, Debug)]
pub enum Material {
    Lambertian(Lambertian),
    Metal(Metal),
    Dielectric(Dielectric),
}

/// The colour that takes nothing away: one in every channel.
pub open spec fn white() -> ColorRGB {
    Vec3 { x: Scalar { bits: ONE_BITS }, y: Scalar { bits: ONE_BITS }, z: Scalar { bits: ONE_BITS } }
}

impl Lambertian {
    /// Every channel of the albedo lies between zero and one.
    pub open spec fn wf(self) -> bool {
        self.albedo.unit_range()
    }

    /// Scatters the ray that gave `rec`.
    ///
    /// `scatter_direction` is the normal at the hit plus a random vector of
    /// length one.  Where the two all but cancel, the ray goes on along the
    /// normal itself.  Nothing is absorbed; the attenuation is the albedo,
    /// whose channels lie between zero and one in a well-formed material.
    pub fn scatter(&self, rec: &HitRecord, scatter_direction: Vec3) -> (r: Option<(ColorRGB, Ray)>)
        ensures
            r == Some(
                (
                    self.albedo,
                    (Ray {
                        point: rec.p,
                        direction: if scatter_direction.near_zero_spec() {
                            rec.normal
                        } else {
                            scatter_direction
                        },
                    }),
                ),
            ),
            self.wf() ==> (r matches Some((attenuation, _)) && attenuation.unit_range()),
            scatter_direction.near_zero_spec() ==> (r matches Some((_, scattered))
                && scattered.direction == rec.normal),
    {
        let direction = if scatter_direction.near_zero() {
            rec.normal
        } else {
            scatter_direction
        };
        Some((self.albedo, Ray { point: rec.p, direction }))
    }
}

impl Metal {
    /// The albedo's channels and the roughness lie between zero and one.
    pub open spec fn wf(self) -> bool {
        &&& self.albedo.unit_range()
        &&& 0 <= self.roughness.rank() <= ONE_BITS
    }

    /// Scatters the ray that gave `rec`, or absorbs it.
    ///
    /// `direction` is the mirrored direction of the ray plus the roughness
    /// times a random vector shorter than one, and `facing` its dot product
    /// with the normal at the hit.  The ray goes on only where `facing` is
    /// positive: one that would enter the surface is absorbed.
    pub fn scatter(&self, rec: &HitRecord, direction: Vec3, facing: Scalar) -> (r: Option<
        (ColorRGB, Ray),
    >)
        ensures
            r == if facing.gt_spec(Scalar { bits: 0 }) {
                Some((self.albedo, (Ray { point: rec.p, direction })))
            } else {
                None
            },
            facing.le_spec(Scalar { bits: 0 }) ==> r is None,
            self.wf() ==> (r matches Some((attenuation, _)) ==> attenuation.unit_range()),
    {
        if facing.gt(Scalar::zero()) {
            Some((self.albedo, Ray { point: rec.p, direction }))
        } else {
            None
        }
    }
}

impl Dielectric {
    /// Whether light is mirrored rather than bent: always where
    /// `ratio_sin` exceeds one, for then no bent ray exists, and else where
    /// the share of light that is mirrored exceeds the draw.
    pub open spec fn reflects(ratio_sin: Scalar, reflectance: Scalar, draw: Scalar) -> bool {
        ratio_sin.gt_spec(Scalar { bits: ONE_BITS }) || reflectance.gt_spec(draw)
    }

    /// The ratio of the refractive indices on the two sides of the surface
    /// for a ray that comes from outside (`front_face`) or from inside: the
    /// material's index for the first, `reciprocal`, which is one over the
    /// index, for the second.
    pub fn refraction_ratio(&self, front_face: bool, reciprocal: Scalar) -> (r: Scalar)
        ensures
            r == if front_face {
                self.index_of_refraction
            } else {
                reciprocal
            },
    {
        if front_face {
            self.index_of_refraction
        } else {
            reciprocal
        }
    }

    /// Scatters the ray that gave `rec`.
    ///
    /// `ratio_sin` is the refraction ratio times the sine of the angle
    /// between the ray and the normal, `reflectance` the share of light that
    /// the surface mirrors at that angle, `draw` a random number from zero to
    /// one, and `reflected` and `refracted` the mirrored and the bent
    /// direction.  Nothing is absorbed and nothing is tinted.  Where
    /// `ratio_sin` exceeds one the ray is mirrored, whatever the reflectance
    /// and the draw.
    pub fn scatter(
        &self,
        rec: &HitRecord,
        ratio_sin: Scalar,
        reflectance: Scalar,
        draw: Scalar,
        reflected: Vec3,
        refracted: Vec3,
    ) -> (r: Option<(ColorRGB, Ray)>)
        ensures
            r == Some(
                (
                    white(),
                    (Ray {
                        point: rec.p,
                        direction: if Self::reflects(ratio_sin, reflectance, draw) {
                            reflected
                        } else {
                            refracted
                        },
                    }),
                ),
            ),
            ratio_sin.gt_spec(Scalar { bits: ONE_BITS }) ==> (r matches Some((_, scattered))
                && scattered.direction == reflected),
    {
        let one = Scalar::one();
        let direction = if ratio_sin.gt(one) || reflectance.gt(draw) {
            reflected
        } else {
            refracted
        };
        Some((Vec3 { x: one, y: one, z: one }, Ray { point: rec.p, direction }))
    }
}

} // verus!
