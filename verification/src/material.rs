//! How surfaces scatter rays.
//!
//! A material answers a hit with an outgoing ray and the colour by which the
//! light along it is attenuated, or with nothing where the ray is absorbed.
//! The rules by which the materials of this module decide are here; the
//! directions and random draws that they decide on are handed in.
use vstd::prelude::*;
use crate::color::Color;
use crate::hittable::{Orientation, Surface};
use crate::ray::Ray;
use crate::scalar::Double;
use crate::vec3::Vec3;

verus! {

/// Specifies how rays scatter off of geometry.
pub trait Material {
    /// Whether the material may answer this hit by sending the ray on as
    /// `scattered`, attenuated by `attenuation`. Which of the rays that it
    /// may scatter a material does scatter, and whether it absorbs the ray
    /// instead, is its own matter and may differ from one call to the next.
    /// A material that does not say otherwise scatters nothing.
    open spec fn scatters(
        &self,
        ray: &Ray,
        surface: &Surface,
        scattered: Ray,
        attenuation: Color,
    ) -> bool {
        false
    }

    /// Determines the reflected ray and color produced by a particular hit:
    /// a ray that the material scatters, with its attenuation, or nothing
    /// where the ray is absorbed. A material that does not say otherwise
    /// absorbs every ray.
    fn scatter(&self, ray: &Ray, surface: &Surface) -> (r: Option<(Ray, Color)>)
        ensures
            r matches Some((scattered, attenuation)) ==> self.scatters(
                ray,
                surface,
                scattered,
                attenuation,
            ),
    {
        None
    }
}

/// The direction in which a diffuse surface scatters, `candidate` being the
/// surface normal plus a random unit vector: the candidate, unless it is
/// almost the zero vector, in which case the normal stands in for it.
pub open spec fn diffuse_direction_spec(surface: &Surface, candidate: Vec3) -> Vec3 {
    if candidate.almost_zero_spec() {
        surface.normal
    } else {
        candidate
    }
}

/// The ray that a diffuse surface scatters.
fn diffuse_ray(surface: &Surface, candidate: Vec3) -> (ray: Ray)
    ensures
        ray@ == (surface.p, diffuse_direction_spec(surface, candidate)),
{
    if !candidate.almost_zero() {
        Ray::new(surface.p, candidate)
    } else {
        Ray::new(surface.p, surface.normal)
    }
}

/// Lambertian diffuse material.
#[derive(Debug, Clone)]
pub struct Lambertian {
    /// Fractional reflectance color.
    albedo: Color,
}

impl Lambertian {
    /// Fractional reflectance color.
    pub closed spec fn albedo(&self) -> Color {
        self.albedo
    }

    /// Create a Lambertian material. Rays will always scatter.
    pub fn new(albedo: &Color) -> (m: Self)
        ensures
            m.albedo() == *albedo,
    {
        Self { albedo: *albedo }
    }

    /// Scatters from `surface`, `candidate` being the surface normal plus a
    /// random unit vector. The ray is always scattered, from the point of
    /// the hit, and attenuated by the albedo.
    pub fn scatter(&self, surface: &Surface, candidate: Vec3) -> (r: Option<(Ray, Color)>)
        ensures
            r matches Some((ray, attenuation)) && attenuation == self.albedo() && ray@ == (
                surface.p,
                diffuse_direction_spec(surface, candidate),
            ),
    {
        Some((diffuse_ray(surface, candidate), self.albedo))
    }
}

/// Lambertian probabilistic diffuse material.
#[derive(Debug, Clone)]
pub struct LambertianRandom {
    /// Fractional reflectance color.
    albedo: Color,
    /// The draw up to which a ray is absorbed.
    p: Double,
}

impl LambertianRandom {
    /// Fractional reflectance color, as it attenuates.
    pub closed spec fn albedo(&self) -> Color {
        self.albedo
    }

    /// The draw up to which a ray is absorbed.
    pub closed spec fn p(&self) -> Double {
        self.p
    }

    /// Create a Lambertian material that decides by a draw against `p`
    /// whether a ray scatters. When attenuated it takes `rescaled`, which is
    /// the albedo divided by `p`, for its albedo.
    pub fn new(albedo: &Color, p: Double, is_attenuated: bool, rescaled: &Color) -> (m: Self)
        requires
            Double::zero_spec().le_spec(p),
            p.le_spec(Double::one_spec()),
        ensures
            m.p() == p,
            m.albedo() == if is_attenuated {
                *rescaled
            } else {
                *albedo
            },
    {
        let albedo = if is_attenuated {
            *rescaled
        } else {
            *albedo
        };
        Self { albedo, p }
    }

    /// Scatters from `surface`, `draw` being a random number from zero to
    /// one and `candidate` the surface normal plus a random unit vector. A
    /// draw of at most `p` absorbs the ray; any other scatters it as a
    /// Lambertian surface does.
    pub fn scatter(&self, surface: &Surface, draw: Double, candidate: Vec3) -> (r: Option<
        (Ray, Color),
    >)
        ensures
            draw.le_spec(self.p()) ==> r is None,
            !draw.le_spec(self.p()) ==> (r matches Some((ray, attenuation)) && attenuation
                == self.albedo() && ray@ == (
                surface.p,
                diffuse_direction_spec(surface, candidate),
            )),
    {
        if draw.le(self.p) {
            return None;
        }
        Some((diffuse_ray(surface, candidate), self.albedo))
    }
}

/// Metallic material.
#[derive(Debug, Clone)]
pub struct Metallic {
    /// Fractional reflectance color.
    albedo: Color,
    /// Fuzz radius. Specifies a sphere around a perfect reflected ray
    /// in which the actual reflected ray can be generated.
    fuzz: Double,
}

impl Metallic {
    /// Fractional reflectance color.
    pub closed spec fn albedo(&self) -> Color {
        self.albedo
    }

    /// Fuzz radius.
    pub closed spec fn fuzz_spec(&self) -> Double {
        self.fuzz
    }

    /// Creates a new metallic material. A fuzz above one, or none at all,
    /// counts as one.
    pub fn new(albedo: &Color, fuzz: Double) -> (m: Self)
        ensures
            m.albedo() == *albedo,
            m.fuzz_spec() == fuzz.min_spec(Double::one_spec()),
    {
        Metallic { albedo: *albedo, fuzz: fuzz.min(Double::one()) }
    }

    /// Fuzz radius.
    pub fn fuzz(&self) -> (f: Double)
        ensures
            f == self.fuzz_spec(),
    {
        self.fuzz
    }

    /// Scatters from `surface`, `fuzzed` being the mirrored direction of the
    /// incoming ray after fuzzing and `facing` its dot product with the
    /// surface normal. The ray leaves along `fuzzed`, attenuated by the
    /// albedo, where `facing` is above zero; in every other case it would
    /// return into the surface and is absorbed.
    pub fn scatter(&self, surface: &Surface, fuzzed: Vec3, facing: Double) -> (r: Option<
        (Ray, Color),
    >)
        ensures
            Double::zero_spec().lt_spec(facing) ==> (r matches Some((ray, attenuation))
                && attenuation == self.albedo() && ray@ == (surface.p, fuzzed)),
            !Double::zero_spec().lt_spec(facing) ==> r is None,
    {
        let scattered = Ray::new(surface.p, fuzzed);
        if facing.gt(Double::zero()) {
            Some((scattered, self.albedo))
        } else {
            None
        }
    }
}

/// Dielectric material.
#[derive(Debug, Clone)]
pub struct Dielectric {
    /// Refractive index in a vacuum.
    refractive_index: Double,
}

impl Dielectric {
    /// Refractive index in a vacuum.
    pub closed spec fn refractive_index_spec(&self) -> Double {
        self.refractive_index
    }

    /// The ratio of refractive indices that a ray meets: the reciprocal of
    /// the index on the way in, the index itself on the way out.
    pub open spec fn ratio_spec(&self, orientation: Orientation, reciprocal: Double) -> Double {
        if orientation == Orientation::Exterior {
            reciprocal
        } else {
            self.refractive_index_spec()
        }
    }

    /// Whether a ray is reflected rather than refracted: always where no
    /// refraction is possible, which is where the ratio of indices times the
    /// sine of the angle of incidence is above one; and else where the
    /// reflectance is above the draw.
    pub open spec fn reflects_spec(ratio_sine: Double, reflectance: Double, draw: Double) -> bool {
        Double::one_spec().lt_spec(ratio_sine) || draw.lt_spec(reflectance)
    }

    /// Creates a new dielectric material.
    pub fn new(refractive_index: Double) -> (m: Self)
        ensures
            m.refractive_index_spec() == refractive_index,
    {
        Self { refractive_index }
    }

    /// Refractive index in a vacuum.
    pub fn refractive_index(&self) -> (index: Double)
        ensures
            index == self.refractive_index_spec(),
    {
        self.refractive_index
    }

    /// The ratio of refractive indices that a ray meets at a surface of the
    /// given orientation, `reciprocal` being one divided by the index.
    pub fn ratio(&self, orientation: Orientation, reciprocal: Double) -> (ratio: Double)
        ensures
            ratio == self.ratio_spec(orientation, reciprocal),
    {
        if orientation == Orientation::Exterior {
            reciprocal
        } else {
            self.refractive_index
        }
    }

    /// Scatters from `surface`: along `reflected` where the ray is
    /// reflected, else along `refracted`. `ratio_sine` is the ratio of
    /// indices times the sine of the angle of incidence, `reflectance` the
    /// Schlick reflectance at that angle and `draw` a random number from zero
    /// to one. The ray is never absorbed, and attenuated by white.
    pub fn scatter(
        &self,
        surface: &Surface,
        ratio_sine: Double,
        reflectance: Double,
        draw: Double,
        reflected: Vec3,
        refracted: Vec3,
    ) -> (r: Option<(Ray, Color)>)
        ensures
            r matches Some((ray, attenuation)) && attenuation@ == Color::white_spec() && ray@ == (
                surface.p,
                if Dielectric::reflects_spec(ratio_sine, reflectance, draw) {
                    reflected
                } else {
                    refracted
                },
            ),
    {
        let total_internal_reflection = ratio_sine.gt(Double::one());
        let reflect_schlick = reflectance.gt(draw);
        let direction = if total_internal_reflection || reflect_schlick {
            reflected
        } else {
            refracted
        };
        Some((Ray::new(surface.p, direction), Color::white()))
    }
}

/// Normal map with Lambertian scattering.
#[derive(Debug, Clone)]
pub struct NormalMap {}

impl NormalMap {
    /// Creates a new normal map.
    pub fn new() -> (m: Self) {
        Self {  }
    }

    /// Scatters from `surface` as a Lambertian surface does, attenuated by
    /// `tint`, which is the colour whose channels are the components of the
    /// surface normal.
    pub fn scatter(&self, surface: &Surface, tint: &Color, candidate: Vec3) -> (r: Option<
        (Ray, Color),
    >)
        ensures
            r matches Some((ray, attenuation)) && attenuation == *tint && ray@ == (
                surface.p,
                diffuse_direction_spec(surface, candidate),
            ),
    {
        Some((diffuse_ray(surface, candidate), *tint))
    }
}

} // verus!
