use raytracer::color::Color;
use raytracer::hittable::{Orientation, Surface};
use raytracer::material::{
    Dielectric, Lambertian, LambertianRandom, Material, Metallic, NormalMap,
};
use raytracer::ray::Ray;
use raytracer::scalar::{Double, Single};
use raytracer::vec3::Vec3;

fn r(x: f64) -> Double {
    Double::from_bits(x.to_bits())
}

fn v(x: f64, y: f64, z: f64) -> Vec3 {
    Vec3::new(r(x), r(y), r(z))
}

fn c(red: f32, green: f32, blue: f32) -> Color {
    Color::new(
        Single::from_bits(red.to_bits()),
        Single::from_bits(green.to_bits()),
        Single::from_bits(blue.to_bits()),
    )
}

fn channels(color: &Color) -> [f32; 3] {
    [
        f32::from_bits(color.r().to_bits()),
        f32::from_bits(color.g().to_bits()),
        f32::from_bits(color.b().to_bits()),
    ]
}

fn triple(vec: &Vec3) -> [f64; 3] {
    [
        f64::from_bits(vec.x().to_bits()),
        f64::from_bits(vec.y().to_bits()),
        f64::from_bits(vec.z().to_bits()),
    ]
}

fn floor_at_origin() -> Surface {
    Surface { p: v(0.0, 0.0, 0.0), normal: v(0.0, 1.0, 0.0), orientation: Orientation::Exterior }
}

#[test]
fn lambertian_always_scatters_with_its_albedo() {
    let albedo = c(0.8, 0.3, 0.1);
    let material = Lambertian::new(&albedo);
    let surface = floor_at_origin();

    let (ray, attenuation) = material.scatter(&surface, v(0.3, 1.2, -0.4)).unwrap();
    assert_eq!(channels(&attenuation), [0.8, 0.3, 0.1]);
    assert_eq!(triple(ray.origin()), [0.0, 0.0, 0.0]);
    assert_eq!(triple(ray.direction()), [0.3, 1.2, -0.4]);

    let (ray, attenuation) = material.scatter(&surface, v(1e-9, -1e-9, 0.0)).unwrap();
    assert_eq!(channels(&attenuation), [0.8, 0.3, 0.1]);
    assert_eq!(triple(ray.direction()), [0.0, 1.0, 0.0]);

    let (ray, _) = material.scatter(&surface, v(1e-9, 1e-8, 0.0)).unwrap();
    assert_eq!(triple(ray.direction()), [1e-9, 1e-8, 0.0]);
}

#[test]
fn metal_absorbs_what_would_return_into_the_surface() {
    let albedo = c(0.6, 0.6, 0.2);
    let material = Metallic::new(&albedo, r(0.0));
    let surface = floor_at_origin();

    for facing in [0.0, -0.0, -0.7, f64::NEG_INFINITY, f64::NAN] {
        assert!(material.scatter(&surface, v(1.0, -0.7, 0.0), r(facing)).is_none());
    }

    let (ray, attenuation) = material.scatter(&surface, v(1.0, 0.7, 0.0), r(0.7)).unwrap();
    assert_eq!(channels(&attenuation), [0.6, 0.6, 0.2]);
    assert_eq!(triple(ray.origin()), [0.0, 0.0, 0.0]);
    assert_eq!(triple(ray.direction()), [1.0, 0.7, 0.0]);
    assert!(material.scatter(&surface, v(1.0, 0.7, 0.0), r(5e-324)).is_some());
}

#[test]
fn metal_fuzz_is_at_most_one() {
    let albedo = c(0.5, 0.5, 0.5);
    let fuzz = |x: f64| f64::from_bits(Metallic::new(&albedo, r(x)).fuzz().to_bits());
    assert_eq!(fuzz(0.0), 0.0);
    assert_eq!(fuzz(0.3), 0.3);
    assert_eq!(fuzz(1.0), 1.0);
    assert_eq!(fuzz(1.5), 1.0);
    assert_eq!(fuzz(f64::INFINITY), 1.0);
    assert_eq!(fuzz(f64::NAN), 1.0);
    assert_eq!(fuzz(-2.0), -2.0);
}

#[test]
fn dielectric_reflects_or_refracts_and_never_dims() {
    let glass = Dielectric::new(r(1.5));
    let surface = floor_at_origin();
    let reflected = v(1.0, 1.0, 0.0);
    let refracted = v(1.0, -1.0, 0.0);
    let direction = |ratio_sine: f64, reflectance: f64, draw: f64| {
        let (ray, attenuation) = glass
            .scatter(&surface, r(ratio_sine), r(reflectance), r(draw), reflected, refracted)
            .unwrap();
        assert_eq!(channels(&attenuation), [1.0, 1.0, 1.0]);
        assert_eq!(triple(ray.origin()), [0.0, 0.0, 0.0]);
        triple(ray.direction())
    };
    assert_eq!(direction(1.2, 0.0, 0.9), [1.0, 1.0, 0.0]);
    assert_eq!(direction(1.0, 0.0, 0.9), [1.0, -1.0, 0.0]);
    assert_eq!(direction(0.4, 0.95, 0.9), [1.0, 1.0, 0.0]);
    assert_eq!(direction(0.4, 0.9, 0.9), [1.0, -1.0, 0.0]);
    assert_eq!(direction(0.4, 0.04, 0.9), [1.0, -1.0, 0.0]);
    assert_eq!(direction(f64::NAN, f64::NAN, 0.9), [1.0, -1.0, 0.0]);
}

#[test]
fn dielectric_ratio_follows_the_orientation() {
    let glass = Dielectric::new(r(1.5));
    let reciprocal = r(1.0 / 1.5);
    let ratio = |o: Orientation| f64::from_bits(glass.ratio(o, reciprocal).to_bits());
    assert_eq!(ratio(Orientation::Exterior), 1.0 / 1.5);
    assert_eq!(ratio(Orientation::Interior), 1.5);
    assert_eq!(f64::from_bits(glass.refractive_index().to_bits()), 1.5);
}

#[test]
fn random_lambertian_absorbs_up_to_its_threshold() {
    let albedo = c(0.4, 0.4, 0.4);
    let rescaled = c(0.8, 0.8, 0.8);
    let surface = floor_at_origin();

    let plain = LambertianRandom::new(&albedo, r(0.5), false, &rescaled);
    assert!(plain.scatter(&surface, r(0.2), v(0.0, 2.0, 0.0)).is_none());
    assert!(plain.scatter(&surface, r(0.5), v(0.0, 2.0, 0.0)).is_none());
    let (ray, attenuation) = plain.scatter(&surface, r(0.51), v(0.0, 2.0, 0.0)).unwrap();
    assert_eq!(channels(&attenuation), [0.4, 0.4, 0.4]);
    assert_eq!(triple(ray.direction()), [0.0, 2.0, 0.0]);
    let (ray, _) = plain.scatter(&surface, r(0.9), v(0.0, 0.0, 0.0)).unwrap();
    assert_eq!(triple(ray.direction()), [0.0, 1.0, 0.0]);

    let attenuated = LambertianRandom::new(&albedo, r(0.5), true, &rescaled);
    let (_, attenuation) = attenuated.scatter(&surface, r(0.75), v(0.0, 2.0, 0.0)).unwrap();
    assert_eq!(channels(&attenuation), [0.8, 0.8, 0.8]);
}

#[test]
fn normal_map_tints_by_what_it_is_given() {
    let map = NormalMap::new();
    let surface = floor_at_origin();
    let tint = c(0.0, 1.0, 0.0);
    let (ray, attenuation) = map.scatter(&surface, &tint, v(0.5, 1.5, 0.0)).unwrap();
    assert_eq!(channels(&attenuation), [0.0, 1.0, 0.0]);
    assert_eq!(triple(ray.direction()), [0.5, 1.5, 0.0]);
    let (ray, _) = map.scatter(&surface, &tint, v(0.0, 0.0, 1e-12)).unwrap();
    assert_eq!(triple(ray.direction()), [0.0, 1.0, 0.0]);
}

struct Void;

impl Material for Void {}

#[test]
fn a_material_absorbs_unless_it_says_otherwise() {
    let ray = Ray::new(v(0.0, 1.0, 0.0), v(0.0, -1.0, 0.0));
    assert!(Void.scatter(&ray, &floor_at_origin()).is_none());
}
