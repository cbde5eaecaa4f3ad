use raytracer::ray::Ray;
use raytracer::scalar::Double;
use raytracer::vec3::{Point3, Vec3};

fn v3(x: f64, y: f64, z: f64) -> Vec3 {
    Vec3::new(
        Double::from_bits(x.to_bits()),
        Double::from_bits(y.to_bits()),
        Double::from_bits(z.to_bits()),
    )
}

fn parts(v: &Vec3) -> [f64; 3] {
    [
        f64::from_bits(v.get(0).to_bits()),
        f64::from_bits(v.get(1).to_bits()),
        f64::from_bits(v.get(2).to_bits()),
    ]
}

#[test]
fn vec3_components() {
    let v = v3(1.0, 2.0, 3.0);
    assert_eq!(f64::from_bits(v.get(0).to_bits()), 1.0);
    assert_eq!(f64::from_bits(v.get(1).to_bits()), 2.0);
    assert_eq!(f64::from_bits(v.get(2).to_bits()), 3.0);

    let v = v3(4.0, 5.0, 6.0);
    assert_eq!(f64::from_bits(v.get(0).to_bits()), 4.0);
    assert_eq!(f64::from_bits(v.get(1).to_bits()), 5.0);
    assert_eq!(f64::from_bits(v.get(2).to_bits()), 6.0);
}

#[test]
fn vec3_almost_zero() {
    let u = v3(0.0, 0.0, 0.0);
    assert!(u.almost_zero());

    let u = v3(0.0, 0.001, 0.0);
    assert!(!u.almost_zero());

    let u = v3(0.0, 1e-10, 0.0);
    assert!(u.almost_zero());
}

#[test]
fn vec3_getters_and_negation() {
    let v = v3(1.0, -2.0, 0.0);
    assert_eq!(f64::from_bits(v.x().to_bits()), 1.0);
    assert_eq!(f64::from_bits(v.y().to_bits()), -2.0);
    assert_eq!(f64::from_bits(v.z().to_bits()), 0.0);
    let n = v.neg();
    assert_eq!(n.x().to_bits(), (-1.0f64).to_bits());
    assert_eq!(n.y().to_bits(), 2.0f64.to_bits());
    assert_eq!(n.z().to_bits(), (-0.0f64).to_bits());
    assert!(!v3(0.0, f64::NAN, 0.0).almost_zero());
    assert!(v3(-9e-9, 9e-9, -0.0).almost_zero());
}

#[test]
fn ray_general() {
    let origin: Point3 = v3(1.0, 2.0, 3.0);
    let ray = Ray::new(origin, v3(4.0, 5.0, 6.0));
    let orig = ray.origin();
    assert_eq!(parts(orig), [1.0, 2.0, 3.0]);
    let dir = ray.direction();
    assert_eq!(parts(dir), [4.0, 5.0, 6.0]);
}

fn almost_eq(a: &Vec3, b: &Vec3) -> bool {
    let [ax, ay, az] = parts(a);
    let [bx, by, bz] = parts(b);
    v3(ax - bx, ay - by, az - bz).almost_zero()
}

#[test]
fn vec3_almost_equal() {
    let v = v3(1.0, 2.0, 3.0);
    let w = v3(4.0, 5.0, 6.0);
    let x = v3(-1.0, -2.0, -3.0);

    assert!(almost_eq(&v, &v));
    assert!(!almost_eq(&v, &w));
    assert!(!almost_eq(&v, &x));

    assert!(almost_eq(&w, &w));
    assert!(!almost_eq(&w, &v));
    assert!(!almost_eq(&w, &x));

    assert!(almost_eq(&x, &x));
    assert!(!almost_eq(&x, &v));
    assert!(!almost_eq(&x, &w));

    let w = v3(1.0 + 1e-7, 2.0, 3.0);
    let x = v3(1.0 + 1e-11, 2.0, 3.0);

    assert!(almost_eq(&v, &v));
    assert!(!almost_eq(&v, &w));
    assert!(almost_eq(&v, &x));
}
