use raytracer::camera::{bounce, initial_t_bound, trace, Bounce, PathEnd};
use raytracer::color::Color;
use raytracer::hittable::{HitRecord, Hittable, HittableList, Orientation, Surface};
use raytracer::interval::Interval;
use raytracer::material::Material;
use raytracer::ray::Ray;
use raytracer::scalar::{Double, Single};
use raytracer::sphere::nearest_root;
use raytracer::vec3::Vec3;

fn n(x: f64) -> Double {
    Double::from_bits(x.to_bits())
}

fn f(x: Double) -> f64 {
    f64::from_bits(x.to_bits())
}

fn vec(x: f64, y: f64, z: f64) -> Vec3 {
    Vec3::new(n(x), n(y), n(z))
}

fn xyz(v: &Vec3) -> [f64; 3] {
    [f(v.x()), f(v.y()), f(v.z())]
}

fn grey(level: f32) -> Color {
    let c = Single::from_bits(level.to_bits());
    Color::new(c, c, c)
}

/// Absorbs every ray: it keeps the method that the trait provides.
struct Soot;

impl Material for Soot {}

/// Sends every ray straight on, dimmed.
struct Glass {
    dim: f32,
}

impl Material for Glass {
    // The ghost item of the trait: no call of it is ever compiled.
    fn scatters(&self, _: &Ray, _: &Surface, _: Ray, _: Color) -> bool {
        unreachable!()
    }

    fn scatter(&self, ray: &Ray, surface: &Surface) -> Option<(Ray, Color)> {
        Some((Ray::new(surface.p, *ray.direction()), grey(self.dim)))
    }
}

/// A plane across the x axis at `at`, hit by a ray along x from below it.
struct Wall<M: Material> {
    at: f64,
    material: M,
}

impl<M: Material> Hittable for Wall<M> {
    // The ghost items of the trait: no call of them is ever compiled.
    fn hit_spec(&self, _: &Ray, _: &Interval) -> Option<HitRecord<'_>> {
        unreachable!()
    }

    fn lemma_hit_within(&self, _: &Ray, _: &Interval) {}

    fn lemma_hit_narrowed(&self, _: &Ray, _: &Interval, _: Double) {}

    fn hit(&self, ray: &Ray, ray_t: &Interval) -> Option<HitRecord<'_>> {
        let t = n(self.at - f(ray.origin().x()));
        if !ray_t.surrounds(t) {
            return None;
        }
        let p = vec(self.at, 0.0, 0.0);
        Some(HitRecord::new(&p, &vec(-1.0, 0.0, 0.0), t, n(-1.0), &self.material))
    }
}

fn along_x() -> Ray {
    Ray::new(vec(0.0, 0.0, 0.0), vec(1.0, 0.0, 0.0))
}

#[test]
fn empty_list_hits_nothing() {
    let list: HittableList<Wall<Soot>> = HittableList::new();
    assert!(list.hit(&along_x(), &Interval::universe()).is_none());
    let list: HittableList<Wall<Soot>> = HittableList::default();
    assert!(list.hit(&along_x(), &initial_t_bound()).is_none());
}

#[test]
fn list_reports_the_nearest_hit_in_any_order() {
    let orders: [[f64; 4]; 4] = [
        [5.0, 2.0, 9.0, 3.0],
        [2.0, 3.0, 5.0, 9.0],
        [9.0, 5.0, 3.0, 2.0],
        [3.0, 9.0, 2.0, 5.0],
    ];
    for order in orders {
        let mut list = HittableList::new();
        for at in order {
            list.add(Wall { at, material: Soot });
        }
        let rec = list.hit(&along_x(), &initial_t_bound()).unwrap();
        assert_eq!(f(rec.t()), 2.0);
        assert_eq!(xyz(&rec.p), [2.0, 0.0, 0.0]);
    }
}

#[test]
fn list_keeps_to_the_interval() {
    let mut list = HittableList::new();
    list.add(Wall { at: 2.0, material: Soot });
    list.add(Wall { at: 7.0, material: Soot });
    let rec = list.hit(&along_x(), &Interval::new(n(2.0), n(100.0))).unwrap();
    assert_eq!(f(rec.t()), 7.0);
    assert!(list.hit(&along_x(), &Interval::new(n(2.0), n(7.0))).is_none());
    assert!(list.hit(&along_x(), &Interval::new(n(7.5), n(f64::INFINITY))).is_none());
    assert!(list.hit(&along_x(), &Interval::empty()).is_none());
    list.clear();
    assert!(list.hit(&along_x(), &Interval::universe()).is_none());
}

#[test]
fn list_of_lists_is_hittable() {
    let mut near = HittableList::new();
    near.add(Wall { at: 4.0, material: Soot });
    let mut far = HittableList::new();
    far.add(Wall { at: 6.0, material: Soot });
    far.add(Wall { at: 3.0, material: Soot });
    let mut world = HittableList::new();
    world.add(near);
    world.add(far);
    let rec = world.hit(&along_x(), &initial_t_bound()).unwrap();
    assert_eq!(f(rec.t()), 3.0);
}

#[test]
fn hit_record_turns_the_normal_against_the_ray() {
    let p = vec(1.0, 2.0, 3.0);
    let normal = vec(0.0, 1.0, -0.5);
    let soot = Soot;

    let rec = HitRecord::new(&p, &normal, n(4.0), n(-0.25), &soot);
    assert_eq!(rec.orientation, Orientation::Exterior);
    assert_eq!(xyz(&rec.normal), [0.0, 1.0, -0.5]);
    assert_eq!(xyz(&rec.p), [1.0, 2.0, 3.0]);
    assert_eq!(f(rec.t()), 4.0);

    for incidence in [0.25, 0.0, -0.0, f64::NAN, f64::INFINITY] {
        let rec = HitRecord::new(&p, &normal, n(4.0), n(incidence), &soot);
        assert_eq!(rec.orientation, Orientation::Interior);
        assert_eq!(rec.normal.x().to_bits(), (-0.0f64).to_bits());
        assert_eq!(f(rec.normal.y()), -1.0);
        assert_eq!(f(rec.normal.z()), 0.5);
    }

    let rec = HitRecord::new(&p, &normal, n(4.0), n(1.0), &soot);
    let surface = rec.surface();
    assert_eq!(xyz(&surface.p), [1.0, 2.0, 3.0]);
    assert_eq!(xyz(&surface.normal), xyz(&rec.normal));
    assert_eq!(surface.orientation, Orientation::Interior);
}

#[test]
fn nearest_root_prefers_the_near_one() {
    let bound = initial_t_bound();
    assert_eq!(nearest_root(&bound, n(1.0), n(0.5), n(1.5)).map(f), Some(0.5));
    assert_eq!(nearest_root(&bound, n(1.0), n(-0.5), n(1.5)).map(f), Some(1.5));
    assert_eq!(nearest_root(&bound, n(1.0), n(0.001), n(1.5)).map(f), Some(1.5));
    assert_eq!(nearest_root(&bound, n(1.0), n(-1.5), n(-0.5)).map(f), None);
    assert_eq!(nearest_root(&bound, n(-1.0), n(0.5), n(1.5)).map(f), None);
    assert_eq!(nearest_root(&bound, n(0.0), n(0.5), n(0.5)).map(f), Some(0.5));
    assert_eq!(nearest_root(&bound, n(-0.0), n(0.5), n(0.5)).map(f), Some(0.5));
    assert_eq!(nearest_root(&bound, n(1.0), n(f64::NAN), n(f64::NAN)).map(f), None);
    assert_eq!(nearest_root(&bound, n(1.0), n(f64::NAN), n(2.0)).map(f), Some(2.0));
    let narrow = Interval::new(n(1.0), n(2.0));
    assert_eq!(nearest_root(&narrow, n(4.0), n(1.0), n(2.0)).map(f), None);
    assert_eq!(nearest_root(&narrow, n(4.0), n(1.0), n(1.5)).map(f), Some(1.5));
}

#[test]
fn a_path_of_no_depth_is_exhausted_at_once() {
    let mut world = HittableList::new();
    world.add(Wall { at: 2.0, material: Glass { dim: 0.5 } });
    let path = trace(&along_x(), 0, &world);
    assert_eq!(path.end, PathEnd::Exhausted);
    assert!(path.attenuations.is_empty());
    assert_eq!(xyz(path.last.origin()), [0.0, 0.0, 0.0]);
    assert_eq!(path.end.color().unwrap().to_rgb24(), [0, 0, 0]);
    assert_eq!(path.end.color().unwrap().r().to_bits(), 0);
    assert!(PathEnd::Absorbed.color().unwrap().is_almost_zero());
    assert!(PathEnd::Escaped.color().is_none());
    let empty: HittableList<Wall<Glass>> = HittableList::new();
    assert_eq!(trace(&along_x(), 0, &empty).end, PathEnd::Exhausted);
}

#[test]
fn a_path_escapes_absorbs_or_runs_out() {
    let empty: HittableList<Wall<Soot>> = HittableList::new();
    let path = trace(&along_x(), 5, &empty);
    assert_eq!(path.end, PathEnd::Escaped);
    assert!(path.attenuations.is_empty());

    let mut dark = HittableList::new();
    dark.add(Wall { at: 2.0, material: Soot });
    let path = trace(&along_x(), 5, &dark);
    assert_eq!(path.end, PathEnd::Absorbed);
    assert!(path.attenuations.is_empty());
    assert_eq!(xyz(path.last.origin()), [0.0, 0.0, 0.0]);

    let mut panes = HittableList::new();
    panes.add(Wall { at: 6.0, material: Glass { dim: 0.25 } });
    panes.add(Wall { at: 2.0, material: Glass { dim: 0.5 } });
    panes.add(Wall { at: 4.0, material: Glass { dim: 0.75 } });
    let path = trace(&along_x(), 5, &panes);
    assert_eq!(path.end, PathEnd::Escaped);
    let dims: Vec<f32> = path.attenuations.iter().map(|c| f32::from_bits(c.r().to_bits())).collect();
    assert_eq!(dims, vec![0.5, 0.75, 0.25]);
    assert_eq!(xyz(path.last.origin()), [6.0, 0.0, 0.0]);

    let path = trace(&along_x(), 2, &panes);
    assert_eq!(path.end, PathEnd::Exhausted);
    assert_eq!(path.attenuations.len(), 2);
    assert_eq!(xyz(path.last.origin()), [4.0, 0.0, 0.0]);

    let path = trace(&along_x(), 3, &panes);
    assert_eq!(path.end, PathEnd::Exhausted);
    assert_eq!(path.attenuations.len(), 3);
}

#[test]
fn bounce_follows_or_finishes() {
    assert!(matches!(bounce(None), Bounce::Finish(PathEnd::Absorbed)));
    let next = bounce(Some((along_x(), grey(0.5))));
    match next {
        Bounce::Follow(ray, attenuation) => {
            assert_eq!(xyz(ray.direction()), [1.0, 0.0, 0.0]);
            assert_eq!(f32::from_bits(attenuation.g().to_bits()), 0.5);
        }
        Bounce::Finish(_) => panic!("a scattered ray is followed"),
    }
}

#[test]
fn hits_count_from_a_thousandth() {
    let bound = initial_t_bound();
    assert_eq!(f(bound.min()), 0.001);
    assert_eq!(f(bound.max()), f64::INFINITY);
    assert!(!bound.surrounds(n(0.001)));
    assert!(bound.surrounds(n(0.0010000000000000002)));
}

#[test]
fn a_depth_of_one_allows_one_look_at_the_world() {
    let empty: HittableList<Wall<Glass>> = HittableList::new();
    let path = trace(&along_x(), 1, &empty);
    assert_eq!(path.end, PathEnd::Escaped);
    assert!(path.attenuations.is_empty());
    assert_eq!(xyz(path.last.origin()), [0.0, 0.0, 0.0]);
    assert_eq!(xyz(path.last.direction()), [1.0, 0.0, 0.0]);
    assert!(path.end.color().is_none());

    let mut pane = HittableList::new();
    pane.add(Wall { at: 2.0, material: Glass { dim: 0.5 } });
    let path = trace(&along_x(), 1, &pane);
    assert_eq!(path.end, PathEnd::Exhausted);
    assert_eq!(path.attenuations.len(), 1);
    assert_eq!(f32::from_bits(path.attenuations[0].r().to_bits()), 0.5);
    assert_eq!(xyz(path.last.origin()), [2.0, 0.0, 0.0]);
    assert_eq!(path.end.color().unwrap().to_rgb24(), [0, 0, 0]);
}

#[test]
fn list_reports_the_hit_of_the_nearest_object_whole() {
    let mut list = HittableList::new();
    list.add(Wall { at: 7.0, material: Glass { dim: 0.75 } });
    list.add(Wall { at: 3.0, material: Glass { dim: 0.25 } });
    list.add(Wall { at: 5.0, material: Glass { dim: 0.5 } });
    let ray = along_x();
    let bound = initial_t_bound();
    let rec = list.hit(&ray, &bound).unwrap();
    let own = Wall { at: 3.0, material: Glass { dim: 0.25 } };
    let alone = own.hit(&ray, &bound).unwrap();
    assert_eq!(f(rec.t()), f(alone.t()));
    assert_eq!(xyz(&rec.p), xyz(&alone.p));
    assert_eq!(xyz(&rec.normal), xyz(&alone.normal));
    assert_eq!(rec.orientation, alone.orientation);
    let (_, dim) = rec.material.scatter(&ray, &rec.surface()).unwrap();
    assert_eq!(f32::from_bits(dim.r().to_bits()), 0.25);
    for at in [7.0, 3.0, 5.0] {
        let wall = Wall { at, material: Soot };
        let other = wall.hit(&ray, &bound).unwrap();
        assert!(rec.t().le(other.t()));
    }

    let narrow = Interval::new(n(4.0), n(6.0));
    let rec = list.hit(&ray, &narrow).unwrap();
    assert_eq!(f(rec.t()), 5.0);
    let (_, dim) = rec.material.scatter(&ray, &rec.surface()).unwrap();
    assert_eq!(f32::from_bits(dim.r().to_bits()), 0.5);
}
