//! Intersections of rays with objects, and lists of objects.
use vstd::prelude::*;
use crate::interval::Interval;
use crate::material::Material;
use crate::ray::Ray;
use crate::scalar::Double;
use crate::vec3::{Point3, Vec3};

verus! {

/// Indicates a particular side of a closed polyhedron.
#[derive(Debug, Clone, Copy, PartialEq, Eq, PartialOrd, Ord, Structural)]
pub enum Orientation {
    /// The inside of a closed polyhedron.
    Interior,
    /// The outside of a closed polyhedron.
    Exterior,
}

/// The part of an intersection that a material decides on.
#[derive(Debug, Clone, Copy)]
pub struct Surface {
    /// The point of intersection.
    pub p: Point3,
    /// The surface normal at `p`, turned against the incoming ray.
    pub normal: Vec3,
    /// Orientation at which the intersection occurs.
    pub orientation: Orientation,
}

/// Information recorded at a ray-object intersection.
#[derive(Clone, Copy)]
pub struct HitRecord<'a> {
    /// The point of intersection.
    pub p: Point3,
    /// The surface normal at `p`, turned against the incoming ray.
    pub normal: Vec3,
    /// Reference to the object material.
    pub material: &'a dyn Material,
    /// Ray parameter on intersect.
    pub t: Double,
    /// Orientation at which the intersection occurs.
    pub orientation: Orientation,
}

impl<'a> HitRecord<'a> {
    /// Creates a new hit record from the outward normal at `p` and the
    /// `incidence` of the ray on it, which is the dot product of the ray's
    /// direction and the outward normal.
    ///
    /// Where the incidence is below zero the ray comes from outside and the
    /// outward normal opposes it. In every other case, that of a NaN too, the
    /// ray is taken to come from inside, and the normal is turned round.
    ///
    /// The record carries the reference to the material that it was given.
    /// The clause that says so holds of the body, but the verifier does not
    /// carry the identity of a reference to a material of unknown type across
    /// a call: a caller learns the point, the parameter, the normal and the
    /// orientation of the record, and nothing of its material.
    pub fn new(
        p: &Point3,
        normal: &Vec3,
        t: Double,
        incidence: Double,
        material: &'a dyn Material,
    ) -> (rec: Self)
        ensures
            rec.p == *p,
            rec.t == t,
            rec.material === material,
            incidence.lt_spec(Double::zero_spec()) ==> rec.normal == *normal && rec.orientation
                == Orientation::Exterior,
            !incidence.lt_spec(Double::zero_spec()) ==> rec.normal@ == normal.neg_spec()
                && rec.orientation == Orientation::Interior,
    {
        let (normal, orientation) = if incidence.lt(Double::zero()) {
            (*normal, Orientation::Exterior)
        } else {
            (normal.neg(), Orientation::Interior)
        };
        Self { p: *p, normal, material, t, orientation }
    }

    /// Ray parameter on intersect.
    pub fn t(&self) -> (t: Double)
        ensures
            t == self.t,
    {
        self.t
    }

    /// What the material of the object is asked to scatter from.
    pub open spec fn surface_spec(&self) -> Surface {
        Surface { p: self.p, normal: self.normal, orientation: self.orientation }
    }

    /// What the material of the object is asked to scatter from.
    pub fn surface(&self) -> (s: Surface)
        ensures
            s == self.surface_spec(),
    {
        Surface { p: self.p, normal: self.normal, orientation: self.orientation }
    }
}

/// The incidence of a ray on the normal that a hit record carries, given its
/// incidence on the outward normal: the same where that is below zero, and
/// its negative where the record has turned the normal round. Turning a
/// vector round turns the sign of its dot product with any other.
pub open spec fn opposing_incidence(incidence: Double) -> Double {
    if incidence.lt_spec(Double::zero_spec()) {
        incidence
    } else {
        incidence.neg_spec()
    }
}

/// The normal of a hit record never points along the ray: the incidence of
/// the ray on it is not above zero, and unless it is NaN it is zero or below.
/// The record is marked as interior exactly where the normal was turned.
pub proof fn lemma_normal_opposes_ray(incidence: Double)
    ensures
        !Double::zero_spec().lt_spec(opposing_incidence(incidence)),
        !incidence.is_nan_spec() ==> opposing_incidence(incidence).le_spec(Double::zero_spec()),
        opposing_incidence(incidence) == incidence <==> incidence.lt_spec(Double::zero_spec()),
{
}

/// Specifies how rays intersect geometry.
pub trait Hittable {
    /// What `hit` reports: an object meets a given ray within a given
    /// interval in one way.
    spec fn hit_spec(&self, ray: &Ray, ray_t: &Interval) -> Option<HitRecord<'_>>;

    /// An object reports only an intersection whose parameter lies strictly
    /// within the interval.
    proof fn lemma_hit_within(&self, ray: &Ray, ray_t: &Interval)
        ensures
            self.hit_spec(ray, ray_t) matches Some(rec) ==> ray_t.surrounds_spec(rec.t),
    ;

    /// An object answers an interval whose upper end is drawn in as it
    /// answers the whole interval, as far as that answer fits: a hit below
    /// the new upper end is reported as before, a hit at or beyond it is no
    /// longer reported, and nothing is reported under the narrowed interval
    /// that was not reported under the whole.
    proof fn lemma_hit_narrowed(&self, ray: &Ray, ray_t: &Interval, bound: Double)
        requires
            bound.le_spec(ray_t.max),
        ensures
            self.hit_spec(ray, ray_t) matches Some(rec) && rec.t.lt_spec(bound) ==> self.hit_spec(
                ray,
                &Interval { min: ray_t.min, max: bound },
            ) == self.hit_spec(ray, ray_t),
            self.hit_spec(ray, ray_t) matches Some(rec) && !rec.t.lt_spec(bound) ==> self.hit_spec(
                ray,
                &Interval { min: ray_t.min, max: bound },
            ) is None,
            self.hit_spec(ray, &Interval { min: ray_t.min, max: bound }) is Some ==> self.hit_spec(
                ray,
                &Interval { min: ray_t.min, max: bound },
            ) == self.hit_spec(ray, ray_t),
    ;

    /// Produces a hit record when an intersection occurs.
    fn hit(&self, ray: &Ray, ray_t: &Interval) -> (r: Option<HitRecord<'_>>)
        ensures
            r == self.hit_spec(ray, ray_t),
    ;
}

/// The nearest hit among the first `n` of `objects`, and the bound under
/// which a further object must hit to be nearer: the parameter of that hit,
/// or the upper end of `ray_t` where there is none yet. Each object is asked
/// for a hit between the lower end of `ray_t` and the bound that the objects
/// before it have left.
pub open spec fn scan<'a, T: Hittable>(objects: Seq<T>, ray: &Ray, ray_t: &Interval, n: int) -> (
    Option<HitRecord<'a>>,
    Double,
)
    decreases n,
{
    if n <= 0 {
        (None, ray_t.max)
    } else {
        let (nearest, bound) = scan(objects, ray, ray_t, n - 1);
        match objects[n - 1].hit_spec(ray, &Interval { min: ray_t.min, max: bound }) {
            Some(rec) => (Some(rec), rec.t),
            None => (nearest, bound),
        }
    }
}

/// List of objects that can be hit by rays.
pub struct HittableList<T: Hittable> {
    objects: Vec<T>,
}

impl<T: Hittable> View for HittableList<T> {
    type V = Seq<T>;

    /// The objects, in the order in which they were added.
    closed spec fn view(&self) -> Seq<T> {
        self.objects@
    }
}

impl<T: Hittable> HittableList<T> {
    /// Creates a new hittable list.
    pub fn new() -> (list: Self)
        ensures
            list@ == Seq::<T>::empty(),
    {
        Self { objects: Vec::new() }
    }

    /// Adds to hittable to the list.
    pub fn add(&mut self, object: T)
        ensures
            final(self)@ == old(self)@.push(object),
    {
        self.objects.push(object);
    }

    /// Clears the list.
    pub fn clear(&mut self)
        ensures
            final(self)@ == Seq::<T>::empty(),
    {
        self.objects.clear();
    }
}

impl<T: Hittable> Default for HittableList<T> {
    fn default() -> (list: Self)
        ensures
            list@ == Seq::<T>::empty(),
    {
        Self::new()
    }
}

/// After any number of objects the scan holds no hit and the upper end of
/// the interval as its bound, or a hit within the interval and that hit's
/// parameter as its bound.
pub proof fn lemma_scan_within<T: Hittable>(objects: Seq<T>, ray: &Ray, ray_t: &Interval, n: int)
    requires
        0 <= n <= objects.len(),
    ensures
        match scan(objects, ray, ray_t, n).0 {
            Some(rec) => ray_t.surrounds_spec(rec.t) && scan(objects, ray, ray_t, n).1 == rec.t,
            None => scan(objects, ray, ray_t, n).1 == ray_t.max,
        },
    decreases n,
{
    if n > 0 {
        lemma_scan_within(objects, ray, ray_t, n - 1);
        let bound = scan(objects, ray, ray_t, n - 1).1;
        objects[n - 1].lemma_hit_within(ray, &Interval { min: ray_t.min, max: bound });
    }
}

/// The place among the first `n` of `objects` of the object whose hit the
/// scan holds, or -1 where it holds none.
pub open spec fn scan_index<T: Hittable>(objects: Seq<T>, ray: &Ray, ray_t: &Interval, n: int) -> int
    decreases n,
{
    if n <= 0 {
        -1
    } else {
        let bound = scan(objects, ray, ray_t, n - 1).1;
        if objects[n - 1].hit_spec(ray, &Interval { min: ray_t.min, max: bound }) is Some {
            n - 1
        } else {
            scan_index(objects, ray, ray_t, n - 1)
        }
    }
}

/// Whether `best` is what the object at `k` reports under the whole interval,
/// no object among the first `n` reports a nearer hit under the whole
/// interval, and every object before `k` that reports one reports a farther
/// one: the nearest hit, and of equally near ones the first.
pub open spec fn nearest_at<'a, T: Hittable>(
    objects: Seq<T>,
    ray: &Ray,
    ray_t: &Interval,
    n: int,
    k: int,
    best: HitRecord<'a>,
) -> bool {
    &&& 0 <= k < n
    &&& objects[k].hit_spec(ray, ray_t) == Some(best)
    &&& forall|i: int|
        0 <= i < n ==> ((#[trigger] objects[i]).hit_spec(ray, ray_t) matches Some(seen)
            ==> best.t.le_spec(seen.t))
    &&& forall|i: int|
        0 <= i < k ==> ((#[trigger] objects[i]).hit_spec(ray, ray_t) matches Some(seen)
            ==> best.t.lt_spec(seen.t))
}

/// The scan of the first `n` objects holds the nearest of the hits that
/// they report under the whole interval, and of equally near ones the first;
/// it holds none exactly where none of them reports one.
pub proof fn lemma_scan_nearest<T: Hittable>(objects: Seq<T>, ray: &Ray, ray_t: &Interval, n: int)
    requires
        0 <= n <= objects.len(),
    ensures
        match scan(objects, ray, ray_t, n).0 {
            Some(best) => nearest_at(
                objects,
                ray,
                ray_t,
                n,
                scan_index(objects, ray, ray_t, n),
                best,
            ),
            None => forall|i: int|
                0 <= i < n ==> (#[trigger] objects[i]).hit_spec(ray, ray_t) is None,
        },
    decreases n,
{
    if n > 0 {
        lemma_scan_nearest(objects, ray, ray_t, n - 1);
        lemma_scan_within(objects, ray, ray_t, n - 1);
        let before = scan(objects, ray, ray_t, n - 1);
        let narrowed = Interval { min: ray_t.min, max: before.1 };
        let object = objects[n - 1];
        object.lemma_hit_within(ray, &narrowed);
        object.lemma_hit_within(ray, ray_t);
        match before.0 {
            None => {
                assert(narrowed == *ray_t);
            },
            Some(best) => {
                object.lemma_hit_narrowed(ray, ray_t, best.t);
                match object.hit_spec(ray, &narrowed) {
                    Some(rec) => {
                        assert forall|i: int| 0 <= i < n implies ((
                        #[trigger] objects[i]).hit_spec(ray, ray_t) matches Some(seen)
                            ==> rec.t.le_spec(seen.t) && (i < n - 1 ==> rec.t.lt_spec(seen.t))) by {
                            if i < n - 1 {
                                objects[i].lemma_hit_within(ray, ray_t);
                            }
                        }
                    },
                    None => {},
                }
            },
        }
    }
}

/// There is one nearest hit that is the first among equally near ones.
pub proof fn lemma_nearest_is_one<'a, T: Hittable>(
    objects: Seq<T>,
    ray: &Ray,
    ray_t: &Interval,
    n: int,
    k: int,
    best: HitRecord<'a>,
    l: int,
    other: HitRecord<'a>,
)
    requires
        nearest_at(objects, ray, ray_t, n, k, best),
        nearest_at(objects, ray, ray_t, n, l, other),
    ensures
        k == l,
        best == other,
{
    assert(objects[k].hit_spec(ray, ray_t) == Some(best));
    assert(objects[l].hit_spec(ray, ray_t) == Some(other));
}

/// The list reports the nearest of the hits that its objects report under
/// the whole interval: where any object reports a hit, the list reports one
/// that is not farther away, and what the list reports one of its objects
/// reports.
pub proof fn lemma_hit_is_nearest<T: Hittable>(
    list: HittableList<T>,
    ray: &Ray,
    ray_t: &Interval,
    i: int,
)
    requires
        0 <= i < list@.len(),
    ensures
        list@[i].hit_spec(ray, ray_t) matches Some(seen) ==> (list.hit_spec(
            ray,
            ray_t,
        ) matches Some(nearest) && nearest.t.le_spec(seen.t)),
        list.hit_spec(ray, ray_t) is Some ==> exists|k: int|
            0 <= k < list@.len() && (#[trigger] list@[k]).hit_spec(ray, ray_t) == list.hit_spec(
                ray,
                ray_t,
            ),
{
    lemma_scan_nearest(list@, ray, ray_t, list@.len() as int);
    if list.hit_spec(ray, ray_t) is Some {
        let k = scan_index(list@, ray, ray_t, list@.len() as int);
        assert(list@[k].hit_spec(ray, ray_t) == list.hit_spec(ray, ray_t));
    }
}

/// The list reports no hit exactly if none of its objects reports one under
/// the whole interval.
pub proof fn lemma_miss_is_total<T: Hittable>(
    list: HittableList<T>,
    ray: &Ray,
    ray_t: &Interval,
)
    ensures
        list.hit_spec(ray, ray_t) is None <==> forall|i: int|
            0 <= i < list@.len() ==> (#[trigger] list@[i]).hit_spec(ray, ray_t) is None,
{
    lemma_scan_nearest(list@, ray, ray_t, list@.len() as int);
    if list.hit_spec(ray, ray_t) is Some {
        let k = scan_index(list@, ray, ray_t, list@.len() as int);
        assert(list@[k].hit_spec(ray, ray_t) is Some);
    }
}

/// The order of the objects does not matter: two lists that hold the same
/// objects report the same hit, unless two different hits lie at the same
/// parameter, of which each list reports the one that it comes to first.
pub proof fn lemma_order_does_not_matter<T: Hittable>(
    a: HittableList<T>,
    b: HittableList<T>,
    ray: &Ray,
    ray_t: &Interval,
)
    requires
        forall|i: int| 0 <= i < a@.len() ==> b@.contains(#[trigger] a@[i]),
        forall|j: int| 0 <= j < b@.len() ==> a@.contains(#[trigger] b@[j]),
        forall|i: int, j: int|
            0 <= i < a@.len() && 0 <= j < a@.len() ==> ((#[trigger] a@[i]).hit_spec(
                ray,
                ray_t,
            ) matches Some(one) ==> ((#[trigger] a@[j]).hit_spec(ray, ray_t) matches Some(two)
                ==> (one.t.rank() == two.t.rank() ==> one == two))),
    ensures
        a.hit_spec(ray, ray_t) == b.hit_spec(ray, ray_t),
{
    let m = a@.len() as int;
    let n = b@.len() as int;
    lemma_scan_nearest(a@, ray, ray_t, m);
    lemma_scan_nearest(b@, ray, ray_t, n);
    lemma_scan_within(a@, ray, ray_t, m);
    lemma_scan_within(b@, ray, ray_t, n);
    match a.hit_spec(ray, ray_t) {
        Some(best) => {
            let k = scan_index(a@, ray, ray_t, m);
            assert(b@.contains(a@[k]));
            let j = choose|j: int| 0 <= j < n && b@[j] == a@[k];
            assert(b@[j].hit_spec(ray, ray_t) == Some(best));
            let other = b.hit_spec(ray, ray_t)->0;
            let l = scan_index(b@, ray, ray_t, n);
            assert(a@.contains(b@[l]));
            let i = choose|i: int| 0 <= i < m && a@[i] == b@[l];
            assert(a@[i].hit_spec(ray, ray_t) == Some(other));
            assert(a@[k].hit_spec(ray, ray_t) == Some(best));
            assert(best.t.rank() == other.t.rank());
        },
        None => {
            if b.hit_spec(ray, ray_t) is Some {
                let l = scan_index(b@, ray, ray_t, n);
                assert(a@.contains(b@[l]));
                let i = choose|i: int| 0 <= i < m && a@[i] == b@[l];
                assert(a@[i].hit_spec(ray, ray_t) is Some);
            }
        },
    }
}

/// A list answers a narrowed interval as each of its objects does.
proof fn lemma_list_narrowed<T: Hittable>(objects: Seq<T>, ray: &Ray, ray_t: &Interval, bound: Double)
    requires
        bound.le_spec(ray_t.max),
    ensures
        scan(objects, ray, ray_t, objects.len() as int).0 matches Some(rec) && rec.t.lt_spec(bound)
            ==> scan(
            objects,
            ray,
            &Interval { min: ray_t.min, max: bound },
            objects.len() as int,
        ).0 == scan(objects, ray, ray_t, objects.len() as int).0,
        scan(objects, ray, ray_t, objects.len() as int).0 matches Some(rec) && !rec.t.lt_spec(bound)
            ==> scan(
            objects,
            ray,
            &Interval { min: ray_t.min, max: bound },
            objects.len() as int,
        ).0 is None,
        scan(objects, ray, &Interval { min: ray_t.min, max: bound }, objects.len() as int).0
            is Some ==> scan(
            objects,
            ray,
            &Interval { min: ray_t.min, max: bound },
            objects.len() as int,
        ).0 == scan(objects, ray, ray_t, objects.len() as int).0,
{
    let n = objects.len() as int;
    let narrowed = Interval { min: ray_t.min, max: bound };
    lemma_scan_nearest(objects, ray, ray_t, n);
    lemma_scan_nearest(objects, ray, &narrowed, n);
    lemma_scan_within(objects, ray, ray_t, n);
    lemma_scan_within(objects, ray, &narrowed, n);
    let wide = scan(objects, ray, ray_t, n).0;
    let tight = scan(objects, ray, &narrowed, n).0;
    let k = scan_index(objects, ray, ray_t, n);
    let l = scan_index(objects, ray, &narrowed, n);
    if wide is Some {
        objects[k].lemma_hit_narrowed(ray, ray_t, bound);
    }
    if tight is Some {
        objects[l].lemma_hit_narrowed(ray, ray_t, bound);
        objects[l].lemma_hit_within(ray, &narrowed);
    }
    if tight is Some {
        let near = tight->0;
        // What the narrowed scan holds, its object reports under the whole
        // interval too, so that the whole scan holds a hit as well.
        assert(objects[l].hit_spec(ray, ray_t) == Some(near));
        let far = wide->0;
        assert(objects[k].hit_spec(ray, ray_t) == Some(far));
        assert(far.t.le_spec(near.t));
        assert(objects[k].hit_spec(ray, &narrowed) == Some(far));
        assert(near.t.le_spec(far.t));
        if k < l {
            assert(near.t.lt_spec(far.t));
        }
        if l < k {
            assert(far.t.lt_spec(near.t));
        }
    } else if wide is Some {
        let far = wide->0;
        if far.t.lt_spec(bound) {
            assert(objects[k].hit_spec(ray, &narrowed) == Some(far));
        }
    }
}

impl<T: Hittable> Hittable for HittableList<T> {
    /// The nearest hit that the scan of all objects finds.
    open spec fn hit_spec(&self, ray: &Ray, ray_t: &Interval) -> Option<HitRecord<'_>> {
        scan(self@, ray, ray_t, self@.len() as int).0
    }

    proof fn lemma_hit_within(&self, ray: &Ray, ray_t: &Interval) {
        lemma_scan_within(self@, ray, ray_t, self@.len() as int);
    }

    proof fn lemma_hit_narrowed(&self, ray: &Ray, ray_t: &Interval, bound: Double) {
        lemma_list_narrowed(self@, ray, ray_t, bound);
    }

    /// Scans every object, narrowing the interval's upper end to the nearest
    /// hit found so far, and reports that hit.
    fn hit(&self, ray: &Ray, ray_t: &Interval) -> (r: Option<HitRecord<'_>>) {
        let mut nearest: Option<HitRecord<'_>> = None;
        let mut bound: Double = ray_t.max();
        let mut i: usize = 0;
        while i < self.objects.len()
            invariant
                i <= self.objects.len(),
                (nearest, bound) == scan(self@, ray, ray_t, i as int),
            decreases self.objects.len() - i,
        {
            let narrowed = Interval::new(ray_t.min(), bound);
            match self.objects[i].hit(ray, &narrowed) {
                Some(rec) => {
                    bound = rec.t();
                    nearest = Some(rec);
                },
                None => {},
            }
            i = i + 1;
        }
        nearest
    }
}

} // verus!
