//! Spheres: which root of the intersection quadratic a ray is taken to hit.
use vstd::prelude::*;
use crate::interval::Interval;
use crate::scalar::Double;

verus! {

/// The ray parameter at which a sphere is hit, from the discriminant of the
/// intersection quadratic and its two roots, `near` being the smaller.
///
/// A discriminant below zero means that the ray misses. Otherwise the near
/// root is taken where the interval surrounds it, else the far root where the
/// interval surrounds that, else the ray misses.
pub open spec fn nearest_root_spec(
    ray_t: &Interval,
    discriminant: Double,
    near: Double,
    far: Double,
) -> Option<Double> {
    if discriminant.lt_spec(Double::zero_spec()) {
        None
    } else if ray_t.surrounds_spec(near) {
        Some(near)
    } else if ray_t.surrounds_spec(far) {
        Some(far)
    } else {
        None
    }
}

/// The ray parameter at which a sphere is hit, if it is.
pub fn nearest_root(ray_t: &Interval, discriminant: Double, near: Double, far: Double) -> (root:
    Option<Double>)
    ensures
        root == nearest_root_spec(ray_t, discriminant, near, far),
{
    if discriminant.lt(Double::zero()) {
        return None;
    }
    if ray_t.surrounds(near) {
        Some(near)
    } else if ray_t.surrounds(far) {
        Some(far)
    } else {
        None
    }
}

/// A root that is reported lies strictly within the interval and is one of
/// the two; and of two roots that both lie within, the near one is reported.
pub proof fn lemma_nearest_root(ray_t: &Interval, discriminant: Double, near: Double, far: Double)
    ensures
        nearest_root_spec(ray_t, discriminant, near, far) matches Some(root) ==> (
        ray_t.surrounds_spec(root) && (root == near || root == far)),
        !discriminant.lt_spec(Double::zero_spec()) && ray_t.surrounds_spec(near)
            ==> nearest_root_spec(ray_t, discriminant, near, far) == Some(near),
        nearest_root_spec(ray_t, discriminant, near, far) is None <==> (discriminant.lt_spec(
            Double::zero_spec(),
        ) || (!ray_t.surrounds_spec(near) && !ray_t.surrounds_spec(far))),
{
}

/// The choice of the root goes along with a narrowed interval, as the
/// protocol of hits asks of every object: with the near root not above the
/// far one, a root below the new upper end is chosen as before, a root at or
/// beyond it leaves none to choose, and no root is chosen under the narrowed
/// interval that was not chosen under the whole.
pub proof fn lemma_nearest_root_narrowed(
    ray_t: &Interval,
    bound: Double,
    discriminant: Double,
    near: Double,
    far: Double,
)
    requires
        bound.le_spec(ray_t.max),
        !far.lt_spec(near),
    ensures
        nearest_root_spec(ray_t, discriminant, near, far) matches Some(root) && root.lt_spec(bound)
            ==> nearest_root_spec(
            &Interval { min: ray_t.min, max: bound },
            discriminant,
            near,
            far,
        ) == nearest_root_spec(ray_t, discriminant, near, far),
        nearest_root_spec(ray_t, discriminant, near, far) matches Some(root) && !root.lt_spec(bound)
            ==> nearest_root_spec(
            &Interval { min: ray_t.min, max: bound },
            discriminant,
            near,
            far,
        ) is None,
        nearest_root_spec(&Interval { min: ray_t.min, max: bound }, discriminant, near, far)
            is Some ==> nearest_root_spec(
            &Interval { min: ray_t.min, max: bound },
            discriminant,
            near,
            far,
        ) == nearest_root_spec(ray_t, discriminant, near, far),
{
}

} // verus!
