//! Rays: half-lines from an origin along a direction.
use vstd::prelude::*;
use crate::vec3::{Point3, Vec3};

verus! {

/// 3-D ray.
#[derive(Debug, Clone, Copy)]
pub struct Ray {
    origin: Point3,
    direction: Vec3,
}

impl View for Ray {
    type V = (Point3, Vec3);

    /// The origin and the direction.
    closed spec fn view(&self) -> (Point3, Vec3) {
        (self.origin, self.direction)
    }
}

impl Ray {
    /// Creates a new ray.
    pub fn new(origin: Point3, direction: Vec3) -> (ray: Self)
        ensures
            ray@ == (origin, direction),
    {
        Self { origin, direction }
    }

    /// Retrieves the ray's origin.
    pub fn origin(&self) -> (p: &Point3)
        ensures
            *p == self@.0,
    {
        &self.origin
    }

    /// Retrieves the ray's direction.
    pub fn direction(&self) -> (v: &Vec3)
        ensures
            *v == self@.1,
    {
        &self.direction
    }
}

} // verus!
