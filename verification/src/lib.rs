//! The decision core of a path-style ray tracer, and a PPM encoder.
//!
//! Every floating-point quantity is carried by its IEEE 754 bit pattern
//! ([`Double`] for binary64, [`Single`] for binary32). The library owns all that
//! depends on order, sign and exact integer structure alone: intervals, the
//! choice of the nearest intersection, the orientation of a hit, the rule by
//! which each material scatters or absorbs, the bounded walk of a path
//! through a scene, the order in which an image is rendered, the quantisation
//! of a colour, and the encoding of an image. Producing new floating-point
//! values (sums, products, roots, random samples) is the caller's part; the
//! results are handed in as arguments.
use vstd::prelude::*;

pub mod almost;
pub mod camera;
pub mod color;
pub mod decimal;
pub mod hittable;
pub mod image;
pub mod interval;
pub mod material;
pub mod netpbm;
pub mod ray;
pub mod scalar;
pub mod sphere;
pub mod sweep;
pub mod vec3;

pub use color::Color;
pub use interval::Interval;
pub use ray::Ray;
pub use scalar::{Double, Single};
pub use vec3::{Point3, Vec3};

verus! {

/// What went wrong, by the part of the library that refused.
#[derive(Debug, Clone)]
pub enum ErrorKind {
    /// A camera setting was rejected; the text says which and why.
    Camera(String),
}

/// An error of the rendering core.
#[derive(Debug, Clone)]
pub struct Error {
    kind: ErrorKind,
}

impl View for Error {
    type V = ErrorKind;

    closed spec fn view(&self) -> ErrorKind {
        self.kind
    }
}

impl Error {
    /// Wraps a kind.
    pub fn new(kind: ErrorKind) -> (e: Self)
        ensures
            e@ == kind,
    {
        Self { kind }
    }

    /// A camera error that carries `msg`.
    pub fn new_camera(msg: &str) -> (e: Self)
        ensures
            e@ matches ErrorKind::Camera(text) && text@ == msg@,
    {
        Self { kind: ErrorKind::Camera(msg.to_owned()) }
    }

    /// The kind of this error.
    pub fn kind(&self) -> (k: &ErrorKind)
        ensures
            *k == self@,
    {
        &self.kind
    }

    /// A fixed short name of the error's kind.
    pub fn description(&self) -> (s: &'static str)
        ensures
            s@ == "camera error"@,
    {
        match self.kind {
            ErrorKind::Camera(_) => "camera error",
        }
    }

    /// The message that the error carries.
    pub fn to_string(&self) -> (s: String)
        ensures
            self@ matches ErrorKind::Camera(text) && s@ == text@,
    {
        match &self.kind {
            ErrorKind::Camera(text) => text.clone(),
        }
    }
}

} // verus!
