//! Three binary64 components: a direction, or a point in space.
use vstd::prelude::*;
use crate::scalar::Double;

verus! {

/// 3-D vector.
#[derive(Debug, Clone, Copy)]
pub struct Vec3 {
    /// Array of vector components.
    components: [Double; 3],
}

/// A point in space.
pub type Point3 = Vec3;

impl View for Vec3 {
    type V = Seq<Double>;

    /// The three components, `x` first.
    closed spec fn view(&self) -> Seq<Double> {
        self.components@
    }
}

impl Vec3 {
    /// Whether every component is within the tolerance of zero.
    pub open spec fn almost_zero_spec(&self) -> bool {
        self@[0].almost_zero_spec() && self@[1].almost_zero_spec() && self@[2].almost_zero_spec()
    }

    /// The vector with the sign of every component flipped.
    pub open spec fn neg_spec(&self) -> Seq<Double> {
        seq![self@[0].neg_spec(), self@[1].neg_spec(), self@[2].neg_spec()]
    }

    /// Creates a new 3-D vector.
    pub fn new(x: Double, y: Double, z: Double) -> (v: Self)
        ensures
            v@ == seq![x, y, z],
    {
        let v = Self { components: [x, y, z] };
        assert(v@ =~= seq![x, y, z]);
        v
    }

    /// Retrieves x component.
    pub fn x(&self) -> (c: Double)
        ensures
            c == self@[0],
    {
        self.components[0]
    }

    /// Retrieves y component.
    pub fn y(&self) -> (c: Double)
        ensures
            c == self@[1],
    {
        self.components[1]
    }

    /// Retrieves z component.
    pub fn z(&self) -> (c: Double)
        ensures
            c == self@[2],
    {
        self.components[2]
    }

    /// Retrieves the component at `i`: 0 for x, 1 for y, 2 for z.
    pub fn get(&self, i: usize) -> (c: Double)
        requires
            i < 3,
        ensures
            c == self@[i as int],
    {
        self.components[i]
    }

    /// Determines whether the given vector is approximately the zero vector.
    pub fn almost_zero(&self) -> (r: bool)
        ensures
            r == self.almost_zero_spec(),
    {
        self.components[0].almost_zero() && self.components[1].almost_zero()
            && self.components[2].almost_zero()
    }

    /// The vector that points the opposite way.
    pub fn neg(&self) -> (v: Self)
        ensures
            v@ == self.neg_spec(),
    {
        Self::new(self.components[0].neg(), self.components[1].neg(), self.components[2].neg())
    }
}

/// A vector has three components.
pub proof fn lemma_three_components(v: Vec3)
    ensures
        v@.len() == 3,
{
}

} // verus!
