//! Approximate equality.
use vstd::prelude::*;

verus! {

/// Naive approximate partial equality.
pub trait AlmostPartialEq<Rhs = Self> where Rhs: Sized {
    /// What `almost_eq` decides.
    spec fn almost_eq_spec(&self, other: Rhs) -> bool;

    /// Value is almost equal to another value.
    fn almost_eq(&self, other: Rhs) -> (r: bool)
        ensures
            r == self.almost_eq_spec(other),
    ;

    /// What `almost_zero` decides.
    spec fn almost_zero_spec(&self) -> bool;

    /// Value is almost equal to zero.
    fn almost_zero(&self) -> (r: bool)
        ensures
            r == self.almost_zero_spec(),
    ;

    /// Value is almost not equal to another value.
    fn almost_ne(&self, other: Rhs) -> (r: bool)
        ensures
            r == !self.almost_eq_spec(other),
    {
        !self.almost_eq(other)
    }
}

} // verus!
