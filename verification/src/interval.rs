//! Ranges of binary64 values.
use vstd::prelude::*;
use crate::scalar::Double;

verus! {

/// The values from `min` to `max`. It holds nothing where `min` is above
/// `max` or either bound is NaN.
#[derive(Debug, Clone, Copy)]
pub struct Interval {
    /// Minimum of the interval.
    pub min: Double,
    /// Maximum of the interval.
    pub max: Double,
}

impl Interval {
    /// Whether `x` is in `[min, max]`.
    pub open spec fn contains_spec(&self, x: Double) -> bool {
        self.min.le_spec(x) && x.le_spec(self.max)
    }

    /// Whether `x` is in `(min, max)`.
    pub open spec fn surrounds_spec(&self, x: Double) -> bool {
        self.min.lt_spec(x) && x.lt_spec(self.max)
    }

    /// Whether `x` is in `[min, max)`.
    pub open spec fn surrounds_or_min_spec(&self, x: Double) -> bool {
        self.min.le_spec(x) && x.lt_spec(self.max)
    }

    /// Whether `x` is in `(min, max]`.
    pub open spec fn surrounds_or_max_spec(&self, x: Double) -> bool {
        self.min.lt_spec(x) && x.le_spec(self.max)
    }

    /// The lower bound for a value below it, else the upper bound for a
    /// value above it, else the value itself. A NaN is neither below nor
    /// above and stays.
    pub open spec fn clamp_spec(&self, x: Double) -> Double {
        if x.lt_spec(self.min) {
            self.min
        } else if self.max.lt_spec(x) {
            self.max
        } else {
            x
        }
    }

    /// Creates a new interval.
    pub fn new(min: Double, max: Double) -> (interval: Self)
        ensures
            interval.min == min,
            interval.max == max,
    {
        Self { min, max }
    }

    /// The interval from positive to negative infinity, which holds nothing.
    pub fn empty() -> (interval: Self)
        ensures
            interval.min == Double::infinity_spec(),
            interval.max == Double::neg_infinity_spec(),
    {
        Self::new(Double::infinity(), Double::neg_infinity())
    }

    /// The interval from negative to positive infinity, which holds every
    /// number.
    pub fn universe() -> (interval: Self)
        ensures
            interval.min == Double::neg_infinity_spec(),
            interval.max == Double::infinity_spec(),
    {
        Self::new(Double::neg_infinity(), Double::infinity())
    }

    /// Retrieves the minimum of the interval.
    pub fn min(&self) -> (x: Double)
        ensures
            x == self.min,
    {
        self.min
    }

    /// Retrieves the maximum of the interval.
    pub fn max(&self) -> (x: Double)
        ensures
            x == self.max,
    {
        self.max
    }

    /// Checks whether `x` is in `[min, max]` (bounds-inclusive).
    pub fn contains(&self, x: Double) -> (r: bool)
        ensures
            r == self.contains_spec(x),
    {
        self.min.le(x) && x.le(self.max)
    }

    /// Checks whether `x` is in `(min, max)` (bounds-exclusive).
    pub fn surrounds(&self, x: Double) -> (r: bool)
        ensures
            r == self.surrounds_spec(x),
    {
        self.min.lt(x) && x.lt(self.max)
    }

    /// Checks whether `x` is in `[min, max)` (lower bound-inclusive, upper
    /// bound-exclusive).
    pub fn surrounds_or_min(&self, x: Double) -> (r: bool)
        ensures
            r == self.surrounds_or_min_spec(x),
    {
        self.min.le(x) && x.lt(self.max)
    }

    /// Checks whether `x` is in `(min, max]` (lower bound-exclusive, upper
    /// bound-inclusive).
    pub fn surrounds_or_max(&self, x: Double) -> (r: bool)
        ensures
            r == self.surrounds_or_max_spec(x),
    {
        self.min.lt(x) && x.le(self.max)
    }

    /// Clamps `x` within the inclusive bounds of the interval.
    pub fn clamp(&self, x: Double) -> (r: Double)
        ensures
            r == self.clamp_spec(x),
    {
        if x.lt(self.min) {
            self.min
        } else if x.gt(self.max) {
            self.max
        } else {
            x
        }
    }
}

/// An interval whose lower bound is not above its upper bound, neither being
/// NaN, contains both of its bounds.
pub proof fn lemma_contains_bounds(interval: Interval)
    requires
        interval.min.le_spec(interval.max),
    ensures
        interval.contains_spec(interval.min),
        interval.contains_spec(interval.max),
{
}

/// No interval surrounds either of its bounds, and what an interval
/// surrounds it contains.
pub proof fn lemma_surrounds_excludes_bounds(interval: Interval, x: Double)
    ensures
        !interval.surrounds_spec(interval.min),
        !interval.surrounds_spec(interval.max),
        interval.surrounds_spec(x) ==> interval.contains_spec(x),
{
}

/// Clamping twice is clamping once, unless the upper bound is below the
/// lower one.
pub proof fn lemma_clamp_idempotent(interval: Interval, x: Double)
    requires
        !interval.max.lt_spec(interval.min),
    ensures
        interval.clamp_spec(interval.clamp_spec(x)) == interval.clamp_spec(x),
{
}

/// Clamping brings every number into an interval that contains its bounds,
/// and leaves alone what the interval contains.
pub proof fn lemma_clamp_contained(interval: Interval, x: Double)
    requires
        interval.min.le_spec(interval.max),
        !x.is_nan_spec(),
    ensures
        interval.contains_spec(interval.clamp_spec(x)),
        interval.contains_spec(x) ==> interval.clamp_spec(x) == x,
{
}

} // verus!
