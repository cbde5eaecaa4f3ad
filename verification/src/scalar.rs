//! Floating-point values by their IEEE 754 bit patterns.
//!
//! A binary64 value is held as the 64 bits that encode it, a binary32 value
//! as its 32 bits. The top bit is the sign, the bits below it the magnitude
//! field: the biased exponent above the fraction. Because the exponent stands
//! above the fraction, a larger magnitude field encodes a larger absolute
//! value, and the field of infinity is above that of every finite value.
//! Fields above that of infinity encode NaN. This makes order and sign a
//! matter of integer comparison, which is all this module does.
use vstd::prelude::*;

verus! {

/// The sign bit of a binary64 pattern.
pub const DOUBLE_SIGN: u64 = 0x8000_0000_0000_0000;

/// The magnitude field of binary64 infinity.
pub const DOUBLE_INFINITY: u64 = 0x7FF0_0000_0000_0000;

/// The pattern of the binary64 value one.
pub const DOUBLE_ONE: u64 = 0x3FF0_0000_0000_0000;

/// The pattern of the binary64 value nearest to a hundred-millionth, below
/// which a magnitude counts as almost zero.
pub const DOUBLE_TOLERANCE: u64 = 0x3E45_798E_E230_8C3A;

/// The number of fraction patterns of binary64: two to the power 52.
pub const DOUBLE_FRACTIONS: u64 = 0x10_0000_0000_0000;

/// The number of fraction patterns of binary32: two to the power 23.
pub const SINGLE_FRACTIONS: u32 = 0x80_0000;

/// The sign bit of a binary32 pattern.
pub const SINGLE_SIGN: u32 = 0x8000_0000;

/// The magnitude field of binary32 infinity.
pub const SINGLE_INFINITY: u32 = 0x7F80_0000;

/// The pattern of the binary32 value one.
pub const SINGLE_ONE: u32 = 0x3F80_0000;

/// The pattern of the binary32 value nearest to a millionth, below which a
/// magnitude counts as almost zero.
pub const SINGLE_TOLERANCE: u32 = 0x3586_37BD;

/// A binary64 value.
#[derive(Debug, Clone, Copy)]
pub struct Double {
    /// The IEEE 754 encoding of the value.
    pub bits: u64,
}

impl Double {
    /// Whether the sign bit is set.
    pub open spec fn sign_spec(self) -> bool {
        self.bits >= DOUBLE_SIGN
    }

    /// The pattern without its sign bit.
    pub open spec fn magnitude(self) -> int {
        if self.bits >= DOUBLE_SIGN {
            self.bits - DOUBLE_SIGN
        } else {
            self.bits as int
        }
    }

    /// Whether the pattern encodes no number.
    pub open spec fn is_nan_spec(self) -> bool {
        self.magnitude() > DOUBLE_INFINITY
    }

    /// The biased exponent field.
    pub open spec fn exponent(self) -> int {
        self.magnitude() / (DOUBLE_FRACTIONS as int)
    }

    /// The fraction field.
    pub open spec fn fraction(self) -> int {
        self.magnitude() % (DOUBLE_FRACTIONS as int)
    }

    /// The integer that a normal number scales: the fraction under its
    /// implicit leading bit. A normal number with exponent field `e` has the
    /// absolute value `significand / 2^(1075 - e)`.
    pub open spec fn significand(self) -> int {
        DOUBLE_FRACTIONS + self.fraction()
    }

    /// The place of a number in the numeric order: the magnitude field,
    /// counted downwards from zero where the sign is set. Two numbers compare
    /// as their ranks do; both zeros have rank zero.
    pub open spec fn rank(self) -> int {
        if self.sign_spec() {
            -self.magnitude()
        } else {
            self.magnitude()
        }
    }

    /// `self < other` as IEEE 754 defines it: false where either is NaN.
    pub open spec fn lt_spec(self, other: Double) -> bool {
        !self.is_nan_spec() && !other.is_nan_spec() && self.rank() < other.rank()
    }

    /// `self <= other` as IEEE 754 defines it: false where either is NaN.
    pub open spec fn le_spec(self, other: Double) -> bool {
        !self.is_nan_spec() && !other.is_nan_spec() && self.rank() <= other.rank()
    }

    /// The lesser of two values, where a NaN gives way to the other value
    /// and of two equal values the second is taken.
    pub open spec fn min_spec(self, other: Double) -> Double {
        if self.is_nan_spec() {
            other
        } else if self.lt_spec(other) || other.is_nan_spec() {
            self
        } else {
            other
        }
    }

    /// The value with its sign bit flipped.
    pub open spec fn neg_spec(self) -> Double {
        if self.bits >= DOUBLE_SIGN {
            Double { bits: (self.bits - DOUBLE_SIGN) as u64 }
        } else {
            Double { bits: (self.bits + DOUBLE_SIGN) as u64 }
        }
    }

    /// Whether the magnitude is below the tolerance.
    pub open spec fn almost_zero_spec(self) -> bool {
        self.magnitude() < DOUBLE_TOLERANCE
    }

    /// Positive zero.
    pub open spec fn zero_spec() -> Double {
        Double { bits: 0 }
    }

    /// The value one.
    pub open spec fn one_spec() -> Double {
        Double { bits: DOUBLE_ONE }
    }

    /// Positive infinity.
    pub open spec fn infinity_spec() -> Double {
        Double { bits: DOUBLE_INFINITY }
    }

    /// Negative infinity.
    pub open spec fn neg_infinity_spec() -> Double {
        Double { bits: (DOUBLE_INFINITY + DOUBLE_SIGN) as u64 }
    }

    /// The value encoded by `bits`.
    pub fn from_bits(bits: u64) -> (x: Self)
        ensures
            x.bits == bits,
    {
        Double { bits }
    }

    /// The encoding of the value.
    pub fn to_bits(self) -> (bits: u64)
        ensures
            bits == self.bits,
    {
        self.bits
    }

    /// Positive zero.
    pub fn zero() -> (x: Self)
        ensures
            x == Double::zero_spec(),
    {
        Double { bits: 0 }
    }

    /// The value one.
    pub fn one() -> (x: Self)
        ensures
            x == Double::one_spec(),
    {
        Double { bits: DOUBLE_ONE }
    }

    /// Positive infinity.
    pub fn infinity() -> (x: Self)
        ensures
            x == Double::infinity_spec(),
    {
        Double { bits: DOUBLE_INFINITY }
    }

    /// Negative infinity.
    pub fn neg_infinity() -> (x: Self)
        ensures
            x == Double::neg_infinity_spec(),
    {
        Double { bits: DOUBLE_INFINITY + DOUBLE_SIGN }
    }

    /// The pattern without its sign bit.
    fn magnitude_bits(self) -> (m: u64)
        ensures
            m == self.magnitude(),
    {
        if self.bits >= DOUBLE_SIGN {
            self.bits - DOUBLE_SIGN
        } else {
            self.bits
        }
    }

    /// The rank as a machine integer.
    fn ordinal(self) -> (r: i64)
        ensures
            r == self.rank(),
    {
        if self.bits >= DOUBLE_SIGN {
            -((self.bits - DOUBLE_SIGN) as i64)
        } else {
            self.bits as i64
        }
    }

    /// Whether the pattern encodes no number.
    pub fn is_nan(self) -> (r: bool)
        ensures
            r == self.is_nan_spec(),
    {
        self.magnitude_bits() > DOUBLE_INFINITY
    }

    /// `self < other`.
    pub fn lt(self, other: Double) -> (r: bool)
        ensures
            r == self.lt_spec(other),
    {
        !self.is_nan() && !other.is_nan() && self.ordinal() < other.ordinal()
    }

    /// `self <= other`.
    pub fn le(self, other: Double) -> (r: bool)
        ensures
            r == self.le_spec(other),
    {
        !self.is_nan() && !other.is_nan() && self.ordinal() <= other.ordinal()
    }

    /// `self > other`.
    pub fn gt(self, other: Double) -> (r: bool)
        ensures
            r == other.lt_spec(self),
    {
        other.lt(self)
    }

    /// `self >= other`.
    pub fn ge(self, other: Double) -> (r: bool)
        ensures
            r == other.le_spec(self),
    {
        other.le(self)
    }

    /// The lesser of two values; a NaN gives way to the other value.
    pub fn min(self, other: Double) -> (r: Double)
        ensures
            r == self.min_spec(other),
    {
        if self.is_nan() {
            other
        } else if self.lt(other) || other.is_nan() {
            self
        } else {
            other
        }
    }

    /// The value with its sign flipped. This is exact for every pattern, a
    /// NaN included.
    pub fn neg(self) -> (r: Double)
        ensures
            r == self.neg_spec(),
    {
        if self.bits >= DOUBLE_SIGN {
            Double { bits: self.bits - DOUBLE_SIGN }
        } else {
            Double { bits: self.bits + DOUBLE_SIGN }
        }
    }

    /// Whether the value is within the tolerance of zero. A NaN is not.
    pub fn almost_zero(self) -> (r: bool)
        ensures
            r == self.almost_zero_spec(),
    {
        self.magnitude_bits() < DOUBLE_TOLERANCE
    }
}

/// Negation keeps the magnitude and mirrors the rank, so it turns the order
/// round; and negating twice gives the pattern back.
pub proof fn lemma_neg_mirrors(x: Double)
    ensures
        x.neg_spec().magnitude() == x.magnitude(),
        x.neg_spec().is_nan_spec() == x.is_nan_spec(),
        x.neg_spec().rank() == -x.rank(),
        x.neg_spec().neg_spec() == x,
{
}

/// Among numbers, `<` is a strict order and `<=` is `<` or equal rank; a NaN
/// is below, above and equal to nothing.
pub proof fn lemma_order(a: Double, b: Double, c: Double)
    ensures
        !a.lt_spec(a),
        a.lt_spec(b) ==> !b.lt_spec(a),
        a.lt_spec(b) && b.lt_spec(c) ==> a.lt_spec(c),
        a.lt_spec(b) && b.le_spec(c) ==> a.lt_spec(c),
        a.le_spec(b) && b.lt_spec(c) ==> a.lt_spec(c),
        a.le_spec(b) && b.le_spec(c) ==> a.le_spec(c),
        a.lt_spec(b) ==> a.le_spec(b),
        a.le_spec(a) <==> !a.is_nan_spec(),
        !a.is_nan_spec() && !b.is_nan_spec() ==> (a.lt_spec(b) || b.le_spec(a)),
{
}

/// A binary32 value.
#[derive(Debug, Clone, Copy)]
pub struct Single {
    /// The IEEE 754 encoding of the value.
    pub bits: u32,
}

impl Single {
    /// Whether the sign bit is set.
    pub open spec fn sign_spec(self) -> bool {
        self.bits >= SINGLE_SIGN
    }

    /// The pattern without its sign bit.
    pub open spec fn magnitude(self) -> int {
        if self.bits >= SINGLE_SIGN {
            self.bits - SINGLE_SIGN
        } else {
            self.bits as int
        }
    }

    /// Whether the pattern encodes no number.
    pub open spec fn is_nan_spec(self) -> bool {
        self.magnitude() > SINGLE_INFINITY
    }

    /// The biased exponent field.
    pub open spec fn exponent(self) -> int {
        self.magnitude() / (SINGLE_FRACTIONS as int)
    }

    /// The fraction field.
    pub open spec fn fraction(self) -> int {
        self.magnitude() % (SINGLE_FRACTIONS as int)
    }

    /// The integer that a normal number scales: the fraction under its
    /// implicit leading bit. A normal number with exponent field `e` has the
    /// absolute value `significand / 2^(150 - e)`.
    pub open spec fn significand(self) -> int {
        SINGLE_FRACTIONS + self.fraction()
    }

    /// Whether the value is a number above zero.
    pub open spec fn is_positive_spec(self) -> bool {
        !self.sign_spec() && 0 < self.magnitude() <= SINGLE_INFINITY
    }

    /// Whether the magnitude is below the tolerance.
    pub open spec fn almost_zero_spec(self) -> bool {
        self.magnitude() < SINGLE_TOLERANCE
    }

    /// The value one.
    pub open spec fn one_spec() -> Single {
        Single { bits: SINGLE_ONE }
    }

    /// The value encoded by `bits`.
    pub fn from_bits(bits: u32) -> (x: Self)
        ensures
            x.bits == bits,
    {
        Single { bits }
    }

    /// The encoding of the value.
    pub fn to_bits(self) -> (bits: u32)
        ensures
            bits == self.bits,
    {
        self.bits
    }

    /// Positive zero.
    pub fn zero() -> (x: Self)
        ensures
            x.bits == 0,
    {
        Single { bits: 0 }
    }

    /// The value one.
    pub fn one() -> (x: Self)
        ensures
            x == Single::one_spec(),
    {
        Single { bits: SINGLE_ONE }
    }

    /// The pattern without its sign bit.
    pub fn magnitude_bits(self) -> (m: u32)
        ensures
            m == self.magnitude(),
    {
        if self.bits >= SINGLE_SIGN {
            self.bits - SINGLE_SIGN
        } else {
            self.bits
        }
    }

    /// Whether the pattern encodes no number.
    pub fn is_nan(self) -> (r: bool)
        ensures
            r == self.is_nan_spec(),
    {
        self.magnitude_bits() > SINGLE_INFINITY
    }

    /// Whether the value is a number above zero.
    pub fn is_positive(self) -> (r: bool)
        ensures
            r == self.is_positive_spec(),
    {
        0 < self.bits && self.bits <= SINGLE_INFINITY
    }

    /// Whether the value is within the tolerance of zero. A NaN is not.
    pub fn almost_zero(self) -> (r: bool)
        ensures
            r == self.almost_zero_spec(),
    {
        self.magnitude_bits() < SINGLE_TOLERANCE
    }
}

} // verus!
