//! Colours of three binary32 channels, and their quantisation to bytes.
use vstd::prelude::*;
use vstd::arithmetic::power2::*;
use vstd::bits::*;
use crate::scalar::{Single, SINGLE_FRACTIONS, SINGLE_SIGN};

verus! {

/// The byte of a channel: the channel clamped to the range from zero to just
/// below one, times 255, rounded down.
///
/// A NaN and a negative channel give 0, a channel of one or more gives 254.
/// A channel below one with exponent field `e` has the value
/// `significand / 2^(150 - e)`, so that its byte is
/// `255 * significand / 2^(150 - e)` rounded down; with an exponent field of
/// zero it is far below one 255th.
pub open spec fn byte_spec(channel: Single) -> int {
    if channel.is_nan_spec() || channel.sign_spec() || channel.exponent() == 0 {
        0
    } else if channel.exponent() >= 127 {
        254
    } else {
        (255 * channel.significand()) / (pow2((150 - channel.exponent()) as nat) as int)
    }
}

/// A channel after gamma correction, `root` being its square root: the root
/// for a channel above zero, and zero for any other.
pub open spec fn gamma_spec(channel: Single, root: Single) -> Single {
    if channel.is_positive_spec() {
        root
    } else {
        Single { bits: 0 }
    }
}

/// Make byte from a channel value.
pub fn make_byte(channel: Single) -> (byte: u8)
    ensures
        byte == byte_spec(channel),
        byte <= 254,
{
    if channel.is_nan() || channel.bits >= SINGLE_SIGN {
        return 0;
    }
    let exponent: u32 = channel.bits / SINGLE_FRACTIONS;
    if exponent == 0 {
        return 0;
    }
    if exponent >= 127 {
        return 254;
    }
    let significand: u64 = (SINGLE_FRACTIONS + channel.bits % SINGLE_FRACTIONS) as u64;
    let scaled: u64 = 255 * significand;
    let ghost shift = (150 - exponent) as nat;
    let ghost divisor = pow2(shift) as int;
    proof {
        lemma2_to64();
        lemma_pow2_pos(shift);
        if shift > 24 {
            lemma_pow2_strictly_increases(24, shift);
        }
        if shift > 32 {
            lemma_pow2_strictly_increases(32, shift);
        }
    }
    if exponent < 119 {
        assert((scaled as int) / divisor == 0) by (nonlinear_arith)
            requires
                0 <= scaled < 0x1_0000_0000,
                divisor >= 0x1_0000_0000,
        ;
        return 0;
    }
    let byte: u64 = scaled >> ((150 - exponent) as u64);
    proof {
        lemma_u64_shr_is_div(scaled, (150 - exponent) as u64);
        assert((scaled as int) / divisor < 255) by (nonlinear_arith)
            requires
                0 <= scaled < 255 * 0x100_0000,
                divisor >= 0x100_0000,
        ;
    }
    byte as u8
}

/// RGB color.
#[derive(Debug, Clone, Copy)]
pub struct Color {
    channels: [Single; 3],
}

impl View for Color {
    type V = Seq<Single>;

    /// The three channels: red, green, blue.
    closed spec fn view(&self) -> Seq<Single> {
        self.channels@
    }
}

impl Color {
    /// Black: every channel positive zero.
    pub open spec fn black_spec() -> Seq<Single> {
        seq![Single { bits: 0 }, Single { bits: 0 }, Single { bits: 0 }]
    }

    /// White: every channel one.
    pub open spec fn white_spec() -> Seq<Single> {
        seq![Single::one_spec(), Single::one_spec(), Single::one_spec()]
    }

    /// Whether every channel is within the tolerance of zero.
    pub open spec fn is_almost_zero_spec(&self) -> bool {
        self@[0].almost_zero_spec() && self@[1].almost_zero_spec() && self@[2].almost_zero_spec()
    }

    /// A colour of these channels.
    pub fn new(r: Single, g: Single, b: Single) -> (c: Self)
        ensures
            c@ == seq![r, g, b],
    {
        let c = Self { channels: [r, g, b] };
        assert(c@ =~= seq![r, g, b]);
        c
    }

    /// Black.
    pub fn black() -> (c: Self)
        ensures
            c@ == Color::black_spec(),
    {
        Self::new(Single::zero(), Single::zero(), Single::zero())
    }

    /// White.
    pub fn white() -> (c: Self)
        ensures
            c@ == Color::white_spec(),
    {
        Self::new(Single::one(), Single::one(), Single::one())
    }

    /// Retrieve the red channel.
    pub fn r(&self) -> (c: Single)
        ensures
            c == self@[0],
    {
        self.channels[0]
    }

    /// Retrieve the green channel.
    pub fn g(&self) -> (c: Single)
        ensures
            c == self@[1],
    {
        self.channels[1]
    }

    /// Retrieve the blue channel.
    pub fn b(&self) -> (c: Single)
        ensures
            c == self@[2],
    {
        self.channels[2]
    }

    /// Determines whether the given color is approximately all zero (black
    /// in color).
    pub fn is_almost_zero(&self) -> (r: bool)
        ensures
            r == self.is_almost_zero_spec(),
    {
        self.channels[0].almost_zero() && self.channels[1].almost_zero()
            && self.channels[2].almost_zero()
    }

    /// Convert to RGB24 byte representation.
    pub fn to_rgb24(&self) -> (bytes: [u8; 3])
        ensures
            bytes[0] == byte_spec(self@[0]),
            bytes[1] == byte_spec(self@[1]),
            bytes[2] == byte_spec(self@[2]),
    {
        [make_byte(self.r()), make_byte(self.g()), make_byte(self.b())]
    }

    /// Gamma correct the RGB color, `roots` holding the square root of each
    /// channel: a channel above zero becomes its root, any other becomes
    /// zero.
    pub fn gamma_correct(&self, roots: &Color) -> (c: Self)
        ensures
            c@ == seq![
                gamma_spec(self@[0], roots@[0]),
                gamma_spec(self@[1], roots@[1]),
                gamma_spec(self@[2], roots@[2]),
            ],
    {
        Self::new(
            linear_to_gamma(self.r(), roots.r()),
            linear_to_gamma(self.g(), roots.g()),
            linear_to_gamma(self.b(), roots.b()),
        )
    }
}

/// Gamma correct a channel value, `root` being its square root.
fn linear_to_gamma(channel: Single, root: Single) -> (c: Single)
    ensures
        c == gamma_spec(channel, root),
{
    if channel.is_positive() {
        root
    } else {
        Single::zero()
    }
}

/// Black stays black under gamma correction, whatever is handed in as its
/// roots.
pub proof fn lemma_gamma_black(root: Single)
    ensures
        gamma_spec(Single { bits: 0 }, root) == (Single { bits: 0 }),
{
}

} // verus!
