//! Raw PPM images: what makes one valid, and its encoding.
//!
//! An encoded image is the magic number of the raw format (the letter `P` and
//! the digit six), a newline, the width, height
//! and bit depth in decimal notation with one space between them, a newline,
//! and then one byte for each channel of each pixel, row by row.
use vstd::prelude::*;
use vstd::string::*;
use crate::decimal::{append_decimal, decimal_bytes, decimal_bytes_of, decimal_chars};

verus! {

/// The least bit depth of a PPM image.
pub const PPM_BITDEPTH_MIN: u32 = 1;

/// The greatest bit depth of a PPM image.
pub const PPM_BITDEPTH_MAX: u32 = 65535;

/// Why an image was refused.
#[derive(Debug, Clone)]
pub struct NetpbmError {
    message: String,
}

impl View for NetpbmError {
    type V = Seq<char>;

    /// The message, without the prefix that `to_string` puts before it.
    closed spec fn view(&self) -> Seq<char> {
        self.message@
    }
}

impl NetpbmError {
    /// An error that carries `message`.
    pub fn from(message: &str) -> (e: Self)
        ensures
            e@ == message@,
    {
        Self { message: message.to_owned() }
    }

    /// The message, as it is shown to a user.
    pub fn to_string(&self) -> (s: String)
        ensures
            s@ == "netpbm error: "@ + self@,
    {
        String::from_str("netpbm error: ").concat(self.message.as_str())
    }
}

/// An error of the PPM format alone, for a caller that names the format
/// rather than the family of formats.
#[derive(Debug, Clone)]
pub struct PpmError {
    message: String,
}

impl View for PpmError {
    type V = Seq<char>;

    /// The message, without the prefix that `to_string` puts before it.
    closed spec fn view(&self) -> Seq<char> {
        self.message@
    }
}

impl PpmError {
    /// An error that carries `message`.
    pub fn from(message: &str) -> (e: Self)
        ensures
            e@ == message@,
    {
        Self { message: message.to_owned() }
    }

    /// The message, as it is shown to a user.
    pub fn to_string(&self) -> (s: String)
        ensures
            s@ == "PPM error: "@ + self@,
    {
        String::from_str("PPM error: ").concat(self.message.as_str())
    }
}

/// The message for a bit depth out of range.
pub open spec fn bitdepth_text() -> Seq<char> {
    "bitdepth must fall within the range [1,65535]"@
}

/// The message for a dimension of zero.
pub open spec fn dimension_text() -> Seq<char> {
    "image dimension must be greater than 0"@
}

/// The message for a pixel count that is not width times height.
pub open spec fn size_text(len: nat, width: u32, height: u32) -> Seq<char> {
    "color vector size ("@ + decimal_chars(len) + ") does not match dimensions ("@ + decimal_chars(
        width as nat,
    ) + "*"@ + decimal_chars(height as nat) + "="@ + decimal_chars((width * height) as nat) + ")"@
}

/// The message for a channel above the bit depth.
pub open spec fn channel_text(channel: u8, bitdepth: u32) -> Seq<char> {
    "channel value "@ + decimal_chars(channel as nat) + " is invalid, expected channel<="@
        + decimal_chars(bitdepth as nat)
}

/// The greatest value that a channel may take.
pub struct PpmBitDepth(u32);

impl View for PpmBitDepth {
    type V = u32;

    closed spec fn view(&self) -> u32 {
        self.0
    }
}

impl PpmBitDepth {
    #[verifier::type_invariant]
    spec fn in_range(self) -> bool {
        PPM_BITDEPTH_MIN <= self.0 <= PPM_BITDEPTH_MAX
    }

    /// Accepts a bit depth from 1 to 65535.
    pub fn new(val: u32) -> (r: Result<Self, NetpbmError>)
        ensures
            PPM_BITDEPTH_MIN <= val <= PPM_BITDEPTH_MAX ==> (r matches Ok(depth) && depth@ == val),
            !(PPM_BITDEPTH_MIN <= val <= PPM_BITDEPTH_MAX) ==> (r matches Err(e) && e@
                == bitdepth_text()),
    {
        if PPM_BITDEPTH_MIN <= val && val <= PPM_BITDEPTH_MAX {
            Ok(Self(val))
        } else {
            Err(NetpbmError::from("bitdepth must fall within the range [1,65535]"))
        }
    }

    /// The bit depth.
    pub fn get(&self) -> (val: u32)
        ensures
            val == self@,
            PPM_BITDEPTH_MIN <= val <= PPM_BITDEPTH_MAX,
    {
        proof {
            use_type_invariant(self);
        }
        self.0
    }
}

/// A width or height in pixels.
pub struct PpmDim(u32);

impl View for PpmDim {
    type V = u32;

    closed spec fn view(&self) -> u32 {
        self.0
    }
}

impl PpmDim {
    #[verifier::type_invariant]
    spec fn positive(self) -> bool {
        self.0 > 0
    }

    /// Accepts a dimension greater than zero.
    pub fn new(val: u32) -> (r: Result<Self, NetpbmError>)
        ensures
            val > 0 ==> (r matches Ok(dim) && dim@ == val),
            val == 0 ==> (r matches Err(e) && e@ == dimension_text()),
    {
        if val > 0 {
            Ok(Self(val))
        } else {
            Err(NetpbmError::from("image dimension must be greater than 0"))
        }
    }

    /// The dimension.
    pub fn get(&self) -> (val: u32)
        ensures
            val == self@,
            val > 0,
    {
        proof {
            use_type_invariant(self);
        }
        self.0
    }
}

/// The channels of a pixel sequence in the order in which they are written:
/// pixel by pixel, and red, green, blue within a pixel.
pub open spec fn samples(data: Seq<[u8; 3]>) -> Seq<u8> {
    Seq::new(3 * data.len(), |i: int| data[i / 3][i % 3])
}

/// The first value of `channels` that is above `limit`, if there is one.
pub open spec fn first_above(channels: Seq<u8>, limit: u32) -> Option<u8>
    decreases channels.len(),
{
    if channels.len() == 0 {
        None
    } else if channels[0] > limit {
        Some(channels[0])
    } else {
        first_above(channels.drop_first(), limit)
    }
}

/// Why an image of these pixels and this header is refused, if it is: the
/// message of the first check that fails. The checks are, in order: the width
/// is not zero, the height is not zero, the bit depth is in range, there are
/// width times height pixels, and no channel is above the bit depth.
pub open spec fn refusal(data: Seq<[u8; 3]>, width: u32, height: u32, bitdepth: u32) -> Option<
    Seq<char>,
> {
    if width == 0 || height == 0 {
        Some(dimension_text())
    } else if !(PPM_BITDEPTH_MIN <= bitdepth <= PPM_BITDEPTH_MAX) {
        Some(bitdepth_text())
    } else if data.len() != width * height {
        Some(size_text(data.len(), width, height))
    } else {
        match first_above(samples(data), bitdepth) {
            Some(channel) => Some(channel_text(channel, bitdepth)),
            None => None,
        }
    }
}

/// The bytes of a raw PPM image.
pub open spec fn encoding(data: Seq<[u8; 3]>, width: u32, height: u32, bitdepth: u32) -> Seq<u8> {
    seq![80u8, 54u8, 10u8] + decimal_bytes(width as nat) + seq![32u8] + decimal_bytes(
        height as nat,
    ) + seq![32u8] + decimal_bytes(bitdepth as nat) + seq![10u8] + samples(data)
}

/// No channel is above the limit exactly if the search for one finds none.
pub proof fn lemma_first_above_none(channels: Seq<u8>, limit: u32)
    ensures
        first_above(channels, limit) is None <==> forall|i: int|
            0 <= i < channels.len() ==> channels[i] <= limit,
    decreases channels.len(),
{
    if channels.len() > 0 {
        lemma_first_above_none(channels.drop_first(), limit);
        if channels[0] <= limit {
            if first_above(channels, limit) is None {
                assert forall|i: int| 0 <= i < channels.len() implies channels[i] <= limit by {
                    if i > 0 {
                        assert(channels[i] == channels.drop_first()[i - 1]);
                    }
                }
            } else {
                let rest = channels.drop_first();
                let j = choose|j: int| 0 <= j < rest.len() && rest[j] > limit;
                assert(channels[j + 1] == rest[j]);
            }
        }
    }
}

/// The search for a channel above the limit goes past a prefix that holds
/// none.
proof fn lemma_first_above_skip(channels: Seq<u8>, limit: u32, n: int)
    requires
        0 <= n <= channels.len(),
        forall|i: int| 0 <= i < n ==> channels[i] <= limit,
    ensures
        first_above(channels, limit) == first_above(channels.skip(n), limit),
    decreases n,
{
    if n == 0 {
        assert(channels.skip(0) =~= channels);
    } else {
        let rest = channels.drop_first();
        assert forall|i: int| 0 <= i < n - 1 implies rest[i] <= limit by {
            assert(rest[i] == channels[i + 1]);
        }
        lemma_first_above_skip(rest, limit, n - 1);
        assert(rest.skip(n - 1) =~= channels.skip(n));
    }
}

/// A valid image: pixels, row by row, with their header.
pub struct PpmImage {
    data: Vec<[u8; 3]>,
    width: PpmDim,
    height: PpmDim,
    bitdepth: PpmBitDepth,
}

impl PpmImage {
    /// The pixels, row by row.
    pub closed spec fn pixels(&self) -> Seq<[u8; 3]> {
        self.data@
    }

    /// The number of pixel columns.
    pub closed spec fn width(&self) -> u32 {
        self.width@
    }

    /// The number of pixel rows.
    pub closed spec fn height(&self) -> u32 {
        self.height@
    }

    /// The greatest value that a channel may take.
    pub closed spec fn bitdepth(&self) -> u32 {
        self.bitdepth@
    }

    #[verifier::type_invariant]
    spec fn valid(self) -> bool {
        refusal(self.data@, self.width@, self.height@, self.bitdepth@) is None
    }

    /// The image of these pixels under this header, or the reason why there
    /// is none.
    pub fn from(data: Vec<[u8; 3]>, width: u32, height: u32, bitdepth: u32) -> (r: Result<
        PpmImage,
        NetpbmError,
    >)
        ensures
            match refusal(data@, width, height, bitdepth) {
                Some(text) => r matches Err(e) && e@ == text,
                None => r matches Ok(image) && image.pixels() == data@ && image.width() == width
                    && image.height() == height && image.bitdepth() == bitdepth,
            },
    {
        let width_dim = match PpmDim::new(width) {
            Ok(dim) => dim,
            Err(e) => {
                return Err(e);
            },
        };
        let height_dim = match PpmDim::new(height) {
            Ok(dim) => dim,
            Err(e) => {
                return Err(e);
            },
        };
        let depth = match PpmBitDepth::new(bitdepth) {
            Ok(depth) => depth,
            Err(e) => {
                return Err(e);
            },
        };
        if data.len() as u64 != pixel_count(width, height) {
            return Err(size_error(data.len(), width, height));
        }
        let mut i: usize = 0;
        while i < data.len()
            invariant
                i <= data.len(),
                width > 0,
                height > 0,
                PPM_BITDEPTH_MIN <= bitdepth <= PPM_BITDEPTH_MAX,
                data.len() == width * height,
                forall|k: int| 0 <= k < 3 * i ==> #[trigger] samples(data@)[k] <= bitdepth,
            decreases data.len() - i,
        {
            let pixel: [u8; 3] = data[i];
            let mut c: usize = 0;
            while c < 3
                invariant
                    c <= 3,
                    i < data.len(),
                    width > 0,
                    height > 0,
                    PPM_BITDEPTH_MIN <= bitdepth <= PPM_BITDEPTH_MAX,
                    data.len() == width * height,
                    pixel == data@[i as int],
                    forall|k: int| 0 <= k < 3 * i + c ==> #[trigger] samples(data@)[k] <= bitdepth,
                decreases 3 - c,
            {
                let channel: u8 = pixel[c];
                assert(samples(data@)[3 * i + c] == channel);
                if channel as u32 > bitdepth {
                    proof {
                        lemma_first_above_skip(samples(data@), bitdepth, 3 * i + c);
                        assert(samples(data@).skip(3 * i + c)[0] == channel);
                    }
                    return Err(channel_error(channel, bitdepth));
                }
                c = c + 1;
            }
            i = i + 1;
        }
        proof {
            lemma_first_above_none(samples(data@), bitdepth);
        }
        Ok(PpmImage { data, width: width_dim, height: height_dim, bitdepth: depth })
    }

    /// The bytes of the image as a raw PPM file. Each channel takes one
    /// byte, whatever the bit depth.
    pub fn encode(&self) -> (bytes: Vec<u8>)
        ensures
            bytes@ == encoding(self.pixels(), self.width(), self.height(), self.bitdepth()),
    {
        let mut bytes: Vec<u8> = Vec::new();
        bytes.push(80);
        bytes.push(54);
        bytes.push(10);
        let mut part = decimal_bytes_of(self.width.get() as u64);
        bytes.append(&mut part);
        bytes.push(32);
        let mut part = decimal_bytes_of(self.height.get() as u64);
        bytes.append(&mut part);
        bytes.push(32);
        let mut part = decimal_bytes_of(self.bitdepth.get() as u64);
        bytes.append(&mut part);
        bytes.push(10);
        let ghost header = bytes@;
        assert(header =~= seq![80u8, 54u8, 10u8] + decimal_bytes(self.width@ as nat) + seq![32u8]
            + decimal_bytes(self.height@ as nat) + seq![32u8] + decimal_bytes(
            self.bitdepth@ as nat,
        ) + seq![10u8]);
        let mut i: usize = 0;
        while i < self.data.len()
            invariant
                i <= self.data.len(),
                bytes@ == header + samples(self.data@).subrange(0, 3 * i),
            decreases self.data.len() - i,
        {
            let pixel: [u8; 3] = self.data[i];
            bytes.push(pixel[0]);
            bytes.push(pixel[1]);
            bytes.push(pixel[2]);
            i = i + 1;
            assert(bytes@ =~= header + samples(self.data@).subrange(0, 3 * i));
        }
        assert(samples(self.data@).subrange(0, 3 * self.data.len()) =~= samples(self.data@));
        bytes
    }
}

/// The number of pixels of an image.
fn pixel_count(width: u32, height: u32) -> (count: u64)
    ensures
        count == width * height,
{
    assert(width * height <= 0xFFFF_FFFF * 0xFFFF_FFFF) by (nonlinear_arith)
        requires
            width <= 0xFFFF_FFFF,
            height <= 0xFFFF_FFFF,
    ;
    (width as u64) * (height as u64)
}

/// The error for a pixel count that is not width times height.
fn size_error(len: usize, width: u32, height: u32) -> (e: NetpbmError)
    ensures
        e@ == size_text(len as nat, width, height),
{
    let text = String::from_str("color vector size (");
    let text = append_decimal(text, len as u64);
    let text = text.concat(") does not match dimensions (");
    let text = append_decimal(text, width as u64);
    let text = text.concat("*");
    let text = append_decimal(text, height as u64);
    let text = text.concat("=");
    let text = append_decimal(text, pixel_count(width, height));
    let text = text.concat(")");
    NetpbmError::from(text.as_str())
}

/// The error for a channel above the bit depth.
fn channel_error(channel: u8, bitdepth: u32) -> (e: NetpbmError)
    ensures
        e@ == channel_text(channel, bitdepth),
{
    let text = String::from_str("channel value ");
    let text = append_decimal(text, channel as u64);
    let text = text.concat(" is invalid, expected channel<=");
    let text = append_decimal(text, bitdepth as u64);
    NetpbmError::from(text.as_str())
}

/// Collects the bytes of encoded images, one after the other.
#[derive(Debug)]
pub struct PpmWriter {
    stream: Vec<u8>,
}

impl View for PpmWriter {
    type V = Seq<u8>;

    /// The bytes written so far.
    closed spec fn view(&self) -> Seq<u8> {
        self.stream@
    }
}

impl PpmWriter {
    /// A writer to which nothing has been written.
    pub fn new() -> (w: PpmWriter)
        ensures
            w@ == Seq::<u8>::empty(),
    {
        PpmWriter { stream: Vec::new() }
    }

    /// Writes the image of these pixels under this header, and returns zero;
    /// or refuses it and writes nothing.
    pub fn write(&mut self, data: Vec<[u8; 3]>, width: u32, height: u32, bitdepth: u32) -> (r:
        Result<usize, NetpbmError>)
        ensures
            match refusal(data@, width, height, bitdepth) {
                Some(text) => r matches Err(e) && e@ == text && final(self)@ == old(self)@,
                None => r == Ok::<usize, NetpbmError>(0) && final(self)@ == old(self)@ + encoding(
                    data@,
                    width,
                    height,
                    bitdepth,
                ),
            },
    {
        let image = match PpmImage::from(data, width, height, bitdepth) {
            Ok(image) => image,
            Err(e) => {
                return Err(e);
            },
        };
        let mut bytes = image.encode();
        self.stream.append(&mut bytes);
        Ok(0)
    }

    /// The bytes written so far.
    pub fn as_bytes(&self) -> (bytes: &Vec<u8>)
        ensures
            bytes@ == self@,
    {
        &self.stream
    }

    /// Gives up the writer for the bytes written to it.
    pub fn into_inner(self) -> (bytes: Vec<u8>)
        ensures
            bytes@ == self@,
    {
        self.stream
    }
}

} // verus!
