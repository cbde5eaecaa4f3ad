//! What a camera decides without arithmetic: which settings it accepts, how
//! many pixel rows an image has, and how far a path is followed.
use vstd::prelude::*;
use vstd::arithmetic::power2::*;
use vstd::bits::*;
use vstd::string::*;
use crate::color::Color;
use crate::decimal::{append_decimal, decimal_chars};
use crate::hittable::Hittable;
use crate::interval::Interval;
use crate::ray::Ray;
use crate::scalar::{Double, Single, DOUBLE_FRACTIONS, DOUBLE_SIGN};
use crate::sweep::{Frame, Sweep};
use crate::{Error, ErrorKind};

verus! {

/// A camera setting that must be greater than zero.
#[derive(Debug, Clone, Copy, PartialEq, Eq, Structural)]
pub enum Setting {
    /// The ratio of image width to image height.
    AspectRatio,
    /// The number of pixel columns.
    ImageWidth,
    /// The number of rays averaged into one pixel.
    SamplesPerPixel,
    /// The number of bounces after which a path is given up.
    MaxDepth,
}

impl Setting {
    /// The setting's name as it appears in messages.
    pub open spec fn name_spec(self) -> Seq<char> {
        match self {
            Setting::AspectRatio => "aspect_ratio"@,
            Setting::ImageWidth => "image_width"@,
            Setting::SamplesPerPixel => "samples_per_pixel"@,
            Setting::MaxDepth => "max_depth"@,
        }
    }

    /// The setting's name as it appears in messages.
    pub fn name(self) -> (s: &'static str)
        ensures
            s@ == self.name_spec(),
    {
        match self {
            Setting::AspectRatio => "aspect_ratio",
            Setting::ImageWidth => "image_width",
            Setting::SamplesPerPixel => "samples_per_pixel",
            Setting::MaxDepth => "max_depth",
        }
    }
}

/// The first setting, in the order aspect ratio, image width, samples per
/// pixel, maximum depth, that is not greater than zero. An aspect ratio that
/// is NaN compares with nothing and is let through.
pub open spec fn first_rejected(
    aspect_ratio: Double,
    image_width: u32,
    samples_per_pixel: u32,
    max_depth: u32,
) -> Option<Setting> {
    if aspect_ratio.le_spec(Double::zero_spec()) {
        Some(Setting::AspectRatio)
    } else if image_width == 0 {
        Some(Setting::ImageWidth)
    } else if samples_per_pixel == 0 {
        Some(Setting::SamplesPerPixel)
    } else if max_depth == 0 {
        Some(Setting::MaxDepth)
    } else {
        None
    }
}

/// Accepts the settings of a camera, or names the first one that is not
/// greater than zero.
pub fn check_settings(
    aspect_ratio: Double,
    image_width: u32,
    samples_per_pixel: u32,
    max_depth: u32,
) -> (r: Result<(), Setting>)
    ensures
        match first_rejected(aspect_ratio, image_width, samples_per_pixel, max_depth) {
            Some(setting) => r == Err::<(), Setting>(setting),
            None => r is Ok,
        },
{
    if aspect_ratio.le(Double::zero()) {
        Err(Setting::AspectRatio)
    } else if image_width == 0 {
        Err(Setting::ImageWidth)
    } else if samples_per_pixel == 0 {
        Err(Setting::SamplesPerPixel)
    } else if max_depth == 0 {
        Err(Setting::MaxDepth)
    } else {
        Ok(())
    }
}

/// The number of pixel rows for a quotient of image width by aspect ratio:
/// the quotient rounded to the nearest integer, halves upwards, and at least
/// one. A quotient that is NaN or below one gives one row; one beyond the
/// range of `u32` gives `u32::MAX`.
///
/// A quotient of at least one has an exponent field `e` of at least 1023 and
/// the value `significand / 2^shift` with `shift = 1075 - e`; adding half
/// before the division rounds it.
pub open spec fn image_height_spec(quotient: Double) -> int {
    if quotient.is_nan_spec() || quotient.sign_spec() || quotient.exponent() < 1023 {
        1
    } else if quotient.exponent() >= 1055 {
        u32::MAX as int
    } else {
        let shift = (1075 - quotient.exponent()) as nat;
        let rounded = (quotient.significand() + pow2((shift - 1) as nat)) / (pow2(shift) as int);
        if rounded > u32::MAX {
            u32::MAX as int
        } else {
            rounded
        }
    }
}

/// The number of pixel rows for a quotient of image width by aspect ratio.
pub fn image_height(quotient: Double) -> (rows: u32)
    ensures
        rows == image_height_spec(quotient),
        rows >= 1,
{
    if quotient.is_nan() || quotient.bits >= DOUBLE_SIGN {
        return 1;
    }
    let exponent: u64 = quotient.bits / DOUBLE_FRACTIONS;
    let fraction: u64 = quotient.bits % DOUBLE_FRACTIONS;
    if exponent < 1023 {
        return 1;
    }
    if exponent >= 1055 {
        return u32::MAX;
    }
    let shift: u64 = 1075 - exponent;
    let significand: u64 = DOUBLE_FRACTIONS + fraction;
    proof {
        lemma2_to64_rest();
        lemma_u64_pow2_no_overflow((shift - 1) as nat);
        if shift - 1 < 51 {
            lemma_pow2_strictly_increases((shift - 1) as nat, 51);
        }
        lemma_u64_shl_is_mul(1, (shift - 1) as u64);
    }
    let half: u64 = 1u64 << (shift - 1);
    let rounded: u64 = (significand + half) >> shift;
    proof {
        lemma_u64_shr_is_div((significand + half) as u64, shift);
        lemma_pow2_pos(shift as nat);
        if shift < 52 {
            lemma_pow2_strictly_increases(shift as nat, 52);
        }
        assert(rounded >= 1) by (nonlinear_arith)
            requires
                rounded == (significand + half) / (pow2(shift as nat) as int),
                significand + half >= pow2(shift as nat),
                pow2(shift as nat) > 0,
        ;
    }
    if rounded > 0xFFFF_FFFF {
        u32::MAX
    } else {
        rounded as u32
    }
}

/// What a rejected setting is reported to have been given: the aspect ratio
/// as the caller prints it, and each of the others in decimal notation.
pub open spec fn given_text(
    setting: Setting,
    aspect_ratio_text: Seq<char>,
    image_width: u32,
    samples_per_pixel: u32,
    max_depth: u32,
) -> Seq<char> {
    match setting {
        Setting::AspectRatio => aspect_ratio_text,
        Setting::ImageWidth => decimal_chars(image_width as nat),
        Setting::SamplesPerPixel => decimal_chars(samples_per_pixel as nat),
        Setting::MaxDepth => decimal_chars(max_depth as nat),
    }
}

/// The text of the error for a rejected setting.
pub open spec fn rejection_text(setting: Setting, given: Seq<char>) -> Seq<char> {
    setting.name_spec() + " must be greater than 0 (given "@ + given + ")"@
}

/// The error with which a camera refuses `setting`.
fn rejection(
    setting: Setting,
    aspect_ratio_text: &str,
    image_width: u32,
    samples_per_pixel: u32,
    max_depth: u32,
) -> (e: Error)
    ensures
        e@ matches ErrorKind::Camera(text) && text@ == rejection_text(
            setting,
            given_text(setting, aspect_ratio_text@, image_width, samples_per_pixel, max_depth),
        ),
{
    let text = String::from_str(setting.name()).concat(" must be greater than 0 (given ");
    let text = match setting {
        Setting::AspectRatio => text.concat(aspect_ratio_text),
        Setting::ImageWidth => append_decimal(text, image_width as u64),
        Setting::SamplesPerPixel => append_decimal(text, samples_per_pixel as u64),
        Setting::MaxDepth => append_decimal(text, max_depth as u64),
    };
    let text = text.concat(")");
    Error::new_camera(text.as_str())
}

/// The part of a camera that is counted rather than measured: the size of
/// its image and how much work goes into a pixel.
#[derive(Debug, Clone, Copy)]
pub struct Camera {
    /// Image plane width in pixels.
    pub image_width: u32,
    /// Image plane height in pixels.
    pub image_height: u32,
    /// Maximum number of ray bounces.
    pub max_depth: u32,
    /// Number of samples to be taken per pixel region.
    pub samples_per_pixel: u32,
}

impl Camera {
    /// Create a new camera, or refuse the first setting that is not greater
    /// than zero. `aspect_ratio_text` is the aspect ratio as the caller
    /// prints it, for the message of its refusal; `quotient` is the image
    /// width divided by the aspect ratio, from which the rows are counted.
    pub fn new(
        aspect_ratio: Double,
        image_width: u32,
        samples_per_pixel: u32,
        max_depth: u32,
        aspect_ratio_text: &str,
        quotient: Double,
    ) -> (r: Result<Self, Error>)
        ensures
            match first_rejected(aspect_ratio, image_width, samples_per_pixel, max_depth) {
                Some(setting) => r matches Err(e) && e@ matches ErrorKind::Camera(text) && text@
                    == rejection_text(
                    setting,
                    given_text(
                        setting,
                        aspect_ratio_text@,
                        image_width,
                        samples_per_pixel,
                        max_depth,
                    ),
                ),
                None => r matches Ok(camera) && camera.image_width == image_width
                    && camera.image_height == image_height_spec(quotient) && camera.max_depth
                    == max_depth && camera.samples_per_pixel == samples_per_pixel,
            },
    {
        match check_settings(aspect_ratio, image_width, samples_per_pixel, max_depth) {
            Err(setting) => Err(
                rejection(setting, aspect_ratio_text, image_width, samples_per_pixel, max_depth),
            ),
            Ok(()) => Ok(
                Self {
                    image_width,
                    image_height: image_height(quotient),
                    max_depth,
                    samples_per_pixel,
                },
            ),
        }
    }

    /// Retrieve image plane pixel dimensions.
    pub fn dim(&self) -> (d: (u32, u32))
        ensures
            d == (self.image_width, self.image_height),
    {
        (self.image_width, self.image_height)
    }

    /// Starts the rendering of the camera's image: every pixel, row by row,
    /// with the camera's number of samples.
    pub fn sweep(&self) -> (sweep: Sweep)
        ensures
            sweep.width() == self.image_width,
            sweep.height() == self.image_height,
            sweep.samples() == self.samples_per_pixel,
            sweep.taken() == 0,
    {
        Sweep::new(self.image_width, self.image_height, self.samples_per_pixel)
    }

    /// Starts the camera's image with no pixel in it: the frame that the
    /// rendering fills, one pixel for each of the image, row by row.
    pub fn frame(&self) -> (frame: Frame)
        ensures
            frame.wf(),
            frame.width() == self.image_width,
            frame.height() == self.image_height,
            frame.samples() == self.samples_per_pixel,
            frame.taken() == 0,
            frame.awaited() is None,
            frame@ == Seq::<Color>::empty(),
    {
        Frame::new(self.image_width, self.image_height, self.samples_per_pixel)
    }
}

/// A camera that was not refused has an image of at least one pixel and
/// puts at least one ray of at least one bounce into each.
pub proof fn lemma_accepted_settings(
    aspect_ratio: Double,
    image_width: u32,
    samples_per_pixel: u32,
    max_depth: u32,
    quotient: Double,
)
    requires
        first_rejected(aspect_ratio, image_width, samples_per_pixel, max_depth) is None,
    ensures
        image_width >= 1,
        samples_per_pixel >= 1,
        max_depth >= 1,
        1 <= image_height_spec(quotient) <= u32::MAX,
        !aspect_ratio.le_spec(Double::zero_spec()),
{
    lemma_image_height_range(quotient);
}

/// There is at least one row, and the rows fit a `u32`.
pub proof fn lemma_image_height_range(quotient: Double)
    ensures
        1 <= image_height_spec(quotient) <= u32::MAX,
{
    if !(quotient.is_nan_spec() || quotient.sign_spec() || quotient.exponent() < 1023)
        && quotient.exponent() < 1055 {
        let shift = (1075 - quotient.exponent()) as nat;
        lemma2_to64_rest();
        lemma_pow2_pos(shift);
        lemma_pow2_pos((shift - 1) as nat);
        if shift < 52 {
            lemma_pow2_strictly_increases(shift, 52);
        }
        let sum = quotient.significand() + pow2((shift - 1) as nat);
        let divisor = pow2(shift) as int;
        assert(sum / divisor >= 1) by (nonlinear_arith)
            requires
                sum >= divisor,
                divisor > 0,
        ;
    }
}

/// The pattern of the binary64 value nearest to a thousandth: the least ray
/// parameter at which a hit counts, so that a ray does not hit the surface
/// that it leaves.
pub const NEAREST_HIT: u64 = 0x3F50_624D_D2F1_A9FC;

/// The ray parameters at which a hit counts: above a thousandth, without
/// upper end.
pub open spec fn initial_t_bound_spec() -> Interval {
    Interval { min: Double { bits: NEAREST_HIT }, max: Double::infinity_spec() }
}

/// The ray parameters at which a hit counts.
pub fn initial_t_bound() -> (bound: Interval)
    ensures
        bound == initial_t_bound_spec(),
{
    Interval::new(Double::from_bits(NEAREST_HIT), Double::infinity())
}

/// How a path ends.
#[derive(Debug, Clone, Copy, PartialEq, Eq, Structural)]
pub enum PathEnd {
    /// The path was given up after as many bounces as it was allowed. It
    /// carries no light: its colour is black.
    Exhausted,
    /// A material absorbed the last ray. The path's colour is black.
    Absorbed,
    /// The last ray hit nothing. It carries the colour of the background in
    /// its direction.
    Escaped,
}

impl PathEnd {
    /// The colour at the end of a path, where the end alone decides it:
    /// black for a path that was exhausted or absorbed. An escaped path ends
    /// in the background, whose colour depends on the last ray.
    pub open spec fn color_spec(self) -> Option<Seq<Single>> {
        match self {
            PathEnd::Exhausted => Some(Color::black_spec()),
            PathEnd::Absorbed => Some(Color::black_spec()),
            PathEnd::Escaped => None,
        }
    }

    /// The colour at the end of a path, where the end alone decides it.
    pub fn color(self) -> (c: Option<Color>)
        ensures
            match self.color_spec() {
                Some(channels) => c matches Some(color) && color@ == channels,
                None => c is None,
            },
    {
        match self {
            PathEnd::Exhausted => Some(Color::black()),
            PathEnd::Absorbed => Some(Color::black()),
            PathEnd::Escaped => None,
        }
    }
}

/// What becomes of a ray that has hit an object.
pub enum Bounce {
    /// The ray goes on as another, attenuated by a colour.
    Follow(Ray, Color),
    /// The path ends here.
    Finish(PathEnd),
}

/// The bounce that a material's answer to a hit makes: the scattered ray is
/// followed, and where there is none the path ends absorbed.
pub fn bounce(scattered: Option<(Ray, Color)>) -> (b: Bounce)
    ensures
        match scattered {
            Some((ray, attenuation)) => b == Bounce::Follow(ray, attenuation),
            None => b == Bounce::Finish(PathEnd::Absorbed),
        },
{
    match scattered {
        Some((ray, attenuation)) => Bounce::Follow(ray, attenuation),
        None => Bounce::Finish(PathEnd::Absorbed),
    }
}

/// Whether a material in `world` sends `ray` on as `next`: the ray hits an
/// object, from a thousandth of its length on, and the material of that
/// object scatters it from the hit as `next`, attenuated by `attenuation`.
pub open spec fn bounces<T: Hittable>(world: &T, ray: Ray, next: Ray, attenuation: Color) -> bool {
    world.hit_spec(&ray, &initial_t_bound_spec()) matches Some(rec) && rec.material.scatters(
        &ray,
        &rec.surface_spec(),
        next,
        attenuation,
    )
}

/// Whether `rays` is a walk through `world` with these attenuations: there
/// is one ray more than there are attenuations, and each ray but the last
/// is sent on as the ray after it, with the attenuation of its place.
pub open spec fn follows<T: Hittable>(world: &T, rays: Seq<Ray>, attenuations: Seq<Color>) -> bool {
    &&& rays.len() == attenuations.len() + 1
    &&& forall|i: int|
        0 <= i < attenuations.len() ==> bounces(
            world,
            rays[i],
            rays[i + 1],
            #[trigger] attenuations[i],
        )
}

/// The walk of a ray through a scene.
pub struct Path {
    /// The attenuation of each bounce, the first bounce first.
    pub attenuations: Vec<Color>,
    /// The ray at which the walk ended.
    pub last: Ray,
    /// How the walk ended.
    pub end: PathEnd,
    /// The rays of the walk in their order, from the ray that was given to
    /// the ray at which the walk ended. Proofs alone see them.
    pub rays: Ghost<Seq<Ray>>,
}

/// Follows `ray` through `world` for at most `depth` bounces.
///
/// The walk starts with the ray given. As long as bounces are left, the ray
/// is held against the world. Where it hits nothing, the path has escaped.
/// Where it hits, the material of the object hit is asked: where that
/// absorbs the ray the path ends absorbed, and else the walk goes on with the
/// scattered ray, and its attenuation is put down. A path that has taken
/// `depth` bounces is exhausted, whatever its last ray would hit; with a depth
/// of zero the world is not looked at.
///
/// The colour of the path is the colour of its end, black or the background
/// seen along the last ray, multiplied by the attenuations from the last back
/// to the first.
///
/// Whether a material absorbs a ray that it might have scattered is its own
/// matter, and so is the ray that it scatters among those that it may.
pub fn trace<T: Hittable>(ray: &Ray, depth: u32, world: &T) -> (path: Path)
    ensures
        path.rays@[0] == *ray,
        path.rays@[path.attenuations@.len() as int] == path.last,
        follows(world, path.rays@, path.attenuations@),
        path.attenuations@.len() <= depth,
        path.end == PathEnd::Exhausted <==> path.attenuations@.len() == depth,
        path.end == PathEnd::Escaped ==> world.hit_spec(&path.last, &initial_t_bound_spec())
            is None,
        path.end == PathEnd::Absorbed ==> world.hit_spec(&path.last, &initial_t_bound_spec())
            is Some,
        path.attenuations@.len() == 0 ==> path.last == *ray,
        depth == 0 ==> path.attenuations@.len() == 0 && path.end.color_spec() == Some(
            Color::black_spec(),
        ),
        depth > 0 && world.hit_spec(ray, &initial_t_bound_spec()) is None ==> path.end
            == PathEnd::Escaped && path.last == *ray && path.attenuations@.len() == 0,
        path.attenuations@.len() > 0 ==> exists|next: Ray|
            bounces(world, *ray, next, path.attenuations@[0]),
{
    let bound = initial_t_bound();
    let mut attenuations: Vec<Color> = Vec::new();
    let mut current: Ray = *ray;
    let mut remaining: u32 = depth;
    let ghost mut rays: Seq<Ray> = seq![*ray];
    while remaining > 0
        invariant
            attenuations@.len() + remaining == depth,
            bound == initial_t_bound_spec(),
            rays[0] == *ray,
            rays[attenuations@.len() as int] == current,
            follows(world, rays, attenuations@),
        decreases remaining,
    {
        let step = match world.hit(&current, &bound) {
            Some(rec) => bounce(rec.material.scatter(&current, &rec.surface())),
            None => Bounce::Finish(PathEnd::Escaped),
        };
        match step {
            Bounce::Follow(scattered, attenuation) => {
                let ghost walked = rays;
                let ghost dimmed = attenuations@;
                attenuations.push(attenuation);
                proof {
                    rays = rays.push(scattered);
                    assert(bounces(world, current, scattered, attenuation));
                    assert forall|i: int| 0 <= i < attenuations@.len() implies bounces(
                        world,
                        rays[i],
                        rays[i + 1],
                        #[trigger] attenuations@[i],
                    ) by {
                        if i < dimmed.len() {
                            assert(bounces(world, walked[i], walked[i + 1], dimmed[i]));
                        }
                    }
                }
                current = scattered;
                remaining = remaining - 1;
            },
            Bounce::Finish(end) => {
                proof {
                    lemma_first_bounce(world, rays, attenuations@);
                }
                return Path { attenuations, last: current, end, rays: Ghost(rays) };
            },
        }
    }
    proof {
        lemma_first_bounce(world, rays, attenuations@);
    }
    Path { attenuations, last: current, end: PathEnd::Exhausted, rays: Ghost(rays) }
}

/// A walk with at least one bounce starts with a ray that hits.
pub proof fn lemma_first_bounce<T: Hittable>(world: &T, rays: Seq<Ray>, attenuations: Seq<Color>)
    requires
        follows(world, rays, attenuations),
    ensures
        attenuations.len() > 0 ==> bounces(world, rays[0], rays[1], attenuations[0]),
        attenuations.len() > 0 ==> world.hit_spec(&rays[0], &initial_t_bound_spec()) is Some,
{
    if attenuations.len() > 0 {
        assert(bounces(world, rays[0], rays[1], attenuations[0]));
    }
}

} // verus!
