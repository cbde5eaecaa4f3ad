//! The order in which an image is rendered.
//!
//! Rendering goes through the pixels row by row from the top, and from left
//! to right within a row. Each pixel takes its samples one after the other
//! and is then emitted as their average. A sweep says, step by step, what is
//! to be done next; taking the samples and averaging them is the caller's.
//! A frame is a sweep together with the image that it fills: it takes each
//! pixel when it is emitted and holds them in the order of the sweep.
use vstd::prelude::*;
use vstd::arithmetic::div_mod::lemma_fundamental_div_mod_converse;
use crate::color::Color;

verus! {

/// What a renderer does next.
#[derive(Debug, Clone, Copy, PartialEq, Eq, Structural)]
pub enum Step {
    /// Take one more sample of the pixel and add it to the pixel's sum.
    Sample { row: u32, col: u32 },
    /// Divide the pixel's sum by the number of samples, put the result out,
    /// and clear the sum for the next pixel.
    Emit { row: u32, col: u32 },
    /// Every pixel has been put out.
    Done,
}

/// The step with the number `k`, counted from zero, in the rendering of an
/// image of the given size with the given number of samples for each pixel.
/// A pixel takes one step for each sample and one more to be emitted; the
/// pixels follow each other row by row.
pub open spec fn step_at(width: u32, height: u32, samples: u32, k: int) -> Step {
    let pixel = k / (samples + 1);
    let within = k % (samples + 1);
    if k < 0 || k >= width * height * (samples + 1) {
        Step::Done
    } else if within < samples {
        Step::Sample { row: (pixel / (width as int)) as u32, col: (pixel % (width as int)) as u32 }
    } else {
        Step::Emit { row: (pixel / (width as int)) as u32, col: (pixel % (width as int)) as u32 }
    }
}

/// The rendering of one image, as far as it has come.
pub struct Sweep {
    width: u32,
    height: u32,
    samples: u32,
    row: u32,
    col: u32,
    taken: u32,
}

impl Sweep {
    #[verifier::type_invariant]
    spec fn in_image(self) -> bool {
        ||| self.row < self.height && self.col < self.width && self.taken <= self.samples
        ||| self.row == self.height && self.col == 0 && self.taken == 0
    }

    /// The number of pixel columns.
    pub closed spec fn width(&self) -> u32 {
        self.width
    }

    /// The number of pixel rows.
    pub closed spec fn height(&self) -> u32 {
        self.height
    }

    /// The number of samples for each pixel.
    pub closed spec fn samples(&self) -> u32 {
        self.samples
    }

    /// The number of steps taken so far.
    pub closed spec fn taken(&self) -> int {
        (self.row * self.width + self.col) * (self.samples + 1) + self.taken
    }

    /// The number of pixels emitted so far, which is the place of the pixel
    /// that is at work in the row-by-row order of the image.
    pub closed spec fn emitted(&self) -> int {
        self.row * self.width + self.col
    }

    /// The number of steps that the rendering takes in all.
    pub open spec fn steps(&self) -> int {
        self.width() * self.height() * (self.samples() + 1)
    }

    /// Starts the rendering of an image.
    pub fn new(width: u32, height: u32, samples: u32) -> (sweep: Self)
        ensures
            sweep.width() == width,
            sweep.height() == height,
            sweep.samples() == samples,
            sweep.taken() == 0,
            sweep.emitted() == 0,
    {
        if width == 0 || height == 0 {
            let sweep = Sweep { width, height, samples, row: height, col: 0, taken: 0 };
            assert(sweep.taken() == 0) by (nonlinear_arith)
                requires
                    sweep.taken() == (height * width + 0) * (samples + 1) + 0,
                    width == 0 || height == 0,
            ;
            assert(sweep.emitted() == 0) by (nonlinear_arith)
                requires
                    sweep.emitted() == height * width + 0,
                    width == 0 || height == 0,
            ;
            sweep
        } else {
            let sweep = Sweep { width, height, samples, row: 0, col: 0, taken: 0 };
            assert(sweep.taken() == 0) by (nonlinear_arith)
                requires
                    sweep.taken() == (0 * width + 0) * (samples + 1) + 0,
            ;
            sweep
        }
    }

    /// Says what is to be done next, and counts it as taken. After the last
    /// step every further one is `Done` and counts for nothing.
    pub fn next(&mut self) -> (step: Step)
        ensures
            step == step_at(
                old(self).width(),
                old(self).height(),
                old(self).samples(),
                old(self).taken(),
            ),
            final(self).width() == old(self).width(),
            final(self).height() == old(self).height(),
            final(self).samples() == old(self).samples(),
            step == Step::Done ==> final(self).taken() == old(self).taken() && old(self).taken()
                == old(self).steps(),
            step != Step::Done ==> final(self).taken() == old(self).taken() + 1 && old(self).taken() < old(self).steps(),
            match step {
                Step::Sample { row, col } => row < old(self).height() && col < old(self).width()
                    && old(self).emitted() == row * old(self).width() + col && final(self).emitted() == old(self).emitted(),
                Step::Emit { row, col } => row < old(self).height() && col < old(self).width()
                    && old(self).emitted() == row * old(self).width() + col && final(self).emitted() == old(self).emitted() + 1,
                Step::Done => old(self).emitted() == old(self).width() * old(self).height()
                    && final(self).emitted() == old(self).emitted(),
            },
    {
        proof {
            use_type_invariant(&*self);
        }
        let ghost per = self.samples + 1;
        let ghost pixel = self.row * self.width + self.col;
        let ghost before = self.taken();
        if self.row >= self.height {
            proof {
                assert(before == self.width * self.height * per) by (nonlinear_arith)
                    requires
                        before == (self.row * self.width + self.col) * per + self.taken,
                        self.row == self.height,
                        self.col == 0,
                        self.taken == 0,
                ;
                assert(self.emitted() == self.width * self.height) by (nonlinear_arith)
                    requires
                        self.emitted() == self.row * self.width + self.col,
                        self.row == self.height,
                        self.col == 0,
                ;
            }
            return Step::Done;
        }
        let row = self.row;
        let col = self.col;
        proof {
            lemma_fundamental_div_mod_converse(before, per, pixel, self.taken as int);
            lemma_fundamental_div_mod_converse(pixel, self.width as int, row as int, col as int);
            assert(0 <= pixel) by (nonlinear_arith)
                requires
                    pixel == self.row * self.width + self.col,
            ;
            assert(before < self.width * self.height * per) by (nonlinear_arith)
                requires
                    before == pixel * per + self.taken,
                    pixel == self.row * self.width + self.col,
                    self.row < self.height,
                    self.col < self.width,
                    self.taken < per,
                    per > 0,
            ;
            assert(0 <= before) by (nonlinear_arith)
                requires
                    before == pixel * per + self.taken,
                    0 <= pixel,
                    per > 0,
            ;
        }
        if self.taken < self.samples {
            self.taken = self.taken + 1;
            return Step::Sample { row, col };
        }
        self.taken = 0;
        if self.col + 1 < self.width {
            self.col = self.col + 1;
        } else {
            self.col = 0;
            self.row = self.row + 1;
        }
        proof {
            assert(self.row * self.width + self.col == pixel + 1) by (nonlinear_arith)
                requires
                    pixel == row * self.width + col,
                    (self.row == row && self.col == col + 1) || (self.row == row + 1 && self.col
                        == 0 && col + 1 == self.width),
            ;
            assert(self.taken() == before + 1) by (nonlinear_arith)
                requires
                    self.taken() == (self.row * self.width + self.col) * per + 0,
                    self.row * self.width + self.col == pixel + 1,
                    before == pixel * per + (per - 1),
            ;
        }
        Step::Emit { row, col }
    }
}

/// Each pixel is sampled as often as was asked and then emitted, and the
/// pixels come row by row: the pixel in row `row` and column `col` takes the
/// steps from `(row * width + col) * (samples + 1)` on, first its samples and
/// last its emission. After `width * height * (samples + 1)` steps the
/// rendering is done.
pub proof fn lemma_steps_of_a_pixel(width: u32, height: u32, samples: u32, row: u32, col: u32, s: int)
    requires
        row < height,
        col < width,
        0 <= s <= samples,
    ensures
        s < samples ==> step_at(
            width,
            height,
            samples,
            (row * width + col) * (samples + 1) + s,
        ) == (Step::Sample { row, col }),
        s == samples ==> step_at(
            width,
            height,
            samples,
            (row * width + col) * (samples + 1) + s,
        ) == (Step::Emit { row, col }),
        forall|k: int|
            k >= width * height * (samples + 1) ==> step_at(width, height, samples, k)
                == Step::Done,
{
    let per = samples + 1;
    let pixel = row * width + col;
    let k = pixel * per + s;
    lemma_fundamental_div_mod_converse(k, per, pixel, s);
    lemma_fundamental_div_mod_converse(pixel, width as int, row as int, col as int);
    assert(0 <= pixel) by (nonlinear_arith)
        requires
            pixel == row * width + col,
    ;
    assert(0 <= k < width * height * per) by (nonlinear_arith)
        requires
            k == pixel * per + s,
            pixel == row * width + col,
            row < height,
            col < width,
            0 <= s < per,
    ;
}

/// The image as far as it has been rendered: the pixels put out so far, in
/// the order of the sweep that says what is to be done next.
pub struct Frame {
    sweep: Sweep,
    pixels: Vec<Color>,
    awaited: Option<(u32, u32)>,
}

impl View for Frame {
    type V = Seq<Color>;

    /// The pixels put out so far, row by row.
    closed spec fn view(&self) -> Seq<Color> {
        self.pixels@
    }
}

impl Frame {
    /// The frame is in step with its sweep: it holds the pixels that the
    /// sweep has emitted, but for the one that is awaited.
    pub closed spec fn wf(&self) -> bool {
        &&& self.sweep.emitted() <= self.sweep.width() * self.sweep.height()
        &&& match self.awaited {
            Some((row, col)) => row < self.sweep.height() && col < self.sweep.width()
                && self.pixels@.len() == row * self.sweep.width() + col && self.sweep.emitted()
                == self.pixels@.len() + 1,
            None => self.sweep.emitted() == self.pixels@.len(),
        }
    }

    /// The number of pixel columns.
    pub closed spec fn width(&self) -> u32 {
        self.sweep.width()
    }

    /// The number of pixel rows.
    pub closed spec fn height(&self) -> u32 {
        self.sweep.height()
    }

    /// The number of samples for each pixel.
    pub closed spec fn samples(&self) -> u32 {
        self.sweep.samples()
    }

    /// The number of steps of the sweep taken so far.
    pub closed spec fn taken(&self) -> int {
        self.sweep.taken()
    }

    /// The pixel that was said to be emitted and has not been put yet.
    pub closed spec fn awaited(&self) -> Option<(u32, u32)> {
        self.awaited
    }

    /// Starts an image with no pixel in it.
    pub fn new(width: u32, height: u32, samples: u32) -> (frame: Self)
        ensures
            frame.wf(),
            frame.width() == width,
            frame.height() == height,
            frame.samples() == samples,
            frame.taken() == 0,
            frame.awaited() is None,
            frame@ == Seq::<Color>::empty(),
    {
        let sweep = Sweep::new(width, height, samples);
        assert(0 <= width * height) by (nonlinear_arith);
        Frame { sweep, pixels: Vec::new(), awaited: None }
    }

    /// Says what is to be done next, as the sweep does. A pixel that is to be
    /// emitted is awaited from then on: until it is put, the same step is
    /// said again and the sweep stands still. The pixel awaited is the next
    /// in the image: its place in the row-by-row order is the number of
    /// pixels put so far. When the sweep is done the image holds every pixel.
    pub fn next(&mut self) -> (step: Step)
        requires
            old(self).wf(),
        ensures
            final(self).wf(),
            final(self).width() == old(self).width(),
            final(self).height() == old(self).height(),
            final(self).samples() == old(self).samples(),
            final(self)@ == old(self)@,
            match old(self).awaited() {
                Some((row, col)) => step == (Step::Emit { row, col }) && final(self).taken()
                    == old(self).taken() && final(self).awaited() == old(self).awaited(),
                None => step == step_at(
                    old(self).width(),
                    old(self).height(),
                    old(self).samples(),
                    old(self).taken(),
                ) && final(self).taken() == old(self).taken() + if step == Step::Done {
                    0int
                } else {
                    1int
                },
            },
            match step {
                Step::Sample { row, col } => final(self).awaited() is None,
                Step::Emit { row, col } => final(self).awaited() == Some((row, col)) && row
                    < old(self).height() && col < old(self).width() && old(self)@.len() == row
                    * old(self).width() + col,
                Step::Done => final(self).awaited() is None && old(self)@.len() == old(self).width() * old(self).height(),
            },
    {
        match self.awaited {
            Some((row, col)) => Step::Emit { row, col },
            None => {
                let step = self.sweep.next();
                match step {
                    Step::Emit { row, col } => {
                        self.awaited = Some((row, col));
                        proof {
                            assert(self.sweep.emitted() <= self.sweep.width()
                                * self.sweep.height()) by (nonlinear_arith)
                                requires
                                    self.sweep.emitted() == row * self.sweep.width() + col + 1,
                                    row < self.sweep.height(),
                                    col < self.sweep.width(),
                            ;
                        }
                    },
                    _ => {},
                }
                step
            },
        }
    }

    /// Puts the pixel that is awaited into the image, after the pixels put
    /// before it. Where no pixel is awaited the image stays as it is.
    pub fn put(&mut self, pixel: Color)
        requires
            old(self).wf(),
        ensures
            final(self).wf(),
            final(self).width() == old(self).width(),
            final(self).height() == old(self).height(),
            final(self).samples() == old(self).samples(),
            final(self).taken() == old(self).taken(),
            final(self).awaited() is None,
            final(self)@ == if old(self).awaited() is Some {
                old(self)@.push(pixel)
            } else {
                old(self)@
            },
    {
        if self.awaited.is_some() {
            self.pixels.push(pixel);
            self.awaited = None;
        }
    }

    /// Gives up the frame for the pixels put into it, row by row.
    pub fn into_pixels(self) -> (pixels: Vec<Color>)
        ensures
            pixels@ == self@,
    {
        self.pixels
    }
}

} // verus!
