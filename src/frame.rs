//! The frame driver's integer side: the validated configuration, the order in
//! which pixels are visited and stored, the jitter drawn for each sample, and
//! the packing of encoded pixels into an RGBA buffer.

use vstd::prelude::*;
use crate::rng::{Rng, output, step};

verus! {

/// Why a frame configuration was refused.
#[derive(Clone, Copy, Debug, PartialEq, Eq, Structural)]
pub enum ConfigError {
    ZeroWidth,
    ZeroHeight,
    /// Fewer than one sample per pixel.
    NoSamples,
    /// A negative bounce budget.
    NegativeDepth,
    /// More pixels than the machine can index.
    TooManyPixels,
}

/// The size of the frame, the samples taken per pixel, and the bounces
/// allowed per path.
#[derive(Clone, Copy, Debug, PartialEq, Eq, Structural)]
pub struct FrameConfig {
    pub width: u32,
    pub height: u32,
    pub samples_per_pixel: i32,
    pub max_depth: i32,
}

/// The check that `FrameConfig::new` makes, in its order: the first error
/// found, or none.
pub open spec fn config_error(width: u32, height: u32, samples_per_pixel: i32, max_depth: i32) -> Option<ConfigError> {
    if width == 0 {
        Some(ConfigError::ZeroWidth)
    } else if height == 0 {
        Some(ConfigError::ZeroHeight)
    } else if samples_per_pixel < 1 {
        Some(ConfigError::NoSamples)
    } else if max_depth < 0 {
        Some(ConfigError::NegativeDepth)
    } else if width * height > usize::MAX {
        Some(ConfigError::TooManyPixels)
    } else {
        None
    }
}

/// How the sample within a pixel is placed.
#[derive(Clone, Copy, Debug, PartialEq, Eq, Structural)]
pub enum Jitter {
    /// With one sample per pixel nothing is drawn: both offsets are 1.
    Fixed,
    /// Two raw uniform draws, for the horizontal and the vertical offset, each
    /// standing for `k / 2^32`.
    Drawn { u: u32, v: u32 },
}

/// An encoded pixel: one byte per channel.
#[derive(Clone, Copy, Debug, PartialEq, Eq, Structural)]
pub struct Rgb8 {
    pub r: u8,
    pub g: u8,
    pub b: u8,
}

impl FrameConfig {
    /// The configuration holds a frame that can be rendered.
    pub open spec fn wf(self) -> bool {
        config_error(self.width, self.height, self.samples_per_pixel, self.max_depth) is None
    }

    /// The number of pixels.
    pub open spec fn count(self) -> int {
        self.width * self.height
    }

    /// The pixel stored at index `i`: rows from the top of the image (the
    /// largest `y`) down, each row from left to right.
    pub open spec fn position_spec(self, i: int) -> (int, int) {
        (i % self.width as int, self.height - 1 - i / self.width as int)
    }

    /// The index at which pixel `(x, y)` is stored.
    pub open spec fn index_spec(self, x: int, y: int) -> int {
        (self.height - 1 - y) * self.width + x
    }

    /// A validated configuration; the first of the checks of `config_error`
    /// that fails is the error.
    pub fn new(width: u32, height: u32, samples_per_pixel: i32, max_depth: i32) -> (r: Result<
        FrameConfig,
        ConfigError,
    >)
        ensures
            match config_error(width, height, samples_per_pixel, max_depth) {
                Some(e) => r == Err::<FrameConfig, ConfigError>(e),
                None => r == Ok::<FrameConfig, ConfigError>(
                    FrameConfig { width, height, samples_per_pixel, max_depth },
                ),
            },
    {
        if width == 0 {
            Err(ConfigError::ZeroWidth)
        } else if height == 0 {
            Err(ConfigError::ZeroHeight)
        } else if samples_per_pixel < 1 {
            Err(ConfigError::NoSamples)
        } else if max_depth < 0 {
            Err(ConfigError::NegativeDepth)
        } else if {
            assert(width as u64 * height as u64 <= u64::MAX) by (nonlinear_arith)
                requires
                    width <= u32::MAX,
                    height <= u32::MAX,
            ;
            width as u64 * height as u64 > usize::MAX as u64
        } {
            Err(ConfigError::TooManyPixels)
        } else {
            Ok(FrameConfig { width, height, samples_per_pixel, max_depth })
        }
    }

    /// The number of pixels, the length of the frame's buffers.
    pub fn pixel_count(&self) -> (n: usize)
        requires
            self.wf(),
        ensures
            n == self.count(),
    {
        self.width as usize * self.height as usize
    }

    /// The pixel `(x, y)` stored at index `i`; `y` grows upwards.
    pub fn pixel_position(&self, i: usize) -> (r: (u32, u32))
        requires
            self.wf(),
            i < self.count(),
        ensures
            (r.0 as int, r.1 as int) == self.position_spec(i as int),
            r.0 < self.width,
            r.1 < self.height,
            self.index_spec(r.0 as int, r.1 as int) == i,
    {
        let w = self.width as usize;
        let row = i / w;
        let x = i % w;
        proof {
            let (wi, hi, ii) = (self.width as int, self.height as int, i as int);
            assert(ii / wi < hi) by (nonlinear_arith)
                requires
                    0 <= ii < wi * hi,
                    wi > 0,
            ;
            assert(ii == (ii / wi) * wi + ii % wi) by (nonlinear_arith)
                requires
                    wi > 0,
            ;
        }
        (x as u32, self.height - 1 - row as u32)
    }

    /// The index at which pixel `(x, y)` is stored.
    pub fn pixel_index(&self, x: u32, y: u32) -> (i: usize)
        requires
            self.wf(),
            x < self.width,
            y < self.height,
        ensures
            i == self.index_spec(x as int, y as int),
            i < self.count(),
            self.position_spec(i as int) == (x as int, y as int),
    {
        let row = (self.height - 1 - y) as usize;
        let w = self.width as usize;
        proof {
            let (wi, hi, ri, xi) = (self.width as int, self.height as int, row as int, x as int);
            assert(ri * wi + xi < wi * hi) by (nonlinear_arith)
                requires
                    0 <= ri < hi,
                    0 <= xi < wi,
            ;
            assert((ri * wi + xi) / wi == ri && (ri * wi + xi) % wi == xi) by (nonlinear_arith)
                requires
                    0 <= xi < wi,
                    ri >= 0,
            ;
        }
        row * w + x as usize
    }

    /// The jitter of the next sample: with more than one sample per pixel two
    /// draws, the horizontal one first; with one sample nothing is drawn.
    pub fn jitter(&self, rng: &mut Rng) -> (j: Jitter)
        ensures
            self.samples_per_pixel > 1 ==> {
                &&& final(rng)@ == step(step(old(rng)@))
                &&& j == (Jitter::Drawn {
                    u: output(step(old(rng)@)),
                    v: output(step(step(old(rng)@))),
                })
            },
            self.samples_per_pixel <= 1 ==> j == Jitter::Fixed && final(rng)@ == old(rng)@,
    {
        if self.samples_per_pixel > 1 {
            let u = rng.next_u32();
            let v = rng.next_u32();
            Jitter::Drawn { u, v }
        } else {
            Jitter::Fixed
        }
    }
}

/// Packs encoded pixels into an RGBA byte buffer, four bytes per pixel in
/// order, every pixel opaque.
pub fn pack_rgba(pixels: &Vec<Rgb8>) -> (r: Vec<u8>)
    requires
        4 * pixels@.len() <= usize::MAX,
    ensures
        r@.len() == 4 * pixels@.len(),
        forall|i: int|
            0 <= i < pixels@.len() ==> {
                &&& #[trigger] r@[4 * i] == pixels@[i].r
                &&& r@[4 * i + 1] == pixels@[i].g
                &&& r@[4 * i + 2] == pixels@[i].b
                &&& r@[4 * i + 3] == 255
            },
{
    let mut r: Vec<u8> = Vec::with_capacity(4 * pixels.len());
    let mut i: usize = 0;
    while i < pixels.len()
        invariant
            i <= pixels@.len(),
            r@.len() == 4 * i,
            forall|k: int|
                0 <= k < i ==> {
                    &&& #[trigger] r@[4 * k] == pixels@[k].r
                    &&& r@[4 * k + 1] == pixels@[k].g
                    &&& r@[4 * k + 2] == pixels@[k].b
                    &&& r@[4 * k + 3] == 255
                },
        decreases pixels.len() - i,
    {
        let p = pixels[i];
        let ghost before = r@;
        r.push(p.r);
        r.push(p.g);
        r.push(p.b);
        r.push(255);
        assert(r@ == before + seq![p.r, p.g, p.b, 255u8]);
        assert forall|k: int| 0 <= k <= i implies {
            &&& #[trigger] r@[4 * k] == pixels@[k].r
            &&& r@[4 * k + 1] == pixels@[k].g
            &&& r@[4 * k + 2] == pixels@[k].b
            &&& r@[4 * k + 3] == 255
        } by {
            if k < i {
                assert(r@[4 * k] == before[4 * k]);
            }
        }
        i = i + 1;
    }
    r
}

} // verus!
