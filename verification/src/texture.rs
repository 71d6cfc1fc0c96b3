//! In-memory 2D grids of 8-bit RGB samples.
//!
//! Decoding an image file into such a grid is the caller's business; the
//! renderer only reads pixels and never mutates a texture.

use vstd::prelude::*;
use vstd::arithmetic::div_mod::lemma_div_is_ordered;
use crate::color::{channel_from_u8_s, Color};
use crate::fixed::{fx_clamp, fx_clamp_s, FX_ONE};

verus! {

/// A row-major grid of 8-bit RGB pixels with at least one pixel.
pub struct Texture {
    pub width: u32,
    pub height: u32,
    pub pixels: Vec<(u8, u8, u8)>,
}

impl Texture {
    /// The sample stored at column `x` of row `y`.
    pub open spec fn spec_pixel(&self, x: int, y: int) -> (u8, u8, u8) {
        self.pixels@[y * self.width + x]
    }

    /// The texel a (u, v) pair in `[0, 1]` selects: each coordinate is
    /// clamped to `[0, 1)` (the largest fixed-point value below one) and
    /// scaled to a pixel index by truncation, so the v = 1 and u = 1 edges
    /// cannot read out of bounds.
    pub open spec fn spec_sample(&self, u: int, v: int) -> Color {
        let uc = fx_clamp_s(u, 0, FX_ONE - 1);
        let vc = fx_clamp_s(v, 0, FX_ONE - 1);
        let x = (uc * self.width) / (FX_ONE as int);
        let y = (vc * self.height) / (FX_ONE as int);
        let p = self.spec_pixel(x, y);
        Color {
            r: channel_from_u8_s(p.0 as int) as i64,
            g: channel_from_u8_s(p.1 as int) as i64,
            b: channel_from_u8_s(p.2 as int) as i64,
        }
    }

    /// The grid really is `width` by `height`, row-major, and not empty.
    pub open spec fn wf(&self) -> bool {
        &&& self.width >= 1
        &&& self.height >= 1
        &&& self.pixels@.len() == (self.width as int) * (self.height as int)
    }

    pub open spec fn spec_width(&self) -> u32 {
        self.width
    }

    pub open spec fn spec_height(&self) -> u32 {
        self.height
    }

    /// Wrap a decoded pixel grid; `pixels` holds the rows top to bottom,
    /// each row left to right.
    pub fn new(width: u32, height: u32, pixels: Vec<(u8, u8, u8)>) -> (t: Texture)
        requires
            width >= 1,
            height >= 1,
            pixels@.len() == (width as int) * (height as int),
        ensures
            t.wf(),
            t.spec_width() == width,
            t.spec_height() == height,
            forall|x: int, y: int|
                0 <= x < width && 0 <= y < height ==> #[trigger] t.spec_pixel(x, y) == pixels@[y
                    * width + x],
    {
        Texture { width, height, pixels }
    }

    #[verifier::when_used_as_spec(spec_width)]
    pub fn width(&self) -> (w: u32)
        ensures
            w == self.spec_width(),
    {
        self.width
    }

    #[verifier::when_used_as_spec(spec_height)]
    pub fn height(&self) -> (h: u32)
        ensures
            h == self.spec_height(),
    {
        self.height
    }

    /// Read one pixel.
    pub fn get_pixel(&self, x: u32, y: u32) -> (p: (u8, u8, u8))
        requires
            self.wf(),
            x < self.spec_width(),
            y < self.spec_height(),
        ensures
            p == self.spec_pixel(x as int, y as int),
    {
        let n: usize = self.pixels.len();
        proof {
            lemma_index_in_grid(self.width as int, self.height as int, x as int, y as int);
            assert((y as int) * (self.width as int) + (x as int) < n);
        }
        let idx: usize = (y as usize) * (self.width as usize) + (x as usize);
        self.pixels[idx]
    }

    /// Sample the texel that a (u, v) pair in `[0, 1]` selects.
    pub fn sample(&self, u: i64, v: i64) -> (c: Color)
        requires
            self.wf(),
        ensures
            c == self.spec_sample(u as int, v as int),
            c.wf(),
            0 <= c.r <= FX_ONE && 0 <= c.g <= FX_ONE && 0 <= c.b <= FX_ONE,
    {
        let uc: i64 = fx_clamp(u, 0, FX_ONE - 1);
        let vc: i64 = fx_clamp(v, 0, FX_ONE - 1);
        proof {
            lemma_scaled_coord_in_range(uc as int, self.width as int);
            lemma_scaled_coord_in_range(vc as int, self.height as int);
        }
        let x: u32 = (((uc as u64) * (self.width as u64)) / (FX_ONE as u64)) as u32;
        let y: u32 = (((vc as u64) * (self.height as u64)) / (FX_ONE as u64)) as u32;
        let p: (u8, u8, u8) = self.get_pixel(x, y);
        Color::from_u8(p.0, p.1, p.2)
    }
}

/// A clamped coordinate scaled by the grid extent stays inside the grid.
proof fn lemma_scaled_coord_in_range(c: int, extent: int)
    requires
        0 <= c <= FX_ONE - 1,
        extent >= 1,
    ensures
        0 <= c * extent <= 65536 * extent - 1,
        0 <= (c * extent) / (FX_ONE as int) < extent,
{
    assert(0 <= c * extent <= 65536 * extent - extent) by (nonlinear_arith)
        requires
            0 <= c <= 65535,
            extent >= 1,
    ;
    lemma_div_is_ordered(c * extent, 65536 * extent - 1, 65536);
    assert((65536 * extent - 1) / 65536 == extent - 1) by (nonlinear_arith)
        requires
            extent >= 1,
    ;
}

/// A row-major index computed from in-range coordinates is in range.
proof fn lemma_index_in_grid(w: int, h: int, x: int, y: int)
    requires
        w >= 1,
        h >= 1,
        0 <= x < w,
        0 <= y < h,
    ensures
        0 <= y * w + x < w * h,
{
    assert(y * w + x < w * h) by (nonlinear_arith)
        requires
            0 <= x < w,
            0 <= y < h,
    ;
}

} // verus!
