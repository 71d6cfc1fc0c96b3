//! Linear RGB colors over fixed-point scalars.
//!
//! Channel values are unbounded during accumulation and are clamped to
//! `[0, FX_ONE]` only when a color is packed into an 8-bit pixel.

use vstd::prelude::*;
use vstd::arithmetic::div_mod::{lemma_fundamental_div_mod, lemma_mod_bound, lemma_div_is_ordered};
use crate::fixed::{
    fx_add, fx_add_s, fx_clamp, fx_clamp_s, fx_mul, fx_mul_s, fx_wf, FX_ONE,
};

verus! {

/// A linear light value; channels may exceed 1.0 while contributions are
/// being accumulated.
#[derive(Clone, Copy, Debug, PartialEq, Eq, Structural)]
pub struct Color {
    pub r: i64,
    pub g: i64,
    pub b: i64,
}

/// An 8-bit channel scaled into `[0, FX_ONE]`.
pub open spec fn channel_from_u8_s(v: int) -> int {
    (v * FX_ONE) / 255
}

/// A fixed-point channel clamped to `[0, FX_ONE]` and scaled to 8 bits by
/// truncation.
pub open spec fn channel_to_u8_s(c: int) -> int {
    (fx_clamp_s(c, 0, FX_ONE as int) * 255) / (FX_ONE as int)
}

/// The packed 24-bit pixel `0xRRGGBB` of a color.
pub open spec fn pack_s(c: Color) -> int {
    channel_to_u8_s(c.r as int) * 0x10000 + channel_to_u8_s(c.g as int) * 0x100 + channel_to_u8_s(
        c.b as int,
    )
}

pub open spec fn cadd_s(a: Color, b: Color) -> Color {
    Color {
        r: fx_add_s(a.r as int, b.r as int) as i64,
        g: fx_add_s(a.g as int, b.g as int) as i64,
        b: fx_add_s(a.b as int, b.b as int) as i64,
    }
}

pub open spec fn cmul_s(a: Color, b: Color) -> Color {
    Color {
        r: fx_mul_s(a.r as int, b.r as int) as i64,
        g: fx_mul_s(a.g as int, b.g as int) as i64,
        b: fx_mul_s(a.b as int, b.b as int) as i64,
    }
}

pub open spec fn cscale_s(a: Color, s: int) -> Color {
    Color {
        r: fx_mul_s(a.r as int, s) as i64,
        g: fx_mul_s(a.g as int, s) as i64,
        b: fx_mul_s(a.b as int, s) as i64,
    }
}

pub open spec fn cclamp_s(a: Color) -> Color {
    Color {
        r: fx_clamp_s(a.r as int, 0, FX_ONE as int) as i64,
        g: fx_clamp_s(a.g as int, 0, FX_ONE as int) as i64,
        b: fx_clamp_s(a.b as int, 0, FX_ONE as int) as i64,
    }
}

impl Color {
    pub open spec fn wf(self) -> bool {
        fx_wf(self.r) && fx_wf(self.g) && fx_wf(self.b)
    }

    pub fn new(r: i64, g: i64, b: i64) -> (c: Color)
        requires
            fx_wf(r),
            fx_wf(g),
            fx_wf(b),
        ensures
            c == (Color { r, g, b }),
            c.wf(),
    {
        Color { r, g, b }
    }

    /// An 8-bit RGB triple normalized into `[0, 1]`.
    pub fn from_u8(r: u8, g: u8, b: u8) -> (c: Color)
        ensures
            c.r == channel_from_u8_s(r as int),
            c.g == channel_from_u8_s(g as int),
            c.b == channel_from_u8_s(b as int),
            c.wf(),
            0 <= c.r <= FX_ONE && 0 <= c.g <= FX_ONE && 0 <= c.b <= FX_ONE,
    {
        proof {
            lemma_channel_from_u8_bounds(r as int);
            lemma_channel_from_u8_bounds(g as int);
            lemma_channel_from_u8_bounds(b as int);
        }
        Color {
            r: ((r as u32 * 65536) / 255) as i64,
            g: ((g as u32 * 65536) / 255) as i64,
            b: ((b as u32 * 65536) / 255) as i64,
        }
    }

    pub fn black() -> (c: Color)
        ensures
            c == (Color { r: 0i64, g: 0i64, b: 0i64 }),
            c.wf(),
    {
        Color { r: 0, g: 0, b: 0 }
    }

    /// Clamp each channel to `[0, 1]` and pack to a `0xRRGGBB` pixel.
    pub fn to_u32(&self) -> (p: u32)
        requires
            self.wf(),
        ensures
            p == pack_s(*self),
    {
        let r: u32 = Self::channel_to_u8(self.r);
        let g: u32 = Self::channel_to_u8(self.g);
        let b: u32 = Self::channel_to_u8(self.b);
        r * 0x10000 + g * 0x100 + b
    }

    /// Clamp one channel to `[0, 1]` and scale it to 8 bits by truncation.
    fn channel_to_u8(c: i64) -> (v: u32)
        requires
            fx_wf(c),
        ensures
            v == channel_to_u8_s(c as int),
            v <= 255,
    {
        let cl: i64 = fx_clamp(c, 0, FX_ONE);
        let scaled: u64 = ((cl as u64) * 255) / 65536;
        proof {
            lemma_div_is_ordered(cl as int * 255, 65536int * 255, 65536);
        }
        scaled as u32
    }

    /// Clamp every channel to `[0, 1]`.
    pub fn clamp(self) -> (c: Color)
        requires
            self.wf(),
        ensures
            c == cclamp_s(self),
            c.wf(),
    {
        Color {
            r: fx_clamp(self.r, 0, FX_ONE),
            g: fx_clamp(self.g, 0, FX_ONE),
            b: fx_clamp(self.b, 0, FX_ONE),
        }
    }

    /// Componentwise saturating sum.
    pub fn plus(&self, o: &Color) -> (c: Color)
        requires
            self.wf(),
            o.wf(),
        ensures
            c == cadd_s(*self, *o),
            c.wf(),
    {
        Color { r: fx_add(self.r, o.r), g: fx_add(self.g, o.g), b: fx_add(self.b, o.b) }
    }

    /// Componentwise saturating product with another color.
    pub fn times(&self, o: &Color) -> (c: Color)
        requires
            self.wf(),
            o.wf(),
        ensures
            c == cmul_s(*self, *o),
            c.wf(),
    {
        Color { r: fx_mul(self.r, o.r), g: fx_mul(self.g, o.g), b: fx_mul(self.b, o.b) }
    }

    /// Componentwise saturating product with a scalar.
    pub fn scale(&self, s: i64) -> (c: Color)
        requires
            self.wf(),
            fx_wf(s),
        ensures
            c == cscale_s(*self, s as int),
            c.wf(),
    {
        Color { r: fx_mul(self.r, s), g: fx_mul(self.g, s), b: fx_mul(self.b, s) }
    }
}

/// Normalizing an 8-bit value lands in `[0, FX_ONE]`.
proof fn lemma_channel_from_u8_bounds(v: int)
    requires
        0 <= v <= 255,
    ensures
        0 <= channel_from_u8_s(v) <= FX_ONE,
{
    lemma_div_is_ordered(v * FX_ONE, 255int * FX_ONE, 255);
}

/// Packing a channel to 8 bits and normalizing it back loses at most
/// `FX_ONE / 255` (one 8-bit step, about 257 fixed-point units): the
/// round trip never exceeds the clamped original and falls short of it by
/// at most 257.
pub proof fn lemma_channel_roundtrip(c: int)
    requires
        0 <= c <= FX_ONE,
    ensures
        channel_from_u8_s(channel_to_u8_s(c)) <= c,
        c - channel_from_u8_s(channel_to_u8_s(c)) <= 257,
{
    let p = channel_to_u8_s(c);
    assert(p == (c * 255) / 65536);
    lemma_fundamental_div_mod(c * 255, 65536);
    lemma_mod_bound(c * 255, 65536);
    let s = (c * 255) % 65536;
    assert(c * 255 == 65536 * p + s);
    let u = channel_from_u8_s(p);
    assert(u == (p * 65536) / 255);
    lemma_fundamental_div_mod(p * 65536, 255);
    lemma_mod_bound(p * 65536, 255);
    let t = (p * 65536) % 255;
    assert(p * 65536 == 255 * u + t);
    assert(255 * (c - u) == s + t) by (nonlinear_arith)
        requires
            c * 255 == 65536 * p + s,
            p * 65536 == 255 * u + t,
    ;
    assert(0 <= s + t <= 65789);
    assert(c - u <= 257 && c - u >= 0) by (nonlinear_arith)
        requires
            255 * (c - u) == s + t,
            0 <= s + t <= 65789,
    ;
}

/// Round trip for a whole color: packing to 8 bits per channel and
/// normalizing back reproduces each channel within one 8-bit step.
pub proof fn lemma_color_roundtrip(c: Color)
    requires
        0 <= c.r <= FX_ONE,
        0 <= c.g <= FX_ONE,
        0 <= c.b <= FX_ONE,
    ensures
        c.r - 257 <= channel_from_u8_s(channel_to_u8_s(c.r as int)) <= c.r,
        c.g - 257 <= channel_from_u8_s(channel_to_u8_s(c.g as int)) <= c.g,
        c.b - 257 <= channel_from_u8_s(channel_to_u8_s(c.b as int)) <= c.b,
{
    lemma_channel_roundtrip(c.r as int);
    lemma_channel_roundtrip(c.g as int);
    lemma_channel_roundtrip(c.b as int);
}

} // verus!
