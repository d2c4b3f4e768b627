//! Immutable 2D images sampled by UV coordinates with wrap.
//!
//! A texture is a row-major RGBA byte array of a known width and height,
//! with `v = 0` at the top row. Sampling is nearest-neighbour: the UV pair
//! is folded into `[0, 1)` by the positive modulo, scaled to a pixel, and
//! the pixel's RGB is returned (alpha is discarded).

use vstd::prelude::*;
use crate::color::Color;
use crate::fx::fx_emod;

verus! {

#[derive(Clone, Debug)]
pub struct Texture {
    pub width: u32,
    pub height: u32,
    pub data: Vec<u8>,
}

/// A well-formed texture: positive extent and four bytes per pixel.
pub open spec fn tex_wf(t: Texture) -> bool {
    &&& t.width > 0
    &&& t.height > 0
    &&& t.data@.len() == 4 * t.width * t.height
}

/// The color at UV `(u, v)` (16.16 fixed-point): fold each coordinate by
/// the positive modulo with 1, scale to the pixel grid, and read that
/// pixel's RGB.
pub open spec fn sample_s(t: Texture, u: int, v: int) -> Color
    recommends
        tex_wf(t),
{
    let x = ((u % 65536) * t.width) / 65536;
    let y = ((v % 65536) * t.height) / 65536;
    let idx = 4 * (y * t.width + x);
    Color { r: t.data@[idx], g: t.data@[idx + 1], b: t.data@[idx + 2] }
}

/// Shifting either UV coordinate by a whole period leaves the sample
/// unchanged: the texture wraps.
pub proof fn lemma_sample_wrap(t: Texture, u: int, v: int)
    ensures
        sample_s(t, u + 65536, v) == sample_s(t, u, v),
        sample_s(t, u, v + 65536) == sample_s(t, u, v),
{
    vstd::arithmetic::div_mod::lemma_mod_add_multiples_vanish(u, 65536);
    vstd::arithmetic::div_mod::lemma_mod_add_multiples_vanish(v, 65536);
}

impl Texture {
    /// A texture from its extent and RGBA bytes; `None` when the extent is
    /// degenerate or the byte count does not match it.
    pub fn new(width: u32, height: u32, data: Vec<u8>) -> (r: Option<Texture>)
        ensures
            r is Some <==> width > 0 && height > 0 && data@.len() == 4 * width * height,
            r is Some ==> r == Some(Texture { width, height, data }),
    {
        proof {
            assert(4 * (width as int) * (height as int) <= 4 * 0xffffffff * 0xffffffff)
                by (nonlinear_arith)
                requires
                    0 <= width <= 0xffffffff && 0 <= height <= 0xffffffff,
            ;
        }
        let expected: u128 = 4u128 * (width as u128) * (height as u128);
        if width > 0 && height > 0 && (data.len() as u128) == expected {
            Some(Texture { width, height, data })
        } else {
            None
        }
    }

    /// The color at UV `(u, v)` in 16.16 fixed point, wrapping both
    /// coordinates by 1.
    pub fn get_color(&self, u: i64, v: i64) -> (c: Color)
        requires
            tex_wf(*self),
        ensures
            c == sample_s(*self, u as int, v as int),
    {
        let uu: i64 = fx_emod(u, 65536);
        let vv: i64 = fx_emod(v, 65536);
        proof {
            vstd::arithmetic::div_mod::lemma_mod_bound(u as int, 65536);
            vstd::arithmetic::div_mod::lemma_mod_bound(v as int, 65536);
            assert((uu as int) * (self.width as int) < 65536 * (self.width as int)
                && (vv as int) * (self.height as int) < 65536 * (self.height as int)
                && (uu as int) * (self.width as int) >= 0
                && (vv as int) * (self.height as int) >= 0) by (nonlinear_arith)
                requires
                    0 <= uu < 65536 && 0 <= vv < 65536 && self.width > 0 && self.height > 0,
            ;
            vstd::arithmetic::div_mod::lemma_multiply_divide_lt(
                uu as int * self.width as int,
                65536,
                self.width as int,
            );
            vstd::arithmetic::div_mod::lemma_multiply_divide_lt(
                vv as int * self.height as int,
                65536,
                self.height as int,
            );
        }
        let x: u64 = ((uu as u64) * (self.width as u64)) / 65536;
        let y: u64 = ((vv as u64) * (self.height as u64)) / 65536;
        proof {
            assert((y as int) * (self.width as int) + (x as int) <= (self.width as int) * (
            self.height as int) - 1 && (y as int) * (self.width as int) + (x as int) >= 0)
                by (nonlinear_arith)
                requires
                    0 <= x < self.width && 0 <= y < self.height,
            ;
            assert(4 * ((self.width as int) * (self.height as int)) == 4 * (self.width as int) * (
            self.height as int)) by (nonlinear_arith);
        }
        let _len: usize = self.data.len();
        let idx: usize = 4 * ((y as usize) * (self.width as usize) + (x as usize));
        Color { r: self.data[idx], g: self.data[idx + 1], b: self.data[idx + 2] }
    }
}

} // verus!
