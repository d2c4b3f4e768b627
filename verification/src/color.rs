//! Linear RGB with saturating per-channel arithmetic and 24-bit packing.
//!
//! Channels are 8-bit; every arithmetic result saturates to `[0, 255]`
//! immediately, not only at the end of shading, so summing scaled halves
//! may differ from scaling a sum — that behaviour is part of the contract.

use vstd::prelude::*;
use crate::fx::tdiv;

verus! {

#[derive(Clone, Copy, PartialEq, Eq, Structural, Debug)]
pub struct Color {
    pub r: u8,
    pub g: u8,
    pub b: u8,
}

/// Clamp a mathematical integer into one channel's range `[0, 255]`.
pub open spec fn sat_u8(x: int) -> int {
    if x > 255 {
        255
    } else if x < 0 {
        0
    } else {
        x
    }
}

/// Saturating channel-wise sum.
pub open spec fn color_add_s(a: Color, b: Color) -> Color {
    Color {
        r: sat_u8(a.r + b.r) as u8,
        g: sat_u8(a.g + b.g) as u8,
        b: sat_u8(a.b + b.b) as u8,
    }
}

/// Saturating channel-wise difference.
pub open spec fn color_sub_s(a: Color, b: Color) -> Color {
    Color {
        r: sat_u8(a.r - b.r) as u8,
        g: sat_u8(a.g - b.g) as u8,
        b: sat_u8(a.b - b.b) as u8,
    }
}

/// One channel scaled by a 16.16 fixed-point factor; negative factors
/// clamp to 0, overflowing results to 255.
pub open spec fn scale_channel_s(c: u8, s: int) -> u8 {
    sat_u8(tdiv(c * s, 65536)) as u8
}

/// Channel-wise scaling by a 16.16 fixed-point factor.
pub open spec fn color_scale_s(a: Color, s: int) -> Color {
    Color {
        r: scale_channel_s(a.r, s),
        g: scale_channel_s(a.g, s),
        b: scale_channel_s(a.b, s),
    }
}

/// The 24-bit packing 0x00RRGGBB.
pub open spec fn packed_s(c: Color) -> u32 {
    (c.r * 0x10000 + c.g * 0x100 + c.b) as u32
}

/// One saturating channel sum.
fn add_channel(a: u8, b: u8) -> (r: u8)
    ensures
        r == sat_u8(a + b),
{
    let s: u16 = a as u16 + b as u16;
    if s > 255 {
        255
    } else {
        s as u8
    }
}

/// One saturating channel difference.
fn sub_channel(a: u8, b: u8) -> (r: u8)
    ensures
        r == sat_u8(a - b),
{
    if a >= b {
        a - b
    } else {
        0
    }
}

/// One channel scaled by a fixed-point factor.
fn scale_channel(c: u8, s: i64) -> (r: u8)
    ensures
        r == scale_channel_s(c, s as int),
{
    if s <= 0 {
        proof {
            assert(c as int * s as int <= 0) by (nonlinear_arith)
                requires
                    c >= 0 && s <= 0,
            ;
        }
        0
    } else {
        proof {
            assert(c as int * s as int >= 0 && c as int * s as int <= 255 * 0x7fffffffffffffff)
                by (nonlinear_arith)
                requires
                    0 <= c <= 255 && 0 <= s <= 0x7fffffffffffffff,
            ;
        }
        let q: u128 = (c as u128 * s as u128) / 65536;
        if q > 255 {
            255
        } else {
            q as u8
        }
    }
}

impl Color {
    /// A color from its three channels.
    pub fn new(r: u8, g: u8, b: u8) -> (c: Color)
        ensures
            c == (Color { r, g, b }),
    {
        Color { r, g, b }
    }

    /// The distinguished black (0, 0, 0).
    pub fn black() -> (c: Color)
        ensures
            c == (Color { r: 0, g: 0, b: 0 }),
    {
        Color { r: 0, g: 0, b: 0 }
    }

    /// Saturating component-wise sum.
    pub fn add_sat(self, other: Color) -> (c: Color)
        ensures
            c == color_add_s(self, other),
    {
        Color {
            r: add_channel(self.r, other.r),
            g: add_channel(self.g, other.g),
            b: add_channel(self.b, other.b),
        }
    }

    /// Saturating component-wise difference.
    pub fn sub_sat(self, other: Color) -> (c: Color)
        ensures
            c == color_sub_s(self, other),
    {
        Color {
            r: sub_channel(self.r, other.r),
            g: sub_channel(self.g, other.g),
            b: sub_channel(self.b, other.b),
        }
    }

    /// Scaling by a 16.16 fixed-point factor, saturating per channel.
    pub fn scale(self, s: i64) -> (c: Color)
        ensures
            c == color_scale_s(self, s as int),
    {
        Color {
            r: scale_channel(self.r, s),
            g: scale_channel(self.g, s),
            b: scale_channel(self.b, s),
        }
    }

    /// The 32-bit word 0x00RRGGBB.
    pub fn to_packed_u32(self) -> (p: u32)
        ensures
            p == packed_s(self),
    {
        self.r as u32 * 0x10000 + self.g as u32 * 0x100 + self.b as u32
    }
}

} // verus!
