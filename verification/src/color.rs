//! Linear RGB colors over fixed-point channels.
//!
//! Channel values are never clamped by the renderer itself (they may exceed
//! one); only the byte conversion for export clamps.

use vstd::prelude::*;

use crate::fixed::{fadd, fmul, fsub, fx_one, fx_zero, tdiv, Fx, SCALE};

verus! {

/// An RGB color with unclamped linear fixed-point channels.
#[derive(Clone, Copy, Debug, PartialEq, Eq, Structural)]
pub struct Color {
    pub r: Fx,
    pub g: Fx,
    pub b: Fx,
}

/// Pure black: every channel zero.
pub open spec fn color_black() -> Color {
    Color { r: fx_zero(), g: fx_zero(), b: fx_zero() }
}

/// Pure white: every channel one.
pub open spec fn color_white() -> Color {
    Color { r: fx_one(), g: fx_one(), b: fx_one() }
}

/// Channel-wise color sum.
pub open spec fn color_add(a: Color, b: Color) -> Color {
    Color { r: fadd(a.r, b.r), g: fadd(a.g, b.g), b: fadd(a.b, b.b) }
}

/// Channel-wise color product.
pub open spec fn color_mul(a: Color, b: Color) -> Color {
    Color { r: fmul(a.r, b.r), g: fmul(a.g, b.g), b: fmul(a.b, b.b) }
}

/// A color scaled by a scalar on every channel.
pub open spec fn color_scale(s: Fx, c: Color) -> Color {
    Color { r: fmul(s, c.r), g: fmul(s, c.g), b: fmul(s, c.b) }
}

/// Channel-wise difference, floored at zero per channel.
pub open spec fn color_sub(a: Color, b: Color) -> Color {
    Color {
        r: fx_max_zero(fsub(a.r, b.r)),
        g: fx_max_zero(fsub(a.g, b.g)),
        b: fx_max_zero(fsub(a.b, b.b)),
    }
}

/// The scalar itself if nonnegative, else zero.
pub open spec fn fx_max_zero(a: Fx) -> Fx {
    if a.raw < 0 {
        fx_zero()
    } else {
        a
    }
}

/// Multiplying any color by black yields black, channel by channel.
pub proof fn lemma_color_mul_black(c: Color)
    ensures
        color_mul(c, color_black()) == color_black(),
        color_mul(color_black(), c) == color_black(),
{
    crate::fixed::lemma_fx_mul_zero(c.r.raw as int);
    crate::fixed::lemma_fx_mul_zero(c.g.raw as int);
    crate::fixed::lemma_fx_mul_zero(c.b.raw as int);
}

/// One channel scaled to a byte: truncated at the scale, clamped to 0..=255.
pub open spec fn channel_to_u8(a: Fx) -> u8 {
    let v = tdiv(a.raw * 255, SCALE as int);
    if v < 0 {
        0
    } else if v > 255 {
        255
    } else {
        v as u8
    }
}

impl Color {
    /// The color with the given channels.
    pub fn new(r: Fx, g: Fx, b: Fx) -> (c: Color)
        ensures
            c == (Color { r, g, b }),
    {
        Color { r, g, b }
    }

    /// Pure black.
    pub fn black() -> (c: Color)
        ensures
            c == color_black(),
    {
        Color { r: Fx::zero(), g: Fx::zero(), b: Fx::zero() }
    }

    /// Pure white.
    pub fn white() -> (c: Color)
        ensures
            c == color_white(),
    {
        Color { r: Fx::one(), g: Fx::one(), b: Fx::one() }
    }

    /// Channel-wise sum.
    pub fn add(&self, rhs: &Color) -> (c: Color)
        ensures
            c == color_add(*self, *rhs),
    {
        Color { r: self.r.add(&rhs.r), g: self.g.add(&rhs.g), b: self.b.add(&rhs.b) }
    }

    /// Channel-wise product.
    pub fn mul(&self, rhs: &Color) -> (c: Color)
        ensures
            c == color_mul(*self, *rhs),
    {
        Color { r: self.r.mul(&rhs.r), g: self.g.mul(&rhs.g), b: self.b.mul(&rhs.b) }
    }

    /// Every channel scaled by `s`.
    pub fn scale(&self, s: Fx) -> (c: Color)
        ensures
            c == color_scale(s, *self),
    {
        Color { r: s.mul(&self.r), g: s.mul(&self.g), b: s.mul(&self.b) }
    }

    /// Channel-wise difference, floored at zero per channel.
    pub fn sub(&self, rhs: &Color) -> (c: Color)
        ensures
            c == color_sub(*self, *rhs),
    {
        let r = self.r.sub(&rhs.r);
        let g = self.g.sub(&rhs.g);
        let b = self.b.sub(&rhs.b);
        Color {
            r: if r.raw < 0 {
                Fx::zero()
            } else {
                r
            },
            g: if g.raw < 0 {
                Fx::zero()
            } else {
                g
            },
            b: if b.raw < 0 {
                Fx::zero()
            } else {
                b
            },
        }
    }

    /// The color as clamped bytes, for export collaborators.
    pub fn as_u8(&self) -> (c: (u8, u8, u8))
        ensures
            c.0 == channel_to_u8(self.r),
            c.1 == channel_to_u8(self.g),
            c.2 == channel_to_u8(self.b),
    {
        (channel_byte(self.r), channel_byte(self.g), channel_byte(self.b))
    }
}

/// One channel scaled to a byte.
fn channel_byte(a: Fx) -> (v: u8)
    ensures
        v == channel_to_u8(a),
{
    if a.raw <= 0 {
        proof {
            if a.raw < 0 {
                assert(a.raw * 255 < 0) by (nonlinear_arith)
                    requires
                        a.raw < 0,
                ;
            }
        }
        0
    } else {
        proof {
            crate::fixed::lemma_mul_bounds(a.raw as int, 255, 0x8000_0000_0000_0000, 255);
            assert(a.raw * 255 > 0) by (nonlinear_arith)
                requires
                    a.raw > 0,
            ;
        }
        let p: u128 = (a.raw as u128) * 255;
        let q: u128 = p / (SCALE as u128);
        if q > 255 {
            255
        } else {
            q as u8
        }
    }
}

} // verus!
