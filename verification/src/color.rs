//! Three-channel colors over the fixed-point scalar, conventionally in
//! `[0, ONE]` after clamping, and the 8-bit-per-channel pixel format handed
//! to image encoders.

use vstd::prelude::*;
use crate::fx;
use crate::fx::{spec_add, spec_sub, spec_mul, spec_div, spec_clamp, tdiv, ONE};
use crate::vec3::{Vec3, Vec3s};

verus! {

/// A color with fixed-point red, green and blue channels.
#[derive(Clone, Copy, Debug, PartialEq, Eq, Structural)]
pub struct Color3 {
    pub r: i64,
    pub g: i64,
    pub b: i64,
}

/// The mathematical model of a color: its channels as unbounded integers.
pub struct Color3s {
    pub r: int,
    pub g: int,
    pub b: int,
}

impl View for Color3 {
    type V = Color3s;

    open spec fn view(&self) -> Color3s {
        Color3s { r: self.r as int, g: self.g as int, b: self.b as int }
    }
}

/// An 8-bit-per-channel color, the external pixel format.
#[derive(Clone, Copy, Debug, PartialEq, Eq, Structural)]
pub struct Rgb8 {
    pub r: u8,
    pub g: u8,
    pub b: u8,
}

/// Channel-wise sum.
pub open spec fn spec_cadd(a: Color3s, b: Color3s) -> Color3s {
    Color3s { r: spec_add(a.r, b.r), g: spec_add(a.g, b.g), b: spec_add(a.b, b.b) }
}

/// Channel-wise difference.
pub open spec fn spec_csub(a: Color3s, b: Color3s) -> Color3s {
    Color3s { r: spec_sub(a.r, b.r), g: spec_sub(a.g, b.g), b: spec_sub(a.b, b.b) }
}

/// Channel-wise product.
pub open spec fn spec_cmul(a: Color3s, b: Color3s) -> Color3s {
    Color3s { r: spec_mul(a.r, b.r), g: spec_mul(a.g, b.g), b: spec_mul(a.b, b.b) }
}

/// Channel-wise scaling by a scalar.
pub open spec fn spec_cscale(a: Color3s, s: int) -> Color3s {
    Color3s { r: spec_mul(a.r, s), g: spec_mul(a.g, s), b: spec_mul(a.b, s) }
}

/// Channel-wise division by a scalar.
pub open spec fn spec_cdiv_s(a: Color3s, s: int) -> Color3s {
    Color3s { r: spec_div(a.r, s), g: spec_div(a.g, s), b: spec_div(a.b, s) }
}

/// Channel-wise division.
pub open spec fn spec_cdiv(a: Color3s, b: Color3s) -> Color3s {
    Color3s { r: spec_div(a.r, b.r), g: spec_div(a.g, b.g), b: spec_div(a.b, b.b) }
}

/// Channel-wise clamp into `[0, ONE]`.
pub open spec fn spec_cclamp(a: Color3s) -> Color3s {
    Color3s {
        r: spec_clamp(a.r, 0, ONE as int),
        g: spec_clamp(a.g, 0, ONE as int),
        b: spec_clamp(a.b, 0, ONE as int),
    }
}

/// Linear interpolation of two colors: `a*(1-alpha) + b*alpha` per channel.
pub open spec fn spec_cmix(a: Color3s, b: Color3s, alpha: int) -> Color3s {
    let na = spec_sub(ONE as int, alpha);
    Color3s {
        r: spec_add(spec_mul(a.r, na), spec_mul(b.r, alpha)),
        g: spec_add(spec_mul(a.g, na), spec_mul(b.g, alpha)),
        b: spec_add(spec_mul(a.b, na), spec_mul(b.b, alpha)),
    }
}

/// Conversion of one channel to a byte: clamp into `[0, ONE]`, scale by 255
/// and round to the nearest integer.
pub open spec fn spec_to_byte(c: int) -> int {
    tdiv(spec_clamp(c, 0, ONE as int) * 255 + 32768, ONE as int)
}

/// Conversion of one byte to a channel: scale by `ONE / 255`.
pub open spec fn spec_from_byte(b: int) -> int {
    tdiv(b * (ONE as int), 255)
}

/// The whole color converted to bytes.
pub open spec fn spec_to_rgb8(a: Color3s) -> Rgb8 {
    Rgb8 { r: spec_to_byte(a.r) as u8, g: spec_to_byte(a.g) as u8, b: spec_to_byte(a.b) as u8 }
}

/// Converts one clamped, scaled channel to a byte.
fn channel_to_byte(c: i64) -> (r: u8)
    ensures
        r == spec_to_byte(c as int),
{
    let cc: i64 = fx::clamp(c, 0, ONE);
    proof {
        fx::lemma_tdiv_mag((cc as int) * 255 + 32768, ONE as int, 16744448);
    }
    fx::tdiv128((cc as i128) * 255 + 32768, ONE as i128) as u8
}

impl Color3 {
    /// Builds a color from its channels.
    pub fn new(r: i64, g: i64, b: i64) -> (c: Color3)
        ensures
            c@ == (Color3s { r: r as int, g: g as int, b: b as int }),
    {
        Color3 { r, g, b }
    }

    /// The gray color with all three channels equal.
    pub fn gray(a: i64) -> (c: Color3)
        ensures
            c@ == (Color3s { r: a as int, g: a as int, b: a as int }),
    {
        Color3 { r: a, g: a, b: a }
    }

    /// Clamps each channel into `[0, ONE]` in place.
    pub fn clamp(&mut self)
        ensures
            final(self)@ == spec_cclamp(old(self)@),
    {
        self.r = fx::clamp(self.r, 0, ONE);
        self.g = fx::clamp(self.g, 0, ONE);
        self.b = fx::clamp(self.b, 0, ONE);
    }

    /// The color with each channel clamped into `[0, ONE]`.
    pub fn clamped(&self) -> (c: Color3)
        ensures
            c@ == spec_cclamp(self@),
            0 <= c@.r <= ONE as int,
            0 <= c@.g <= ONE as int,
            0 <= c@.b <= ONE as int,
    {
        Color3 {
            r: fx::clamp(self.r, 0, ONE),
            g: fx::clamp(self.g, 0, ONE),
            b: fx::clamp(self.b, 0, ONE),
        }
    }

    /// Reads a color from a vector's components.
    pub fn from_vec3(v: &Vec3) -> (c: Color3)
        ensures
            c@ == (Color3s { r: v@.x, g: v@.y, b: v@.z }),
    {
        Color3 { r: v.x, g: v.y, b: v.z }
    }

    /// Reads a color from a vector's components, clamping into `[0, ONE]`.
    pub fn from_vec3_clamp(v: &Vec3) -> (c: Color3)
        ensures
            c@ == spec_cclamp(Color3s { r: v@.x, g: v@.y, b: v@.z }),
    {
        Color3 {
            r: fx::clamp(v.x, 0, ONE),
            g: fx::clamp(v.y, 0, ONE),
            b: fx::clamp(v.z, 0, ONE),
        }
    }

    /// Reads a color from an 8-bit-per-channel value.
    pub fn from_rgb8(p: Rgb8) -> (c: Color3)
        ensures
            c@ == (Color3s {
                r: spec_from_byte(p.r as int),
                g: spec_from_byte(p.g as int),
                b: spec_from_byte(p.b as int),
            }),
    {
        proof {
            fx::lemma_tdiv_mag((p.r as int) * (ONE as int), 255, 16711680);
            fx::lemma_tdiv_mag((p.g as int) * (ONE as int), 255, 16711680);
            fx::lemma_tdiv_mag((p.b as int) * (ONE as int), 255, 16711680);
        }
        Color3 {
            r: fx::tdiv128((p.r as i128) * (ONE as i128), 255) as i64,
            g: fx::tdiv128((p.g as i128) * (ONE as i128), 255) as i64,
            b: fx::tdiv128((p.b as i128) * (ONE as i128), 255) as i64,
        }
    }

    /// Converts to the 8-bit-per-channel format: each channel clamped to
    /// `[0, ONE]`, scaled by 255 and rounded.
    pub fn to_rgb8(&self) -> (p: Rgb8)
        ensures
            p == spec_to_rgb8(self@),
    {
        Rgb8 { r: channel_to_byte(self.r), g: channel_to_byte(self.g), b: channel_to_byte(self.b) }
    }

    /// Linear interpolation toward `other` by `alpha`.
    pub fn mix(&self, other: &Color3, alpha: i64) -> (c: Color3)
        ensures
            c@ == spec_cmix(self@, other@, alpha as int),
    {
        let na: i64 = fx::sub(ONE, alpha);
        Color3 {
            r: fx::add(fx::mul(self.r, na), fx::mul(other.r, alpha)),
            g: fx::add(fx::mul(self.g, na), fx::mul(other.g, alpha)),
            b: fx::add(fx::mul(self.b, na), fx::mul(other.b, alpha)),
        }
    }

    /// Channel-wise sum.
    pub fn add(&self, o: &Color3) -> (c: Color3)
        ensures
            c@ == spec_cadd(self@, o@),
    {
        Color3 { r: fx::add(self.r, o.r), g: fx::add(self.g, o.g), b: fx::add(self.b, o.b) }
    }

    /// Channel-wise difference.
    pub fn sub(&self, o: &Color3) -> (c: Color3)
        ensures
            c@ == spec_csub(self@, o@),
    {
        Color3 { r: fx::sub(self.r, o.r), g: fx::sub(self.g, o.g), b: fx::sub(self.b, o.b) }
    }

    /// Channel-wise product.
    pub fn mul(&self, o: &Color3) -> (c: Color3)
        ensures
            c@ == spec_cmul(self@, o@),
    {
        Color3 { r: fx::mul(self.r, o.r), g: fx::mul(self.g, o.g), b: fx::mul(self.b, o.b) }
    }

    /// Channel-wise scaling by a scalar.
    pub fn scale(&self, s: i64) -> (c: Color3)
        ensures
            c@ == spec_cscale(self@, s as int),
    {
        Color3 { r: fx::mul(self.r, s), g: fx::mul(self.g, s), b: fx::mul(self.b, s) }
    }

    /// Channel-wise division by a scalar.
    pub fn div_scalar(&self, s: i64) -> (c: Color3)
        ensures
            c@ == spec_cdiv_s(self@, s as int),
    {
        Color3 { r: fx::div(self.r, s), g: fx::div(self.g, s), b: fx::div(self.b, s) }
    }

    /// Channel-wise division.
    pub fn div(&self, o: &Color3) -> (c: Color3)
        ensures
            c@ == spec_cdiv(self@, o@),
    {
        Color3 { r: fx::div(self.r, o.r), g: fx::div(self.g, o.g), b: fx::div(self.b, o.b) }
    }
}

} // verus!
