//! Colors and their packed 32-bit ARGB encoding, the native wire format.

use vstd::prelude::*;

verus! {

/// A packed 32-bit pixel in ARGB order.
pub type ARGB = u32;

/// An RGBA color with four 8-bit channels.
#[derive(Clone, Copy, Debug, PartialEq, Eq, Structural, Hash)]
pub struct Color {
    pub red: u8,
    pub green: u8,
    pub blue: u8,
    pub alpha: u8,
}

/// The packed ARGB32 encoding: alpha in bits 24..32, red in 16..24,
/// green in 8..16, blue in 0..8.
pub open spec fn spec_pack_argb(alpha: u8, red: u8, green: u8, blue: u8) -> u32 {
    ((alpha as u32) << 24) | ((red as u32) << 16) | ((green as u32) << 8) | (blue as u32)
}

/// The alpha channel of a packed ARGB32 value.
pub open spec fn spec_argb_alpha(argb: u32) -> u8 {
    ((argb >> 24) & 0xff) as u8
}

/// The red channel of a packed ARGB32 value.
pub open spec fn spec_argb_red(argb: u32) -> u8 {
    ((argb >> 16) & 0xff) as u8
}

/// The green channel of a packed ARGB32 value.
pub open spec fn spec_argb_green(argb: u32) -> u8 {
    ((argb >> 8) & 0xff) as u8
}

/// The blue channel of a packed ARGB32 value.
pub open spec fn spec_argb_blue(argb: u32) -> u8 {
    (argb & 0xff) as u8
}

/// Conversion of a color-like value to the packed ARGB32 wire format.
pub trait IntoARGB {
    /// The packed value this color stands for.
    spec fn spec_argb(&self) -> u32;

    /// Pack the color into the 32-bit ARGB wire format.
    fn into_argb(&self) -> (r: u32)
        ensures
            r == self.spec_argb(),
    ;
}

impl IntoARGB for Color {
    open spec fn spec_argb(&self) -> u32 {
        spec_pack_argb(self.alpha, self.red, self.green, self.blue)
    }

    fn into_argb(&self) -> (r: u32)
        ensures
            r == self.spec_argb(),
    {
        ((self.alpha as u32) << 24) | ((self.red as u32) << 16) | ((self.green as u32) << 8)
            | (self.blue as u32)
    }
}

impl Color {
    /// Unpack a 32-bit ARGB value into its four channels.
    pub fn from_argb(argb: u32) -> (c: Color)
        ensures
            c.alpha == spec_argb_alpha(argb),
            c.red == spec_argb_red(argb),
            c.green == spec_argb_green(argb),
            c.blue == spec_argb_blue(argb),
    {
        Color {
            red: ((argb >> 16) & 0xff) as u8,
            green: ((argb >> 8) & 0xff) as u8,
            blue: (argb & 0xff) as u8,
            alpha: ((argb >> 24) & 0xff) as u8,
        }
    }

    /// A color from the four channels.
    pub fn rgba(red: u8, green: u8, blue: u8, alpha: u8) -> (c: Color)
        ensures
            c == (Color { red, green, blue, alpha }),
    {
        Color { red, green, blue, alpha }
    }

    /// An opaque color from the three color channels.
    pub fn rgb(red: u8, green: u8, blue: u8) -> (c: Color)
        ensures
            c == (Color { red, green, blue, alpha: 255u8 }),
    {
        Self::rgba(red, green, blue, 255)
    }

    /// An opaque gray level.
    pub fn gray(gray: u8) -> (c: Color)
        ensures
            c == (Color { red: gray, green: gray, blue: gray, alpha: 255u8 }),
    {
        Self::rgb(gray, gray, gray)
    }

    /// Same as [`Color::rgba`].
    pub fn new(red: u8, green: u8, blue: u8, alpha: u8) -> (c: Color)
        ensures
            c == (Color { red, green, blue, alpha }),
    {
        Self::rgba(red, green, blue, alpha)
    }
}

/// Packing four channels to ARGB32 and unpacking again yields the original
/// channels, for every channel value.
pub proof fn lemma_argb_roundtrip(alpha: u8, red: u8, green: u8, blue: u8)
    ensures
        spec_argb_alpha(spec_pack_argb(alpha, red, green, blue)) == alpha,
        spec_argb_red(spec_pack_argb(alpha, red, green, blue)) == red,
        spec_argb_green(spec_pack_argb(alpha, red, green, blue)) == green,
        spec_argb_blue(spec_pack_argb(alpha, red, green, blue)) == blue,
{
    assert(((((alpha as u32) << 24) | ((red as u32) << 16) | ((green as u32) << 8) | (
    blue as u32)) >> 24) & 0xff == alpha) by (bit_vector);
    assert(((((alpha as u32) << 24) | ((red as u32) << 16) | ((green as u32) << 8) | (
    blue as u32)) >> 16) & 0xff == red) by (bit_vector);
    assert(((((alpha as u32) << 24) | ((red as u32) << 16) | ((green as u32) << 8) | (
    blue as u32)) >> 8) & 0xff == green) by (bit_vector);
    assert((((alpha as u32) << 24) | ((red as u32) << 16) | ((green as u32) << 8) | (
    blue as u32)) & 0xff == blue) by (bit_vector);
}

/// Unpacking a 32-bit ARGB value and packing the channels again yields the
/// original packed value.
pub proof fn lemma_argb_repack(argb: u32)
    ensures
        spec_pack_argb(
            spec_argb_alpha(argb),
            spec_argb_red(argb),
            spec_argb_green(argb),
            spec_argb_blue(argb),
        ) == argb,
{
    assert(((((argb >> 24) & 0xff) as u8 as u32) << 24) | ((((argb >> 16) & 0xff) as u8 as u32)
        << 16) | ((((argb >> 8) & 0xff) as u8 as u32) << 8) | ((argb & 0xff) as u8 as u32)
        == argb) by (bit_vector);
}

} // verus!
