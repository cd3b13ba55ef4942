//! Colours, text styling values and the bit-level stand-in for logical
//! lengths that the display lists and text inputs carry.

use vstd::prelude::*;

verus! {

/// The IEEE-754 bit pattern of a 32-bit logical length or coordinate.
///
/// The library never computes with these values; it stores them, hands them
/// on and compares them, and it compares them with the IEEE-754 meaning of
/// `==` (a NaN equals nothing, and the two zeros are equal).
#[derive(Clone, Copy, Debug, PartialEq, Eq, Structural)]
pub struct F32Bits(pub u32);

impl F32Bits {
    /// The pattern encodes a NaN: all exponent bits set and a non-zero mantissa.
    pub open spec fn is_nan_spec(self) -> bool {
        &&& self.0 & 0x7f80_0000u32 == 0x7f80_0000u32
        &&& self.0 & 0x007f_ffffu32 != 0
    }

    /// The pattern encodes `+0.0` or `-0.0`.
    pub open spec fn is_zero_spec(self) -> bool {
        self.0 & 0x7fff_ffffu32 == 0
    }

    /// IEEE-754 equality of the two encoded numbers.
    pub open spec fn float_eq_spec(self, other: Self) -> bool {
        &&& !self.is_nan_spec()
        &&& !other.is_nan_spec()
        &&& (self.0 == other.0 || (self.is_zero_spec() && other.is_zero_spec()))
    }

    /// The canonical quiet NaN, as `f32::NAN` encodes it.
    pub fn nan() -> (r: Self)
        ensures
            r.0 == 0x7fc0_0000u32,
            r.is_nan_spec(),
    {
        assert(0x7fc0_0000u32 & 0x7f80_0000u32 == 0x7f80_0000u32) by (bit_vector);
        assert(0x7fc0_0000u32 & 0x007f_ffffu32 != 0) by (bit_vector);
        F32Bits(0x7fc0_0000)
    }

    pub fn is_nan(self) -> (r: bool)
        ensures
            r == self.is_nan_spec(),
    {
        self.0 & 0x7f80_0000 == 0x7f80_0000 && self.0 & 0x007f_ffff != 0
    }

    /// `==` on the two encoded `f32` values.
    pub fn float_equals(self, other: Self) -> (r: bool)
        ensures
            r == self.float_eq_spec(other),
    {
        !self.is_nan() && !other.is_nan() && (self.0 == other.0 || (self.0 & 0x7fff_ffff == 0
            && other.0 & 0x7fff_ffff == 0))
    }
}

impl Default for F32Bits {
    /// The encoding of `0.0`.
    fn default() -> (r: Self)
        ensures
            r.0 == 0,
    {
        F32Bits(0)
    }
}

/// IEEE-754 equality is an equivalence on the numbers that are not NaN:
/// every such number equals itself, and equality is symmetric.
pub proof fn lemma_float_eq_reflexive_symmetric(a: F32Bits, b: F32Bits)
    ensures
        !a.is_nan_spec() ==> a.float_eq_spec(a),
        a.float_eq_spec(b) == b.float_eq_spec(a),
        a.is_nan_spec() ==> !a.float_eq_spec(b),
{
}

/// An RGBA colour with eight bits per channel.
#[derive(Clone, Copy, Debug, PartialEq, Eq, Structural)]
pub struct Color {
    pub red: u8,
    pub green: u8,
    pub blue: u8,
    pub alpha: u8,
}

/// The `0xAARRGGBB` encoding of the four channels.
pub open spec fn argb_encoding(alpha: u8, red: u8, green: u8, blue: u8) -> u32 {
    (alpha as u32) << 24u32 | (red as u32) << 16u32 | (green as u32) << 8u32 | blue as u32
}

impl Color {
    /// The colour whose `0xAARRGGBB` encoding is `encoded`.
    pub fn from_argb_encoded(encoded: u32) -> (c: Self)
        ensures
            c.alpha == (encoded >> 24u32) as u8,
            c.red == ((encoded >> 16u32) & 0xffu32) as u8,
            c.green == ((encoded >> 8u32) & 0xffu32) as u8,
            c.blue == (encoded & 0xffu32) as u8,
            argb_encoding(c.alpha, c.red, c.green, c.blue) == encoded,
    {
        let alpha = (encoded >> 24) as u8;
        let red = ((encoded >> 16) & 0xff) as u8;
        let green = ((encoded >> 8) & 0xff) as u8;
        let blue = (encoded & 0xff) as u8;
        assert(((encoded >> 24u32) as u8 as u32) << 24u32 | (((encoded >> 16u32) & 0xffu32) as u8
            as u32) << 16u32 | (((encoded >> 8u32) & 0xffu32) as u8 as u32) << 8u32 | ((encoded
            & 0xffu32) as u8 as u32) == encoded) by (bit_vector);
        Color { red, green, blue, alpha }
    }

    /// The `0xAARRGGBB` encoding of this colour.
    pub fn as_argb_encoded(&self) -> (encoded: u32)
        ensures
            encoded == argb_encoding(self.alpha, self.red, self.green, self.blue),
    {
        (self.alpha as u32) << 24 | (self.red as u32) << 16 | (self.green as u32) << 8
            | self.blue as u32
    }

    /// An opaque colour from its red, green and blue channels.
    pub fn from_rgb_u8(red: u8, green: u8, blue: u8) -> (c: Self)
        ensures
            c == (Color { red, green, blue, alpha: 255 }),
    {
        Color { red, green, blue, alpha: 255 }
    }

    /// A colour from its alpha, red, green and blue channels.
    pub fn from_argb_u8(alpha: u8, red: u8, green: u8, blue: u8) -> (c: Self)
        ensures
            c == (Color { red, green, blue, alpha }),
    {
        Color { red, green, blue, alpha }
    }
}

impl Default for Color {
    /// Transparent black.
    fn default() -> (c: Self)
        ensures
            c == (Color { red: 0, green: 0, blue: 0, alpha: 0 }),
    {
        Color { red: 0, green: 0, blue: 0, alpha: 0 }
    }
}

/// Decoding an encoded colour and encoding it again gives the same `u32`,
/// and encoding a colour and decoding it again gives the same colour.
pub proof fn lemma_argb_round_trip(alpha: u8, red: u8, green: u8, blue: u8)
    ensures
        (argb_encoding(alpha, red, green, blue) >> 24u32) as u8 == alpha,
        ((argb_encoding(alpha, red, green, blue) >> 16u32) & 0xffu32) as u8 == red,
        ((argb_encoding(alpha, red, green, blue) >> 8u32) & 0xffu32) as u8 == green,
        (argb_encoding(alpha, red, green, blue) & 0xffu32) as u8 == blue,
{
    assert((((alpha as u32) << 24u32 | (red as u32) << 16u32 | (green as u32) << 8u32 | blue as u32)
        >> 24u32) as u8 == alpha) by (bit_vector);
    assert(((((alpha as u32) << 24u32 | (red as u32) << 16u32 | (green as u32) << 8u32
        | blue as u32) >> 16u32) & 0xffu32) as u8 == red) by (bit_vector);
    assert(((((alpha as u32) << 24u32 | (red as u32) << 16u32 | (green as u32) << 8u32
        | blue as u32) >> 8u32) & 0xffu32) as u8 == green) by (bit_vector);
    assert((((alpha as u32) << 24u32 | (red as u32) << 16u32 | (green as u32) << 8u32 | blue as u32)
        & 0xffu32) as u8 == blue) by (bit_vector);
}

/// Horizontal placement of a text run inside its box.
#[derive(Clone, Copy, Debug, PartialEq, Eq, Structural)]
pub enum TextHorizontalAlignment {
    Left,
    Center,
    Right,
}

impl Default for TextHorizontalAlignment {
    fn default() -> (a: Self)
        ensures
            a == TextHorizontalAlignment::Left,
    {
        TextHorizontalAlignment::Left
    }
}

/// Vertical placement of a text run inside its box.
#[derive(Clone, Copy, Debug, PartialEq, Eq, Structural)]
pub enum TextVerticalAlignment {
    Top,
    Center,
    Bottom,
}

impl Default for TextVerticalAlignment {
    fn default() -> (a: Self)
        ensures
            a == TextVerticalAlignment::Top,
    {
        TextVerticalAlignment::Top
    }
}

/// How text that does not fit its width is broken into lines.
#[derive(Clone, Copy, Debug, PartialEq, Eq, Structural)]
pub enum TextWrap {
    NoWrap,
    WordWrap,
    CharWrap,
}

/// What happens to text that does not fit its box.
#[derive(Clone, Copy, Debug, PartialEq, Eq, Structural)]
pub enum TextOverflow {
    Clip,
    Elide,
}

/// A request for a font: each field that is `None` falls back to the default.
#[derive(Clone, Debug)]
pub struct FontRequest {
    pub family: Option<String>,
    pub weight: Option<i32>,
    /// The pixel size, as the bits of a logical length.
    pub pixel_size: Option<F32Bits>,
    /// The letter spacing, as the bits of a logical length.
    pub letter_spacing: Option<F32Bits>,
    pub italic: bool,
}

impl FontRequest {
    /// A field-by-field copy of this request.
    pub fn duplicate(&self) -> (r: Self)
        ensures
            r == *self,
    {
        let family = match &self.family {
            Some(f) => Some(f.clone()),
            None => None,
        };
        FontRequest {
            family,
            weight: self.weight,
            pixel_size: self.pixel_size,
            letter_spacing: self.letter_spacing,
            italic: self.italic,
        }
    }
}

impl Default for FontRequest {
    /// A request that names nothing: every property falls back to the default.
    fn default() -> (r: Self)
        ensures
            r.family.is_none(),
            r.weight.is_none(),
            r.pixel_size.is_none(),
            r.letter_spacing.is_none(),
            !r.italic,
    {
        FontRequest {
            family: None,
            weight: None,
            pixel_size: None,
            letter_spacing: None,
            italic: false,
        }
    }
}

} // verus!
