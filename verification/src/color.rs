//! Color type

use vstd::prelude::*;

verus! {

/// Color, 4 components, R8G8B8A8 (32bit)
#[derive(Clone, Copy, Debug, PartialEq, Eq, Hash)]
pub struct Color {
    /// Color red value
    pub r: u8,
    /// Color green value
    pub g: u8,
    /// Color blue value
    pub b: u8,
    /// Color alpha value
    pub a: u8,
}

/// The number that packs the four channels, red in the highest byte and
/// alpha in the lowest.
pub open spec fn packed(c: Color) -> int {
    c.r * 0x100_0000 + c.g * 0x1_0000 + c.b * 0x100 + c.a
}

/// The color that the number `val` packs.
pub open spec fn unpacked(val: u32) -> Color {
    Color {
        r: (val / 0x100_0000) as u8,
        g: (val / 0x1_0000 % 0x100) as u8,
        b: (val / 0x100 % 0x100) as u8,
        a: (val % 0x100) as u8,
    }
}

impl Color {
    /// Builds a color from its four channels.
    pub fn new(r: u8, g: u8, b: u8, a: u8) -> (c: Color)
        ensures
            c == (Color { r, g, b, a }),
    {
        Color { r, g, b, a }
    }

    /// Get hexadecimal value for a Color
    pub fn to_hex(self) -> (val: u32)
        ensures
            val == packed(self),
    {
        let r: u32 = self.r as u32;
        let g: u32 = self.g as u32;
        let b: u32 = self.b as u32;
        let a: u32 = self.a as u32;
        assert((r << 24) | (g << 16) | (b << 8) | a == r * 0x100_0000 + g * 0x1_0000 + b * 0x100
            + a) by (bit_vector)
            requires
                r < 256,
                g < 256,
                b < 256,
                a < 256,
        ;
        (r << 24) | (g << 16) | (b << 8) | a
    }

    /// Get Color structure from hexadecimal value
    pub fn from_hex(val: u32) -> (c: Color)
        ensures
            c == unpacked(val),
    {
        assert((val >> 24) & 0xFF == val / 0x100_0000) by (bit_vector);
        assert((val >> 16) & 0xFF == val / 0x1_0000 % 0x100) by (bit_vector);
        assert((val >> 8) & 0xFF == val / 0x100 % 0x100) by (bit_vector);
        assert(val & 0xFF == val % 0x100) by (bit_vector);
        Color {
            r: ((val >> 24) & 0xFF) as u8,
            g: ((val >> 16) & 0xFF) as u8,
            b: ((val >> 8) & 0xFF) as u8,
            a: (val & 0xFF) as u8,
        }
    }
}

/// Packing a color and unpacking the number gives the color back.
pub proof fn law_unpacked_packed(c: Color)
    ensures
        0 <= packed(c) <= u32::MAX,
        unpacked(packed(c) as u32) == c,
{
    let r: u32 = c.r as u32;
    let g: u32 = c.g as u32;
    let b: u32 = c.b as u32;
    let a: u32 = c.a as u32;
    let val: u32 = (r * 0x100_0000 + g * 0x1_0000 + b * 0x100 + a) as u32;
    assert(val == packed(c));
    assert(val / 0x100_0000 == r && val / 0x1_0000 % 0x100 == g && val / 0x100 % 0x100 == b && val
        % 0x100 == a) by (bit_vector)
        requires
            r < 256,
            g < 256,
            b < 256,
            a < 256,
            val == r * 0x100_0000 + g * 0x1_0000 + b * 0x100 + a,
    ;
}

/// Unpacking a number and packing the color gives the number back.
pub proof fn law_packed_unpacked(val: u32)
    ensures
        packed(unpacked(val)) == val,
{
    let r: u32 = val / 0x100_0000;
    let g: u32 = val / 0x1_0000 % 0x100;
    let b: u32 = val / 0x100 % 0x100;
    let a: u32 = val % 0x100;
    assert(r < 256 && g < 256 && b < 256 && a < 256 && val == r * 0x100_0000 + g * 0x1_0000 + b
        * 0x100 + a) by (bit_vector)
        requires
            r == val / 0x100_0000,
            g == val / 0x1_0000 % 0x100,
            b == val / 0x100 % 0x100,
            a == val % 0x100,
    ;
}

} // verus!
