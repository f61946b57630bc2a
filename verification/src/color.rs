//! Colours as red, green and blue parts, and the entries of a colour map.

use vstd::prelude::*;

verus! {

/// A colour given by its red, green and blue parts.
#[derive(Clone, Copy, Debug, PartialEq, Eq, Structural)]
pub struct Color {
    pub r: u8,
    pub g: u8,
    pub b: u8,
}

impl Color {
    /// The colour that the number `0xRRGGBB` stands for. Bits above the
    /// lowest 24 are ignored.
    pub open spec fn of_hex(hex: u32) -> Color {
        Color {
            r: ((hex as int / 0x1_0000) % 0x100) as u8,
            g: ((hex as int / 0x100) % 0x100) as u8,
            b: (hex as int % 0x100) as u8,
        }
    }

    /// The number `0xRRGGBB` of a colour.
    pub open spec fn hex(self) -> int {
        self.r as int * 0x1_0000 + self.g as int * 0x100 + self.b as int
    }

    /// Builds a colour from its three parts.
    pub fn from_rgb(r: u8, g: u8, b: u8) -> (color: Color)
        ensures
            color == (Color { r, g, b }),
    {
        Color { r, g, b }
    }

    /// Builds a colour from a number written as `0xRRGGBB`.
    pub fn from_hex(hex: u32) -> (color: Color)
        ensures
            color == Color::of_hex(hex),
    {
        let r: u8 = ((hex / 0x1_0000) % 0x100) as u8;
        let g: u8 = ((hex / 0x100) % 0x100) as u8;
        let b: u8 = (hex % 0x100) as u8;
        Color { r, g, b }
    }

    /// The red, green and blue parts, in this order.
    pub fn to_rgb(&self) -> (parts: (u8, u8, u8))
        ensures
            parts == (self.r, self.g, self.b),
    {
        (self.r, self.g, self.b)
    }

    /// The number `0xRRGGBB` of this colour.
    pub fn to_hex(&self) -> (hex: u32)
        ensures
            hex == self.hex(),
            Color::of_hex(hex) == *self,
    {
        let r: u32 = self.r as u32;
        let g: u32 = self.g as u32;
        let b: u32 = self.b as u32;
        r * 0x1_0000 + g * 0x100 + b
    }
}

/// One entry of a colour map: the palette slot `index` is given the colour
/// with parts `r`, `g` and `b`.
#[derive(Clone, Copy, Debug, PartialEq, Eq, Structural)]
pub struct ColorMap {
    pub index: u8,
    pub r: u8,
    pub g: u8,
    pub b: u8,
}

impl ColorMap {
    /// The colour that this entry assigns.
    pub open spec fn shade(self) -> Color {
        Color { r: self.r, g: self.g, b: self.b }
    }

    /// The colour that this entry assigns.
    pub fn color(&self) -> (color: Color)
        ensures
            color == self.shade(),
    {
        Color { r: self.r, g: self.g, b: self.b }
    }
}

} // verus!
