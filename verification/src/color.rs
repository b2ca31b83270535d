//! A displayable color: one byte per channel, red, green, blue.

use vstd::prelude::*;

verus! {

/// An 8-bit-per-channel RGB color, the unit a pixel buffer stores and the
/// plain-text image format writes out.
#[derive(Clone, Copy, Debug, PartialEq, Eq, Structural)]
pub struct Color {
    pub r: u8,
    pub g: u8,
    pub b: u8,
}

impl Color {
    /// Packs the three channel values; nothing is clamped or rescaled here.
    pub fn new(r: u8, g: u8, b: u8) -> (c: Color)
        ensures
            c.r == r,
            c.g == g,
            c.b == b,
    {
        Color { r, g, b }
    }

    /// Black, the color of an absorbed or depth-exhausted path.
    pub fn black() -> (c: Color)
        ensures
            c == (Color { r: 0, g: 0, b: 0 }),
    {
        Color { r: 0, g: 0, b: 0 }
    }
}

} // verus!
