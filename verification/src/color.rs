//! An 8-bit-per-channel RGBA color, the parameter of the flat-color
//! material. An alpha channel of 255 means fully opaque.

use vstd::prelude::*;

verus! {

/// An RGBA color with 8 bits per channel.
#[derive(Debug, Clone, Copy, PartialEq, Eq, Structural)]
pub struct Color {
    pub r: u8,
    pub g: u8,
    pub b: u8,
    pub a: u8,
}

/// The alpha value at which a color is fully opaque.
pub const OPAQUE_ALPHA: u8 = 255;

impl Color {
    /// True when the color is not fully opaque, so that drawing with it
    /// requires blending.
    pub open spec fn spec_is_transparent(&self) -> bool {
        self.a != OPAQUE_ALPHA
    }

    /// Builds a color from its four channels.
    pub fn new(r: u8, g: u8, b: u8, a: u8) -> (c: Color)
        ensures
            c == (Color { r, g, b, a }),
    {
        Color { r, g, b, a }
    }

    /// True when the color is not fully opaque.
    pub fn is_transparent(&self) -> (t: bool)
        ensures
            t == self.spec_is_transparent(),
    {
        self.a != OPAQUE_ALPHA
    }
}

} // verus!
