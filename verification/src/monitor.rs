//! Colour values handed to the console sink.
//!
//! The pixel renderer itself (font rasterisation, framebuffer blits) is an
//! external collaborator of the kernel core; only the colour data model is
//! part of the core.

use vstd::prelude::*;

verus! {

/// A 24-bit RGB colour, one byte per channel.
#[derive(Clone, Copy, PartialEq, Eq, Structural, Debug)]
pub struct RgbColor {
    pub r: u8,
    pub g: u8,
    pub b: u8,
}

impl RgbColor {
    pub fn new(r: u8, g: u8, b: u8) -> (c: Self)
        ensures
            c.r == r,
            c.g == g,
            c.b == b,
    {
        Self { r, g, b }
    }

    /// The channel bytes in RGB0 order, as a framebuffer pixel expects them.
    pub fn into_array(&self) -> (a: [u8; 4])
        ensures
            a@ =~= seq![self.r, self.g, self.b, 0u8],
    {
        [self.r, self.g, self.b, 0]
    }

    /// The channel bytes in BGR0 order, for framebuffers with reversed layout.
    pub fn into_reversed_array(&self) -> (a: [u8; 4])
        ensures
            a@ =~= seq![self.b, self.g, self.r, 0u8],
    {
        [self.b, self.g, self.r, 0]
    }
}

} // verus!
