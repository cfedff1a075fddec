//! 8-bit RGB colors for cell rendering.

use vstd::prelude::*;

verus! {

/// An RGB color with 8 bits per channel.
#[derive(Debug, Clone, Copy, Eq, PartialEq, Structural, Hash)]
pub struct Rgb8 {
    pub r: u8,
    pub g: u8,
    pub b: u8,
}

impl Rgb8 {
    /// Creates a color from its three channels.
    pub fn new(r: u8, g: u8, b: u8) -> (c: Rgb8)
        ensures
            c == (Rgb8 { r, g, b }),
    {
        Rgb8 { r, g, b }
    }

    /// The color with all channels zero.
    pub fn black() -> (c: Rgb8)
        ensures
            c == (Rgb8 { r: 0, g: 0, b: 0 }),
    {
        Rgb8 { r: 0, g: 0, b: 0 }
    }

    /// The grey with all three channels equal to `level`.
    pub fn grey(level: u8) -> (c: Rgb8)
        ensures
            c == (Rgb8 { r: level, g: level, b: level }),
    {
        Rgb8 { r: level, g: level, b: level }
    }
}

} // verus!
