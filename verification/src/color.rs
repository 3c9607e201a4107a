//! RGB color values as plain 8-bit triples.
//!
//! The noise field is pure greyscale: every generated color has equal red,
//! green and blue channels derived from a single brightness level.

use vstd::prelude::*;

verus! {

/// A 24-bit RGB color.
#[derive(Clone, Copy, PartialEq, Eq, Structural, Debug)]
pub struct Rgb {
    pub r: u8,
    pub g: u8,
    pub b: u8,
}

/// A color is greyscale when all three channels agree.
pub open spec fn is_grey(c: Rgb) -> bool {
    c.r == c.g && c.g == c.b
}

impl Rgb {
    /// The greyscale color with the given level on every channel.
    pub fn grey(level: u8) -> (c: Rgb)
        ensures
            c == (Rgb { r: level, g: level, b: level }),
    {
        Rgb { r: level, g: level, b: level }
    }
}

} // verus!
