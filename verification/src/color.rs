//! The simplified color carried by every emitted point: the red, green and
//! blue samples of a pixel, with the alpha channel deliberately dropped.

use vstd::prelude::*;

verus! {

/// An opaque RGB color. Channel values are the 0-255 samples taken directly
/// from the decoded or resampled pixel; no gamma correction is applied.
#[derive(Clone, Copy, Debug, PartialEq, Eq, Structural)]
pub struct Color {
    pub r: u8,
    pub g: u8,
    pub b: u8,
}

impl Color {
    /// Builds a color from the three channel samples.
    pub fn new(r: u8, g: u8, b: u8) -> (c: Color)
        ensures
            c == (Color { r, g, b }),
    {
        Color { r, g, b }
    }
}

} // verus!
