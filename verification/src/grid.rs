//! The pixel grid that the pipeline works on: a rectangle of RGBA samples in
//! row-major order, four bytes per pixel.

use vstd::prelude::*;

verus! {

/// The mathematical model of a pixel grid: its two dimensions and the flat
/// sequence of RGBA bytes, row-major, four bytes per pixel.
#[verifier::ext_equal]
pub struct GridView {
    pub width: nat,
    pub height: nat,
    pub pixels: Seq<u8>,
}

impl GridView {
    /// A grid is well formed when it holds exactly four bytes for every
    /// pixel of its `width * height` rectangle.
    pub open spec fn wf(self) -> bool {
        self.pixels.len() == 4 * self.width * self.height
    }
}

/// A rectangle of decoded or resampled pixels. The byte at index
/// `4 * (y * width + x)` starts the RGBA quadruple of the pixel at `(x, y)`;
/// rows come one after another (row-major order, `y` outer, `x` inner), the
/// same order in which a decoder enumerates them.
pub struct PixelGrid {
    pub width: u32,
    pub height: u32,
    pub pixels: Vec<u8>,
}

impl View for PixelGrid {
    type V = GridView;

    open spec fn view(&self) -> GridView {
        GridView { width: self.width as nat, height: self.height as nat, pixels: self.pixels@ }
    }
}

impl PixelGrid {
    /// Builds a grid from raw RGBA bytes. Returns the grid exactly when the
    /// buffer holds four bytes per pixel of the `width * height` rectangle.
    pub fn new(width: u32, height: u32, pixels: Vec<u8>) -> (r: Option<PixelGrid>)
        ensures
            r matches Some(g) ==> g@ == (GridView {
                width: width as nat,
                height: height as nat,
                pixels: pixels@,
            }) && g@.wf(),
            r is None <==> pixels@.len() != 4 * width * height,
    {
        proof {
            assert(4 * (width as int) * (height as int) < u128::MAX) by (nonlinear_arith)
                requires
                    width <= u32::MAX,
                    height <= u32::MAX,
            ;
        }
        let expected: u128 = 4u128 * (width as u128) * (height as u128);
        if pixels.len() as u128 == expected {
            Some(PixelGrid { width, height, pixels })
        } else {
            None
        }
    }
}

} // verus!
