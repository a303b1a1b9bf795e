//! Flattening the resampled grid into the positioned point list: one
//! `(x, y, color)` entry per pixel, in the grid's row-major enumeration
//! order, every coordinate shifted by the constant position offset, and the
//! alpha sample dropped from every color.

use vstd::prelude::*;

use crate::color::Color;
use crate::grid::GridView;
use crate::grid::PixelGrid;

verus! {

/// The simplified color of the pixel at index `i` of a grid's row-major
/// byte sequence: its red, green and blue samples; the alpha sample at
/// `4 * i + 3` is dropped.
pub open spec fn pixel_color(pixels: Seq<u8>, i: int) -> Color {
    Color { r: pixels[4 * i], g: pixels[4 * i + 1], b: pixels[4 * i + 2] }
}

/// The point emitted for the pixel at index `i` of the grid: the pixel's
/// grid coordinates shifted by the offset, and its simplified color.
pub open spec fn point_at(g: GridView, ox: int, oy: int, i: int) -> (u32, u32, Color) {
    (
        ((i % g.width as int) + ox) as u32,
        ((i / g.width as int) + oy) as u32,
        pixel_color(g.pixels, i),
    )
}

/// The full point list of a grid under an offset: one point per pixel, in
/// row-major order (`y` outer, `x` inner), matching the decoder's native
/// enumeration order. Points are emitted unconditionally: no deduplication,
/// no clipping against any destination surface.
pub open spec fn flattened(g: GridView, ox: int, oy: int) -> Seq<(u32, u32, Color)> {
    Seq::new((g.width * g.height) as nat, |i: int| point_at(g, ox, oy, i))
}

/// Offset linearity: every output coordinate is the pixel's grid coordinate
/// plus the offset, so changing only the position shifts every point by
/// exactly the offsets' difference and changes no color.
pub proof fn lemma_offset_linearity(g: GridView, ox1: int, oy1: int, ox2: int, oy2: int, i: int)
    requires
        1 <= g.width,
        0 <= i < g.width * g.height,
        0 <= ox1 && ox1 + g.width <= u32::MAX + 1,
        0 <= oy1 && oy1 + g.height <= u32::MAX + 1,
        0 <= ox2 && ox2 + g.width <= u32::MAX + 1,
        0 <= oy2 && oy2 + g.height <= u32::MAX + 1,
    ensures
        flattened(g, ox1, oy1)[i].0 - flattened(g, ox2, oy2)[i].0 == ox1 - ox2,
        flattened(g, ox1, oy1)[i].1 - flattened(g, ox2, oy2)[i].1 == oy1 - oy2,
        flattened(g, ox1, oy1)[i].2 == flattened(g, ox2, oy2)[i].2,
{
    lemma_point_coords_in_range(g, ox1, oy1, i);
    lemma_point_coords_in_range(g, ox2, oy2, i);
}

/// The coordinates of every emitted point are exact: under an offset that
/// keeps the grid inside the 32-bit coordinate space, the point for pixel
/// `i` is at column `i % width` plus `ox` and row `i / width` plus `oy`.
pub proof fn lemma_point_coords_in_range(g: GridView, ox: int, oy: int, i: int)
    requires
        1 <= g.width,
        0 <= i < g.width * g.height,
        0 <= ox && ox + g.width <= u32::MAX + 1,
        0 <= oy && oy + g.height <= u32::MAX + 1,
    ensures
        flattened(g, ox, oy)[i].0 == (i % g.width as int) + ox,
        flattened(g, ox, oy)[i].1 == (i / g.width as int) + oy,
        flattened(g, ox, oy)[i].2 == pixel_color(g.pixels, i),
{
    let w = g.width as int;
    vstd::arithmetic::div_mod::lemma_mod_bound(i, w);
    assert(i < w * (g.height as int)) by (nonlinear_arith)
        requires
            i < g.width * g.height,
            w == g.width as int,
    ;
    vstd::arithmetic::div_mod::lemma_multiply_divide_lt(i, w, g.height as int);
    assert(i / w >= 0) by {
        vstd::arithmetic::div_mod::lemma_div_is_ordered(0, i, w);
    }
}

/// Alpha is dropped: two grids of the same dimensions whose pixels agree on
/// the red, green and blue samples flatten to the same point list, whatever
/// their alpha samples hold.
pub proof fn lemma_alpha_dropped(g1: GridView, g2: GridView, ox: int, oy: int)
    requires
        g1.width == g2.width,
        g1.height == g2.height,
        forall|i: int|
            0 <= i < g1.width * g1.height ==> #[trigger] g1.pixels[4 * i] == g2.pixels[4 * i]
                && g1.pixels[4 * i + 1] == g2.pixels[4 * i + 1] && g1.pixels[4 * i + 2]
                == g2.pixels[4 * i + 2],
    ensures
        flattened(g1, ox, oy) == flattened(g2, ox, oy),
{
    assert forall|i: int| 0 <= i < g1.width * g1.height implies point_at(g1, ox, oy, i) == point_at(
        g2,
        ox,
        oy,
        i,
    ) by {
        assert(g1.pixels[4 * i] == g2.pixels[4 * i]);
    }
    assert(flattened(g1, ox, oy) =~= flattened(g2, ox, oy));
}

/// Walks the grid in row-major order and emits one point per pixel: the
/// pixel's coordinates shifted by the offset, with its red, green and blue
/// samples and without its alpha sample. Points whose shifted coordinates
/// fall outside any destination surface are emitted all the same; clipping
/// is the consumer's concern. The offsets must keep every shifted
/// coordinate inside the 32-bit range, which is where the coordinates live.
pub fn flatten(grid: &PixelGrid, offset_x: u32, offset_y: u32) -> (points: Vec<
    (u32, u32, Color),
>)
    requires
        grid@.wf(),
        offset_x + grid@.width <= u32::MAX + 1,
        offset_y + grid@.height <= u32::MAX + 1,
    ensures
        points@ == flattened(grid@, offset_x as int, offset_y as int),
        points@.len() == grid@.width * grid@.height,
{
    let ghost target = flattened(grid@, offset_x as int, offset_y as int);
    let byte_len: usize = grid.pixels.len();
    let width = grid.width;
    let height = grid.height;
    let mut points: Vec<(u32, u32, Color)> = Vec::new();
    let mut y: u32 = 0;
    while y < height
        invariant
            grid@.wf(),
            width == grid@.width,
            height == grid@.height,
            offset_x + width <= u32::MAX + 1,
            offset_y + height <= u32::MAX + 1,
            byte_len == grid@.pixels.len(),
            y <= height,
            target == flattened(grid@, offset_x as int, offset_y as int),
            points@.len() == y * width,
            forall|k: int| 0 <= k < points@.len() ==> points@[k] == target[k],
        decreases height - y,
    {
        let mut x: u32 = 0;
        proof {
            assert((y + 1) * width == y * width + width && y * width + width <= height * width
                && height * width == width * height) by (nonlinear_arith)
                requires
                    y < height,
            ;
        }
        while x < width
            invariant
                grid@.wf(),
                width == grid@.width,
                height == grid@.height,
                offset_x + width <= u32::MAX + 1,
                offset_y + height <= u32::MAX + 1,
                byte_len == grid@.pixels.len(),
                y < height,
                x <= width,
                target == flattened(grid@, offset_x as int, offset_y as int),
                points@.len() == y * width + x,
                y * width + width <= width * height,
                forall|k: int| 0 <= k < points@.len() ==> points@[k] == target[k],
            decreases width - x,
        {
            proof {
                assert(4 * ((y as int) * (width as int) + x) + 3 < 4 * (width as int) * (height
                    as int)) by (nonlinear_arith)
                    requires
                        x < width,
                        y < height,
                ;
                assert(grid@.pixels.len() == byte_len <= usize::MAX);
            }
            let base: usize = (y as usize) * (width as usize) + (x as usize);
            let byte: usize = 4 * base;
            proof {
                vstd::arithmetic::div_mod::lemma_fundamental_div_mod_converse(
                    base as int,
                    width as int,
                    y as int,
                    x as int,
                );
            }
            let color = Color {
                r: grid.pixels[byte],
                g: grid.pixels[byte + 1],
                b: grid.pixels[byte + 2],
            };
            let point = (x + offset_x, y + offset_y, color);
            proof {
                assert(point == target[base as int]);
            }
            points.push(point);
            x = x + 1;
        }
        y = y + 1;
    }
    proof {
        assert(points@.len() == height * width);
        assert(width * height == height * width) by (nonlinear_arith);
        assert(points@ =~= target);
    }
    points
}

} // verus!
