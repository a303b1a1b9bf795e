//! The pipeline entry point: a single linear path from the decoder's outcome
//! to the positioned point list. A decode failure short-circuits the whole
//! pipeline with no output; a decoded grid is resolved, resampled and
//! flattened, none of which can fail.

use vstd::prelude::*;

use crate::color::Color;
use crate::flatten::flatten;
use crate::flatten::flattened;
use crate::flatten::pixel_color;
use crate::grid::GridView;
use crate::grid::PixelGrid;
use crate::resample::lemma_identity_resample;
use crate::resample::lemma_resampled_dims_bounded;
use crate::resample::resample;
use crate::resample::resampled;
use crate::size::chosen_mode;
use crate::size::resolve_target;
use crate::size::resolved_extent;
use crate::size::select_mode;

verus! {

/// The pipeline's one failure: the decoder collaborator could not produce a
/// pixel grid, be the file missing, its format unsupported, or its bytes
/// corrupt. Decoding is the only step that can fail, so this is the only
/// error the pipeline surfaces.
#[derive(Clone, Copy, Debug, PartialEq, Eq, Structural)]
pub struct DecodeError;

impl DecodeError {
    /// A short description of the failure.
    pub fn describe(&self) -> (r: &'static str)
        ensures
            r@ =~= "the image could not be decoded"@,
    {
        "the image could not be decoded"
    }
}

/// Whether a decoded grid and a resize request are inside the pipeline's
/// contract: the native grid is well formed and non-empty, the resolved
/// target dimensions are positive, the resampling buffers fit the machine's
/// allocation limits, and the offset keeps every emitted coordinate in the
/// 32-bit range. Zero dimensions are a caller contract violation, as is an
/// offset that pushes coordinates past the coordinate space.
pub open spec fn request_allowed(
    native: crate::grid::GridView,
    width: Option<u32>,
    height: Option<u32>,
    position: (u32, u32),
    scaled_width: u32,
    scaled_height: u32,
) -> bool {
    let tw = resolved_extent(width, scaled_width) as int;
    let th = resolved_extent(height, scaled_height) as int;
    &&& native.wf()
    &&& 1 <= native.width
    &&& 1 <= native.height
    &&& 1 <= tw
    &&& 1 <= th
    &&& 4 * tw * th <= isize::MAX
    &&& 16 * native.width * th <= isize::MAX
    &&& position.0 + tw <= u32::MAX + 1
    &&& position.1 + th <= u32::MAX + 1
}

/// Identity resize, seen at the pipeline's output: when the resolved target
/// equals the native dimensions, the color of every emitted point is the
/// native decoded pixel's color exactly — no filter touches the samples,
/// whatever mode was chosen.
pub proof fn lemma_identity_colors(
    g: GridView,
    mode: crate::size::ResizeMode,
    ox: int,
    oy: int,
    i: int,
)
    requires
        0 <= i < g.width * g.height,
    ensures
        flattened(resampled(g, g.width as int, g.height as int, mode), ox, oy)[i].2 == pixel_color(
            g.pixels,
            i,
        ),
{
    lemma_identity_resample(g, mode);
}

/// Loads one image into a positioned point list.
///
/// `decoded` is the outcome of the external decoder collaborator, handed in
/// as a plain value: a well-formed RGBA grid on success, a `DecodeError`
/// otherwise. The other arguments are the resize request: the explicit
/// target dimensions (either may be absent), the position offset added to
/// every emitted coordinate, the stretch flag, and the scaled native
/// dimensions that stand in on an axis with no explicit value (the native
/// extents multiplied by the caller's scale factor, a floating-point step
/// performed by the caller).
///
/// On a decode failure the same error is returned and no points are
/// produced. Otherwise the target size is resolved, the grid is resampled —
/// unchanged when the target equals the native size, stretched exactly to
/// the target when the stretch flag is set and both dimensions were
/// explicit, fitted inside it with the native aspect ratio preserved in
/// every other case — and flattened into one `(x, y, color)` point per
/// pixel, row-major, each coordinate shifted by `position` and each color
/// stripped of its alpha sample.
pub fn load_image(
    decoded: Result<PixelGrid, DecodeError>,
    width: Option<u32>,
    height: Option<u32>,
    position: (u32, u32),
    stretch: bool,
    scaled_width: u32,
    scaled_height: u32,
) -> (result: Result<Vec<(u32, u32, Color)>, DecodeError>)
    requires
        decoded matches Ok(native) ==> request_allowed(
            native@,
            width,
            height,
            position,
            scaled_width,
            scaled_height,
        ),
    ensures
        decoded matches Err(e) ==> result == Err::<Vec<(u32, u32, Color)>, DecodeError>(e),
        decoded matches Ok(native) ==> {
            let grid = resampled(
                native@,
                resolved_extent(width, scaled_width) as int,
                resolved_extent(height, scaled_height) as int,
                chosen_mode(stretch, width is Some, height is Some),
            );
            &&& result matches Ok(points)
            &&& points@ == flattened(grid, position.0 as int, position.1 as int)
            &&& points@.len() == grid.width * grid.height
        },
{
    match decoded {
        Err(e) => Err(e),
        Ok(native) => {
            let (target_width, target_height) = resolve_target(
                width,
                height,
                scaled_width,
                scaled_height,
            );
            let mode = select_mode(stretch, width.is_some(), height.is_some());
            proof {
                lemma_resampled_dims_bounded(
                    native@,
                    target_width as int,
                    target_height as int,
                    mode,
                );
            }
            let grid = resample(&native, target_width, target_height, mode);
            let points = flatten(&grid, position.0, position.1);
            Ok(points)
        },
    }
}

} // verus!
