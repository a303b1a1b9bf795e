//! Resampling the native grid to the resolved target: an identity fast path
//! when the dimensions already match, and otherwise a pass through a
//! triangle (bilinear-family) reconstruction filter, either stretched to the
//! exact target or fitted inside it with the aspect ratio preserved.

use vstd::prelude::*;

use crate::grid::GridView;
use crate::grid::PixelGrid;
use crate::size::ResizeMode;
use crate::size::fit_height;
use crate::size::fit_width;
use crate::size::lemma_fit_dims_bounded;

verus! {

/// The RGBA bytes that the triangle reconstruction filter produces when a
/// `src_width` by `src_height` grid of the given bytes is resampled to
/// `out_width` by `out_height`. The filter's exact output is a pure function
/// of these five arguments and is not spelled out here; its grid shape is
/// stated where the filter is called.
pub uninterp spec fn triangle_resampled(
    pixels: Seq<u8>,
    src_width: nat,
    src_height: nat,
    out_width: nat,
    out_height: nat,
) -> Seq<u8>;

/// Relies on `image::imageops::resize` with `FilterType::Triangle`: for a
/// non-empty source grid it returns a buffer of exactly `out_width *
/// out_height` pixels, four bytes each, computed from the source pixels and
/// the dimensions alone. `image::RgbaImage::from_raw` accepts a buffer whose
/// length matches its dimensions, and `into_raw` hands the resampled bytes
/// back. The two size bounds keep the output buffer and the filter's
/// intermediate `src_width` by `out_height` working buffer (sixteen bytes
/// per pixel) allocatable; `resize` panics where an allocation size
/// overflows.
#[verifier::external_body]
fn resize_triangle(
    pixels: &Vec<u8>,
    src_width: u32,
    src_height: u32,
    out_width: u32,
    out_height: u32,
) -> (r: Vec<u8>)
    requires
        pixels@.len() == 4 * src_width * src_height,
        1 <= src_width,
        1 <= src_height,
        1 <= out_width,
        1 <= out_height,
        4 * out_width * out_height <= isize::MAX,
        16 * src_width * out_height <= isize::MAX,
    ensures
        r@ == triangle_resampled(
            pixels@,
            src_width as nat,
            src_height as nat,
            out_width as nat,
            out_height as nat,
        ),
        r@.len() == 4 * out_width * out_height,
{
    let img = image::RgbaImage::from_raw(src_width, src_height, pixels.clone())
        .expect("buffer length matches the dimensions");
    let out = image::imageops::resize(
        &img,
        out_width,
        out_height,
        image::imageops::FilterType::Triangle,
    );
    out.into_raw()
}

/// The width of the grid the resampler returns: the native width when the
/// target already matches the native dimensions, the target width under a
/// stretch, and the fitted width otherwise.
pub open spec fn resampled_width(g: GridView, tw: int, th: int, mode: ResizeMode) -> int {
    if tw == g.width && th == g.height {
        g.width as int
    } else if mode == ResizeMode::Stretch {
        tw
    } else {
        fit_width(g.width as int, g.height as int, tw, th)
    }
}

/// The height of the grid the resampler returns; the counterpart of
/// `resampled_width`.
pub open spec fn resampled_height(g: GridView, tw: int, th: int, mode: ResizeMode) -> int {
    if tw == g.width && th == g.height {
        g.height as int
    } else if mode == ResizeMode::Stretch {
        th
    } else {
        fit_height(g.width as int, g.height as int, tw, th)
    }
}

/// The grid the resampler returns for a native grid and a resolved target:
/// the native grid itself when the dimensions already match (no filtering,
/// no drift), else the triangle-filtered resampling at the mode's
/// dimensions.
pub open spec fn resampled(g: GridView, tw: int, th: int, mode: ResizeMode) -> GridView {
    if tw == g.width && th == g.height {
        g
    } else {
        GridView {
            width: resampled_width(g, tw, th, mode) as nat,
            height: resampled_height(g, tw, th, mode) as nat,
            pixels: triangle_resampled(
                g.pixels,
                g.width,
                g.height,
                resampled_width(g, tw, th, mode) as nat,
                resampled_height(g, tw, th, mode) as nat,
            ),
        }
    }
}

/// The resampled grid stays inside the target rectangle and keeps both axes
/// positive, whatever the mode.
pub proof fn lemma_resampled_dims_bounded(g: GridView, tw: int, th: int, mode: ResizeMode)
    requires
        1 <= g.width,
        1 <= g.height,
        1 <= tw,
        1 <= th,
    ensures
        1 <= resampled_width(g, tw, th, mode) <= tw,
        1 <= resampled_height(g, tw, th, mode) <= th,
        resampled(g, tw, th, mode).width == resampled_width(g, tw, th, mode),
        resampled(g, tw, th, mode).height == resampled_height(g, tw, th, mode),
{
    if !(tw == g.width && th == g.height) && mode == ResizeMode::Fit {
        lemma_fit_dims_bounded(g.width as int, g.height as int, tw, th);
    }
}

/// Identity resize: when the target dimensions equal the native dimensions,
/// the resampler returns the native grid itself, so the output pixels equal
/// the decoded ones exactly and no filtering is applied.
pub proof fn lemma_identity_resample(g: GridView, mode: ResizeMode)
    ensures
        resampled(g, g.width as int, g.height as int, mode) == g,
{
}

/// Stretch exactness: a stretch resamples to exactly the target dimensions,
/// whatever the native aspect ratio (when the target already equals the
/// native size that is the same rectangle).
pub proof fn lemma_stretch_exact(g: GridView, tw: int, th: int)
    requires
        0 <= tw,
        0 <= th,
    ensures
        resampled_width(g, tw, th, ResizeMode::Stretch) == tw,
        resampled_height(g, tw, th, ResizeMode::Stretch) == th,
        resampled(g, tw, th, ResizeMode::Stretch).width == tw,
        resampled(g, tw, th, ResizeMode::Stretch).height == th,
{
}

/// Produces the pixel grid at the resolved target size: unchanged when the
/// target equals the native size, stretched to exactly the target in stretch
/// mode, and fitted inside it (aspect preserved) in fit mode. Total over
/// positive dimensions that fit the machine's allocation limits.
pub fn resample(native: &PixelGrid, target_width: u32, target_height: u32, mode: ResizeMode) -> (out:
    PixelGrid)
    requires
        native@.wf(),
        1 <= native@.width,
        1 <= native@.height,
        1 <= target_width,
        1 <= target_height,
        4 * target_width * target_height <= isize::MAX,
        16 * native@.width * target_height <= isize::MAX,
    ensures
        out@ == resampled(native@, target_width as int, target_height as int, mode),
        out@.wf(),
{
    proof {
        lemma_resampled_dims_bounded(
            native@,
            target_width as int,
            target_height as int,
            mode,
        );
    }
    if target_width == native.width && target_height == native.height {
        let pixels = copy_bytes(&native.pixels);
        PixelGrid { width: native.width, height: native.height, pixels }
    } else {
        match mode {
            ResizeMode::Stretch => {
                let pixels = resize_triangle(
                    &native.pixels,
                    native.width,
                    native.height,
                    target_width,
                    target_height,
                );
                PixelGrid { width: target_width, height: target_height, pixels }
            },
            ResizeMode::Fit => {
                let (fitted_width, fitted_height) = crate::size::fit_dimensions(
                    native.width,
                    native.height,
                    target_width,
                    target_height,
                );
                proof {
                    assert(4 * (fitted_width as int) * (fitted_height as int) <= 4 * (target_width
                        as int) * (target_height as int) && 16 * (native@.width as int) * (
                    fitted_height as int) <= 16 * (native@.width as int) * (target_height as int))
                        by (nonlinear_arith)
                        requires
                            1 <= fitted_width <= target_width,
                            1 <= fitted_height <= target_height,
                            1 <= native@.width,
                    ;
                }
                let pixels = resize_triangle(
                    &native.pixels,
                    native.width,
                    native.height,
                    fitted_width,
                    fitted_height,
                );
                PixelGrid { width: fitted_width, height: fitted_height, pixels }
            },
        }
    }
}

/// Copies a byte buffer unchanged; the identity fast path hands back the
/// native bytes without a filtering pass.
fn copy_bytes(bytes: &Vec<u8>) -> (r: Vec<u8>)
    ensures
        r@ == bytes@,
{
    let mut out: Vec<u8> = Vec::new();
    let mut i: usize = 0;
    while i < bytes.len()
        invariant
            i <= bytes@.len(),
            out@ == bytes@.take(i as int),
        decreases bytes@.len() - i,
    {
        out.push(bytes[i]);
        i = i + 1;
        proof {
            assert(out@ =~= bytes@.take(i as int));
        }
    }
    proof {
        assert(out@ =~= bytes@);
    }
    out
}

} // verus!
