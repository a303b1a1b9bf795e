//! Unit tests for target-size resolution, mode selection, and the
//! aspect-preserving fit computation.

use rael_img::ResizeMode;
use rael_img::fit_dimensions;
use rael_img::resolve_target;
use rael_img::select_mode;

#[test]
fn scale_fallback_resolves_half() {
    // A 100x100 native image with no explicit dimensions and a scale factor
    // of 0.5 resolves to a 50x50 target. The floating-point scaling step is
    // the caller's, floor-toward-zero by integer cast.
    let native_width: u32 = 100;
    let native_height: u32 = 100;
    let scale: f32 = 0.5;
    let scaled_width = (native_width as f32 * scale) as u32;
    let scaled_height = (native_height as f32 * scale) as u32;
    assert_eq!(scaled_width, 50);
    assert_eq!(scaled_height, 50);
    let target = resolve_target(None, None, scaled_width, scaled_height);
    assert_eq!(target, (50, 50));
}

#[test]
fn explicit_dimensions_take_precedence_unscaled() {
    // Explicit dimensions are used as-is; the scaled extents are ignored.
    let target = resolve_target(Some(30), Some(40), 200, 200);
    assert_eq!(target, (30, 40));
}

#[test]
fn absent_axes_fall_back_independently() {
    assert_eq!(resolve_target(Some(30), None, 50, 60), (30, 60));
    assert_eq!(resolve_target(None, Some(40), 50, 60), (50, 40));
}

#[test]
fn stretch_needs_both_explicit_dimensions() {
    assert_eq!(select_mode(true, true, true), ResizeMode::Stretch);
    assert_eq!(select_mode(true, true, false), ResizeMode::Fit);
    assert_eq!(select_mode(true, false, true), ResizeMode::Fit);
    assert_eq!(select_mode(false, true, true), ResizeMode::Fit);
    assert_eq!(select_mode(false, false, false), ResizeMode::Fit);
}

#[test]
fn fit_halves_the_unconstrained_axis() {
    // 100x50 into 10x10: the width constrains the fit, the height follows
    // the native 2:1 ratio exactly.
    assert_eq!(fit_dimensions(100, 50, 10, 10), (10, 5));
    // The mirrored case constrains the height instead.
    assert_eq!(fit_dimensions(50, 100, 10, 10), (5, 10));
}

#[test]
fn fit_rounds_to_nearest_pixel() {
    // 3x2 into 100x100: the exact ratio-preserving height is 66.67 pixels,
    // rounded to 67.
    assert_eq!(fit_dimensions(3, 2, 100, 100), (100, 67));
    // 2x3 native, mirrored.
    assert_eq!(fit_dimensions(2, 3, 100, 100), (67, 100));
}

#[test]
fn fit_keeps_at_least_one_pixel_per_axis() {
    // A very wide native grid squeezed into a square: the exact height would
    // round to zero and is clamped to a single row.
    assert_eq!(fit_dimensions(100, 1, 10, 10), (10, 1));
    assert_eq!(fit_dimensions(1, 100, 10, 10), (1, 10));
}

#[test]
fn fit_of_matching_ratio_is_exact() {
    assert_eq!(fit_dimensions(200, 100, 20, 10), (20, 10));
}
