//! Resolving the target dimensions and choosing how to reach them: either an
//! exact stretch to the target rectangle, or the largest aspect-preserving
//! fit inside it.

use vstd::prelude::*;

verus! {

/// How the native grid is brought to the target rectangle.
#[derive(Clone, Copy, Debug, PartialEq, Eq, Structural)]
pub enum ResizeMode {
    /// Resample to exactly the target dimensions, ignoring the native
    /// aspect ratio.
    Stretch,
    /// Resample to the largest grid that fits inside the target rectangle
    /// while preserving the native aspect ratio.
    Fit,
}

/// The extent the target rectangle gets on one axis: the explicit value when
/// the caller gave one, else the scaled native extent.
pub open spec fn resolved_extent(explicit: Option<u32>, scaled: u32) -> u32 {
    match explicit {
        Some(e) => e,
        None => scaled,
    }
}

/// Resolves the target dimensions. An explicit `width` or `height` is taken
/// as it is; on an axis with no explicit value the scaled native extent
/// stands in. The scaled extents are the native dimensions multiplied by the
/// caller's scale factor (a floating-point step that the caller performs);
/// they are ignored on an axis with an explicit value, so explicit
/// dimensions are never rescaled. Zero extents are a caller contract
/// violation: the pipeline's functions reject them by precondition.
pub fn resolve_target(
    width: Option<u32>,
    height: Option<u32>,
    scaled_width: u32,
    scaled_height: u32,
) -> (target: (u32, u32))
    ensures
        target.0 == resolved_extent(width, scaled_width),
        target.1 == resolved_extent(height, scaled_height),
{
    let target_width = match width {
        Some(w) => w,
        None => scaled_width,
    };
    let target_height = match height {
        Some(h) => h,
        None => scaled_height,
    };
    (target_width, target_height)
}

/// The mode the resampler runs in: a stretch exactly when the caller asked
/// for one and gave both dimensions explicitly; the aspect-preserving fit in
/// every other case.
pub open spec fn chosen_mode(stretch: bool, width_given: bool, height_given: bool) -> ResizeMode {
    if stretch && width_given && height_given {
        ResizeMode::Stretch
    } else {
        ResizeMode::Fit
    }
}

/// Selects the resize mode from the request: stretch mode only when
/// `stretch` is set and both dimensions were explicit; otherwise fit mode.
pub fn select_mode(stretch: bool, width_given: bool, height_given: bool) -> (mode: ResizeMode)
    ensures
        mode == chosen_mode(stretch, width_given, height_given),
{
    if stretch && width_given && height_given {
        ResizeMode::Stretch
    } else {
        ResizeMode::Fit
    }
}

/// `num / den` rounded to the nearest integer, halves away from zero
/// (for nonnegative operands: halves up).
pub open spec fn rounded_ratio(num: int, den: int) -> int {
    (2 * num + den) / (2 * den)
}

/// `v`, raised to 1 when it is smaller: a resampled grid never loses an
/// axis entirely.
pub open spec fn at_least_one(v: int) -> int {
    if v < 1 {
        1
    } else {
        v
    }
}

/// Whether the width is the constraining axis of the fit: shrinking the
/// native grid to width `tw` keeps the height within `th`.
pub open spec fn width_constrained(nw: int, nh: int, tw: int, th: int) -> bool {
    tw * nh <= th * nw
}

/// The width of the largest aspect-preserving grid inside `tw` by `th`:
/// `tw` itself when the width constrains the fit, else the native width
/// scaled by `th / nh`, rounded, and at least 1.
pub open spec fn fit_width(nw: int, nh: int, tw: int, th: int) -> int {
    if width_constrained(nw, nh, tw, th) {
        tw
    } else {
        at_least_one(rounded_ratio(nw * th, nh))
    }
}

/// The height of the largest aspect-preserving grid inside `tw` by `th`:
/// the native height scaled by `tw / nw`, rounded, and at least 1, when the
/// width constrains the fit; else `th` itself.
pub open spec fn fit_height(nw: int, nh: int, tw: int, th: int) -> int {
    if width_constrained(nw, nh, tw, th) {
        at_least_one(rounded_ratio(nh * tw, nw))
    } else {
        th
    }
}

/// The two sides of the division behind `rounded_ratio`: the rounded value
/// `r` satisfies `2*den*r <= 2*num + den < 2*den*(r + 1)`.
proof fn lemma_rounded_ratio_bounds(num: int, den: int)
    requires
        1 <= den,
    ensures
        2 * den * rounded_ratio(num, den) <= 2 * num + den,
        2 * num + den < 2 * den * rounded_ratio(num, den) + 2 * den,
{
    let x = 2 * num + den;
    let d = 2 * den;
    vstd::arithmetic::div_mod::lemma_fundamental_div_mod(x, d);
    vstd::arithmetic::div_mod::lemma_mod_bound(x, d);
}

/// A rounded ratio stays at or under any bound the exact ratio stays under:
/// `num <= bound * den` gives `rounded_ratio(num, den) <= bound`.
proof fn lemma_rounded_ratio_le(num: int, den: int, bound: int)
    requires
        1 <= den,
        num <= bound * den,
    ensures
        rounded_ratio(num, den) <= bound,
{
    let r = rounded_ratio(num, den);
    lemma_rounded_ratio_bounds(num, den);
    assert(2 * den * r < 2 * den * (bound + 1)) by (nonlinear_arith)
        requires
            num <= bound * den,
            2 * den * r <= 2 * num + den,
            1 <= den,
    ;
    assert(r <= bound) by (nonlinear_arith)
        requires
            2 * den * r < 2 * den * (bound + 1),
            1 <= den,
    ;
}

/// The fit stays inside the target rectangle and keeps both axes: with
/// positive native and target dimensions, `1 <= fit_width <= tw` and
/// `1 <= fit_height <= th`.
pub proof fn lemma_fit_dims_bounded(nw: int, nh: int, tw: int, th: int)
    requires
        1 <= nw,
        1 <= nh,
        1 <= tw,
        1 <= th,
    ensures
        1 <= fit_width(nw, nh, tw, th) <= tw,
        1 <= fit_height(nw, nh, tw, th) <= th,
{
    if width_constrained(nw, nh, tw, th) {
        assert(nh * tw <= th * nw) by (nonlinear_arith)
            requires
                tw * nh <= th * nw,
        ;
        lemma_rounded_ratio_le(nh * tw, nw, th);
    } else {
        assert(nw * th <= tw * nh) by (nonlinear_arith)
            requires
                !(tw * nh <= th * nw),
        ;
        lemma_rounded_ratio_le(nw * th, nh, tw);
    }
}

/// Fit mode preserves the native aspect ratio up to one pixel of rounding
/// error on the unconstrained axis. When the width constrains the fit, the
/// width is exactly `tw` and the height is within one pixel of the exact
/// ratio-preserving value `tw * nh / nw`; symmetrically when the height
/// constrains it.
pub proof fn lemma_fit_preserves_ratio(nw: int, nh: int, tw: int, th: int)
    requires
        1 <= nw,
        1 <= nh,
        1 <= tw,
        1 <= th,
    ensures
        width_constrained(nw, nh, tw, th) ==> fit_width(nw, nh, tw, th) == tw
            && -nw <= fit_height(nw, nh, tw, th) * nw - tw * nh <= nw,
        !width_constrained(nw, nh, tw, th) ==> fit_height(nw, nh, tw, th) == th
            && -nh <= fit_width(nw, nh, tw, th) * nh - th * nw <= nh,
{
    if width_constrained(nw, nh, tw, th) {
        assert(1 <= nh * tw) by (nonlinear_arith)
            requires
                1 <= nh,
                1 <= tw,
        ;
        lemma_ratio_error_within_one(nh * tw, nw);
        assert(at_least_one(rounded_ratio(nh * tw, nw)) * nw == nw * at_least_one(
            rounded_ratio(nh * tw, nw),
        )) by (nonlinear_arith);
        assert(tw * nh == nh * tw) by (nonlinear_arith);
    } else {
        assert(1 <= nw * th) by (nonlinear_arith)
            requires
                1 <= nw,
                1 <= th,
        ;
        lemma_ratio_error_within_one(nw * th, nh);
        assert(at_least_one(rounded_ratio(nw * th, nh)) * nh == nh * at_least_one(
            rounded_ratio(nw * th, nh),
        )) by (nonlinear_arith);
        assert(th * nw == nw * th) by (nonlinear_arith);
    }
}

/// The clamped rounded ratio is within one of the exact ratio `num / den`:
/// `|den * at_least_one(rounded_ratio(num, den)) - num| <= den` when
/// `num >= 1`.
proof fn lemma_ratio_error_within_one(num: int, den: int)
    requires
        1 <= den,
        1 <= num,
    ensures
        -den <= den * at_least_one(rounded_ratio(num, den)) - num <= den,
{
    let r = rounded_ratio(num, den);
    lemma_rounded_ratio_bounds(num, den);
    if r < 1 {
        // The exact ratio is under one half; the clamp to 1 overshoots by
        // less than a pixel.
        assert(2 * den * r <= 0) by (nonlinear_arith)
            requires
                r < 1,
                1 <= den,
                2 * den * r <= 2 * num + den,
                2 * num + den < 2 * den * r + 2 * den,
        ;
        assert(2 * num < den) by (nonlinear_arith)
            requires
                r < 1,
                1 <= den,
                2 * num + den < 2 * den * r + 2 * den,
        ;
    } else {
        assert(-den <= den * r - num <= den) by (nonlinear_arith)
            requires
                2 * den * r <= 2 * num + den,
                2 * num + den < 2 * den * r + 2 * den,
                1 <= den,
        ;
    }
}

/// Computes the largest aspect-preserving dimensions inside the target
/// rectangle: the constraining axis gets its target extent exactly, the
/// other the native extent scaled by the same ratio, rounded to the nearest
/// pixel and kept at least 1.
pub fn fit_dimensions(
    native_width: u32,
    native_height: u32,
    target_width: u32,
    target_height: u32,
) -> (dims: (u32, u32))
    requires
        1 <= native_width,
        1 <= native_height,
        1 <= target_width,
        1 <= target_height,
    ensures
        dims.0 == fit_width(
            native_width as int,
            native_height as int,
            target_width as int,
            target_height as int,
        ),
        dims.1 == fit_height(
            native_width as int,
            native_height as int,
            target_width as int,
            target_height as int,
        ),
        1 <= dims.0 <= target_width,
        1 <= dims.1 <= target_height,
{
    proof {
        lemma_fit_dims_bounded(
            native_width as int,
            native_height as int,
            target_width as int,
            target_height as int,
        );
        assert((target_width as int) * (native_height as int) <= u64::MAX && (
        target_height as int) * (native_width as int) <= u64::MAX) by (nonlinear_arith)
            requires
                native_width <= u32::MAX,
                native_height <= u32::MAX,
                target_width <= u32::MAX,
                target_height <= u32::MAX,
        ;
    }
    let constrained_by_width = (target_width as u64) * (native_height as u64) <= (target_height
        as u64) * (native_width as u64);
    if constrained_by_width {
        let rounded = rounded_scale(native_height, target_width, native_width);
        proof {
            assert((native_height as int) * (target_width as int) <= (target_height as int) * (
            native_width as int)) by (nonlinear_arith)
                requires
                    (target_width as int) * (native_height as int) <= (target_height as int) * (
                    native_width as int),
            ;
            lemma_rounded_ratio_le(
                (native_height as int) * (target_width as int),
                native_width as int,
                target_height as int,
            );
        }
        let height: u32 = if rounded < 1 {
            1
        } else {
            rounded as u32
        };
        (target_width, height)
    } else {
        let rounded = rounded_scale(native_width, target_height, native_height);
        proof {
            assert((native_width as int) * (target_height as int) <= (target_width as int) * (
            native_height as int)) by (nonlinear_arith)
                requires
                    !((target_width as int) * (native_height as int) <= (target_height as int) * (
                    native_width as int)),
            ;
            lemma_rounded_ratio_le(
                (native_width as int) * (target_height as int),
                native_height as int,
                target_width as int,
            );
        }
        let width: u32 = if rounded < 1 {
            1
        } else {
            rounded as u32
        };
        (width, target_height)
    }
}

/// Computes `rounded_ratio(extent * factor, den)` exactly, in wide integer
/// arithmetic that cannot overflow for 32-bit operands.
fn rounded_scale(extent: u32, factor: u32, den: u32) -> (r: u64)
    requires
        1 <= den,
    ensures
        r == rounded_ratio(extent * factor, den as int),
{
    proof {
        assert(2 * (extent as int) * (factor as int) + den < u128::MAX
            && (extent as int) * (factor as int) <= u64::MAX) by (nonlinear_arith)
            requires
                extent <= u32::MAX,
                factor <= u32::MAX,
                den <= u32::MAX,
        ;
    }
    let num: u128 = 2 * (extent as u128) * (factor as u128) + (den as u128);
    let wide_den: u128 = 2 * (den as u128);
    let q: u128 = num / wide_den;
    proof {
        let product = (extent as int) * (factor as int);
        assert(num == 2 * product + den) by (nonlinear_arith)
            requires
                num == 2 * (extent as u128) * (factor as u128) + (den as u128),
                product == (extent as int) * (factor as int),
        ;
        assert(product <= product * den) by (nonlinear_arith)
            requires
                1 <= den,
                0 <= product,
        ;
        lemma_rounded_ratio_le(product, den as int, product);
        assert(q == rounded_ratio(product, den as int));
    }
    q as u64
}

} // verus!
