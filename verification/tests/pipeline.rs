//! End-to-end tests of the pipeline: identity resize, stretch, fit, offsets,
//! alpha dropping, decode failure, and the point-count invariant.

use rael_img::Color;
use rael_img::DecodeError;
use rael_img::PixelGrid;
use rael_img::load_image;

/// Builds a well-formed grid from per-pixel RGBA quadruples, row-major.
fn grid_of(width: u32, height: u32, rgba: &[(u8, u8, u8, u8)]) -> PixelGrid {
    assert_eq!(rgba.len() as u64, width as u64 * height as u64);
    let mut bytes = Vec::new();
    for &(r, g, b, a) in rgba {
        bytes.push(r);
        bytes.push(g);
        bytes.push(b);
        bytes.push(a);
    }
    PixelGrid::new(width, height, bytes).expect("the buffer matches the dimensions")
}

/// A solid grid of one RGBA value.
fn solid_grid(width: u32, height: u32, rgba: (u8, u8, u8, u8)) -> PixelGrid {
    let pixels = vec![rgba; (width as usize) * (height as usize)];
    grid_of(width, height, &pixels)
}

#[test]
fn grid_construction_checks_the_buffer_length() {
    assert!(PixelGrid::new(2, 1, vec![0; 8]).is_some());
    assert!(PixelGrid::new(2, 1, vec![0; 7]).is_none());
    assert!(PixelGrid::new(2, 1, vec![0; 9]).is_none());
}

#[test]
fn identity_resize_keeps_native_colors() {
    // Target equals native: every point carries the decoded pixel's color,
    // in row-major order, and no filtering touches the samples.
    let native = grid_of(
        2,
        2,
        &[(1, 2, 3, 255), (4, 5, 6, 255), (7, 8, 9, 255), (10, 11, 12, 255)],
    );
    let points = load_image(Ok(native), Some(2), Some(2), (0, 0), false, 2, 2).unwrap();
    assert_eq!(
        points,
        vec![
            (0, 0, Color { r: 1, g: 2, b: 3 }),
            (1, 0, Color { r: 4, g: 5, b: 6 }),
            (0, 1, Color { r: 7, g: 8, b: 9 }),
            (1, 1, Color { r: 10, g: 11, b: 12 }),
        ]
    );
}

#[test]
fn identity_resize_through_scale_fallback() {
    // No explicit dimensions and scaled extents equal to the native ones:
    // the fast path applies through the fallback as well.
    let native = grid_of(1, 2, &[(9, 9, 9, 1), (3, 3, 3, 200)]);
    let points = load_image(Ok(native), None, None, (0, 0), false, 1, 2).unwrap();
    assert_eq!(
        points,
        vec![(0, 0, Color { r: 9, g: 9, b: 9 }), (0, 1, Color { r: 3, g: 3, b: 3 })]
    );
}

#[test]
fn alpha_is_dropped() {
    // A fully transparent pixel is emitted exactly like an opaque one with
    // the same RGB samples.
    let native = grid_of(2, 1, &[(10, 20, 30, 0), (10, 20, 30, 255)]);
    let points = load_image(Ok(native), Some(2), Some(1), (0, 0), false, 2, 1).unwrap();
    assert_eq!(points[0].2, Color { r: 10, g: 20, b: 30 });
    assert_eq!(points[0].2, points[1].2);
}

#[test]
fn offset_shifts_every_point_by_the_delta() {
    // Changing only the position shifts every output point by exactly the
    // delta; nothing else changes.
    let native_a = grid_of(2, 2, &[(1, 1, 1, 9), (2, 2, 2, 9), (3, 3, 3, 9), (4, 4, 4, 9)]);
    let native_b = grid_of(2, 2, &[(1, 1, 1, 9), (2, 2, 2, 9), (3, 3, 3, 9), (4, 4, 4, 9)]);
    let base = load_image(Ok(native_a), Some(2), Some(2), (0, 0), false, 2, 2).unwrap();
    let moved = load_image(Ok(native_b), Some(2), Some(2), (10, 5), false, 2, 2).unwrap();
    assert_eq!(base.len(), moved.len());
    for (p, q) in base.iter().zip(moved.iter()) {
        assert_eq!(q.0, p.0 + 10);
        assert_eq!(q.1, p.1 + 5);
        assert_eq!(q.2, p.2);
    }
}

#[test]
fn stretch_fills_the_exact_target() {
    // Stretch mode with both dimensions explicit: exactly width * height
    // points, whatever the native aspect ratio.
    let native = solid_grid(2, 1, (0, 0, 0, 255));
    let points = load_image(Ok(native), Some(4), Some(2), (0, 0), true, 2, 1).unwrap();
    assert_eq!(points.len(), 8);
    let expected: Vec<(u32, u32)> = vec![
        (0, 0),
        (1, 0),
        (2, 0),
        (3, 0),
        (0, 1),
        (1, 1),
        (2, 1),
        (3, 1),
    ];
    let coords: Vec<(u32, u32)> = points.iter().map(|p| (p.0, p.1)).collect();
    assert_eq!(coords, expected);
    for p in &points {
        assert_eq!(p.2, Color { r: 0, g: 0, b: 0 });
    }
}

#[test]
fn stretch_flag_without_both_dimensions_falls_back_to_fit() {
    // The stretch flag alone does not select stretch mode: with the height
    // omitted the fit applies, and a 100x50 native grid squeezed into a
    // nominal 10x10 target keeps its 2:1 ratio as 10x5.
    let native = solid_grid(100, 50, (5, 6, 7, 8));
    let points = load_image(Ok(native), Some(10), None, (0, 0), true, 10, 10).unwrap();
    assert_eq!(points.len(), 50);
}

#[test]
fn fit_preserves_the_native_ratio() {
    // Fit mode: the grid stays inside the target rectangle, preserving the
    // native 2:1 ratio, so one axis falls short of the nominal target.
    let native = solid_grid(100, 50, (0, 0, 0, 255));
    let points = load_image(Ok(native), Some(10), Some(10), (0, 0), false, 100, 50).unwrap();
    assert_eq!(points.len(), 50);
    let max_x = points.iter().map(|p| p.0).max().unwrap();
    let max_y = points.iter().map(|p| p.1).max().unwrap();
    assert_eq!((max_x, max_y), (9, 4));
}

#[test]
fn count_always_matches_the_resolved_grid() {
    // The point count equals the resolved grid's area: stretched, fitted,
    // and identity targets alike.
    let cases: Vec<(u32, u32, Option<u32>, Option<u32>, bool, usize)> = vec![
        (4, 4, Some(4), Some(4), false, 16),
        (4, 4, Some(2), Some(2), true, 4),
        (4, 2, Some(8), Some(8), false, 32),
        (3, 3, None, None, false, 9),
    ];
    for (nw, nh, w, h, stretch, expected) in cases {
        let native = solid_grid(nw, nh, (1, 2, 3, 4));
        let points = load_image(Ok(native), w, h, (7, 7), stretch, nw, nh).unwrap();
        assert_eq!(points.len(), expected);
    }
}

#[test]
fn resampled_colors_of_a_solid_black_grid_stay_black() {
    // The triangle filter's weighted sums of all-zero samples are zero: a
    // solid black grid resamples to solid black at any size.
    let native = solid_grid(4, 4, (0, 0, 0, 255));
    let points = load_image(Ok(native), Some(2), Some(2), (0, 0), true, 4, 4).unwrap();
    assert_eq!(points.len(), 4);
    for p in &points {
        assert_eq!(p.2, Color { r: 0, g: 0, b: 0 });
    }
}

#[test]
fn decode_failure_yields_the_error_and_no_points() {
    // A nonexistent path makes the decoder fail; the pipeline returns the
    // decode error and produces no points at all.
    let decoded = match image::open("this/path/does/not/exist.png") {
        Ok(img) => {
            let (w, h) = image::GenericImageView::dimensions(&img);
            Ok(PixelGrid::new(w, h, img.to_rgba8().into_raw()).unwrap())
        }
        Err(_) => Err(DecodeError),
    };
    assert!(decoded.is_err());
    let result = load_image(decoded, Some(10), Some(10), (0, 0), false, 10, 10);
    assert_eq!(result, Err(DecodeError));
}

#[test]
fn decode_error_describes_itself() {
    assert_eq!(DecodeError.describe(), "the image could not be decoded");
}
