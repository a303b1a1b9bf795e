//! Turns a decoded raster image into a flat, positioned list of colored
//! points for a fixed-size rectangular display surface.
//!
//! The pipeline: resolve the target dimensions (explicit values or a scaled
//! fallback), resample the native pixel grid to the target (aspect-preserving
//! fit or exact stretch, through a triangle filter), then flatten the grid
//! into `(x, y, color)` points shifted by a constant offset.

mod color;
mod flatten;
mod grid;
mod pipeline;
mod resample;
mod size;

pub use color::Color;
pub use flatten::flatten;
pub use flatten::flattened;
pub use flatten::lemma_alpha_dropped;
pub use flatten::lemma_offset_linearity;
pub use flatten::lemma_point_coords_in_range;
pub use flatten::pixel_color;
pub use flatten::point_at;
pub use grid::GridView;
pub use grid::PixelGrid;
pub use pipeline::DecodeError;
pub use pipeline::lemma_identity_colors;
pub use pipeline::load_image;
pub use pipeline::request_allowed;
pub use resample::lemma_identity_resample;
pub use resample::lemma_resampled_dims_bounded;
pub use resample::lemma_stretch_exact;
pub use resample::resample;
pub use resample::resampled;
pub use resample::resampled_height;
pub use resample::resampled_width;
pub use resample::triangle_resampled;
pub use size::ResizeMode;
pub use size::chosen_mode;
pub use size::fit_dimensions;
pub use size::fit_height;
pub use size::fit_width;
pub use size::lemma_fit_dims_bounded;
pub use size::lemma_fit_preserves_ratio;
pub use size::resolve_target;
pub use size::resolved_extent;
pub use size::rounded_ratio;
pub use size::select_mode;
pub use size::width_constrained;
