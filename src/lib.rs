//! Safe bridge to a native SVG parsing and rasterizing engine.
//!
//! The engine itself lives behind opaque handles. This crate owns the part
//! around it: the unit tokens and the zero-terminated text that cross into the
//! engine, the handles that must be released exactly once, the geometry of the
//! output pixel buffer, and the typed errors that replace null pointers.

mod document;
mod error;
mod raster;
mod session;
mod text;
mod units;

pub use document::{request_spec, ParseRequest, SvgImage, SvgRasterizer};
pub use error::Error;
pub use raster::{
    buffer_holds, capacity_of, extent_px, image_bytes, image_size,
    lemma_capacity_scales_as_square, raster_fits, scaled_extent, RasterTarget, RgbaImage,
    BYTES_PER_PIXEL, FIXED_ONE, MAX_ENGINE_INT,
};
pub use session::{
    acquired, created_handle, ends_in_malloc_error, fits, holds_rasterizer, is_run,
    lemma_run_releases_each_rasterizer_once, released, renders, step_keeps_handles,
    total_acquired, total_released, valid_step, RasterAction, RasterEvent, RasterSession,
};
pub use text::{check_path, encode_c_string, find_nul, first_nul, no_interior_nul};
pub use units::{lemma_unit_token_terminated, unit_letters, unit_token, Units};
