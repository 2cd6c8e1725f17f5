//! Bridges 8-bit luminance rasters and dense matrices of normalized scalars.
//!
//! The codec maps a raw sample in `0..=255` onto the signed normalized range
//! `[-1, 1]` and back; the bridge applies it element by element, keeping the
//! raster's width as the matrix's rows and its height as the columns, in
//! column-major order on both sides.

pub mod codec;
pub mod bridge;
