//! Numeric kernel of a lens-distortion correction tool: unit-tagged pixel
//! coordinates, a single-channel raster image abstraction with owned and
//! file-backed implementations, and a bilinear sub-pixel sampler.

pub mod cli;
pub mod distort;
pub mod image;
pub mod units;
