//! A small grayscale image normalization library.
//!
//! The pipeline takes an in-memory grayscale raster and produces a resized,
//! contrast-stretched, gamma-corrected output: dimensions are solved so that
//! the result fits a bounding box while keeping the aspect ratio, the
//! intensity range between two percentile cutoffs is stretched to the full
//! displayable range, and a precomputed lookup table applies the gamma curve.

pub mod buffer;
pub mod contrast;
pub mod dimensions;
pub mod gamma;
pub mod params;
pub mod pipeline;
pub mod resize;

pub use buffer::GrayBuffer;
pub use dimensions::resize_dimensions;
pub use params::{BuildError, ConvertParams, ConvertParamsBuilder, Filter};
pub use pipeline::{convert, ConvertError};
