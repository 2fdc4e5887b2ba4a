//! Barcode and QR codec pipeline.
//!
//! Two pipelines share one format-name mapping: decoding a raw luminance
//! buffer into a text-plus-format result, and encoding a content string into
//! a symbol matrix that is then cropped to its tight bounding box and
//! rasterized into a fixed ARGB byte layout.  The symbol detection and
//! symbol construction themselves are an outside capability (the `rxing`
//! crate); everything around those two calls is verified.

pub mod codec;
pub mod engine;
pub mod format;
pub mod matrix;
pub mod raster;
