//! Converts a single-band 8-bit raster into a JSON document that combines
//! caller-supplied metadata, the raster's geospatial metadata, and the pixel
//! grid as a column-major nested array of bytes.
//!
//! The crate holds the verified core of that pipeline: path rewriting for
//! gzip-compressed inputs, validation of the raster's band layout and pixel
//! type, the column-by-column accumulation of pixel data, and the merge of
//! derived metadata keys into the caller's metadata document. Opening the
//! raster and reading its pixels is left to the caller, which feeds the
//! results into these functions.

pub mod cli;
pub mod grid;
pub mod jsonval;
pub mod metadata;
pub mod paths;
pub mod raster;
