//! Batch image-format conversion, verified.
//!
//! The crate converts raster image files between a closed set of target
//! formats, for a single file or a whole batch.  Decoding and encoding are
//! delegated to an external codec: the verified code decides what is decoded,
//! where the result is written, how output names are chosen so that they do
//! not collide with files already present, and how per-file successes and
//! failures are aggregated into a batch result.

pub mod batch;
pub mod decimal;
pub mod formats;
pub mod namer;
pub mod outcome;
pub mod paths;

pub use formats::ConvertFormat;
