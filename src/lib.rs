//! Resizes animated GIFs: decodes the frames, resamples each one, reduces it to
//! an indexed palette and writes the sequence back out with its delays.
pub mod model;
pub mod outside;
pub mod resizer;
pub mod laws;

pub use resizer::{GifResizer, PipelineError};
