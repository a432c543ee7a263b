//! Verified core of a streaming video-to-image pipeline: stream selection,
//! target-resolution and chunk-size arithmetic, the decode/drain control loop
//! as a state machine, output file naming and raw pixmap framing.

pub mod error;
pub mod resolution;
pub mod chunk;
pub mod stream;
pub mod pipeline;
pub mod output;
pub mod ppm;
pub mod raster;
