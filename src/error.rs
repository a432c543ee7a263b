use vstd::prelude::*;

verus! {

/// Every way a pipeline run can fail; each one ends the run.
#[derive(Debug, Clone, Copy, PartialEq, Eq, Structural)]
pub enum PipelineError {
    /// The path cannot be opened as a media container.
    SourceUnavailable,
    /// The container holds no stream of video type.
    NoVideoStream,
    /// The decoder rejected a packet or failed while draining.
    DecodeError,
    /// The rescaler could not be built or could not convert a frame.
    RescaleError,
    /// A decoded buffer is too small for the raster it should hold.
    RasterConstructionError,
    /// An output image could not be serialized.
    EncodeError,
    /// An output file could not be created or written.
    WriteError,
}

} // verus!
