use vstd::prelude::*;

verus! {

/// The kinds of failure that the pipeline distinguishes.
#[derive(Debug, Clone, Copy, PartialEq, Eq, Structural)]
pub enum PipelineError {
    /// A bitrate out of bounds or not representable, or an unusable path.
    Validation,
    /// The input could not be opened or the output could not be created.
    Io,
    /// An unsupported codec, or an output stream that could not be added.
    StreamSetup,
    /// The output header or trailer could not be written.
    Format,
    /// A codec-level failure while decoding.
    Decode,
    /// A codec-level failure while encoding.
    Encode,
    /// An interleaved packet could not be written.
    Write,
    /// The job handle's lock was unavailable.
    Lock,
}

} // verus!
