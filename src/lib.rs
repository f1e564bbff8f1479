//! Decision logic of a video re-encoding pipeline: bitrate validation, stream
//! routing, timestamp rescaling, the per-stream transcoder state machine and
//! the job that drives packets and end-of-stream flushing.
use vstd::prelude::*;

pub mod bitrate;
pub mod error;
pub mod path;
pub mod request;
pub mod pipeline;
pub mod router;
pub mod timebase;
pub mod transcoder;

verus! {

} // verus!
