use vstd::prelude::*;
use vstd::string::StringSliceAdditionalSpecFns;
use vstd::utf8::encode_utf8;

use crate::bitrate::{bitrate_in_bounds, requested_or_default, validate_bitrate};
use crate::error::PipelineError;
use crate::path::{has_file_scheme, normalize_path};

verus! {

/// A re-encoding request that passed validation, ready to be scheduled.
pub struct JobRequest {
    pub input_path: String,
    pub output_path: String,
    pub target_width: u32,
    pub target_height: u32,
    /// Target video bitrate, in bits per second.
    pub bitrate: usize,
}

/// The path that is opened for a requested path: the local-file scheme
/// marker stripped, anything else unchanged.
pub open spec fn normalized(path: &str, r: Seq<char>) -> bool {
    &&& has_file_scheme(path.spec_bytes()) ==> encode_utf8(r) == path.spec_bytes().subrange(
        7,
        path.spec_bytes().len() as int,
    )
    &&& !has_file_scheme(path.spec_bytes()) ==> r == path@
}

/// Validates a re-encoding request before anything is opened: the bitrate
/// is checked (a validation error when out of bounds) and both paths are
/// normalized; width and height are taken as given.
pub fn prepare_request(
    input_path: &str,
    output_path: &str,
    target_width: u32,
    target_height: u32,
    bitrate: Option<u64>,
) -> (r: Result<JobRequest, PipelineError>)
    ensures
        r is Ok <==> bitrate_in_bounds(requested_or_default(bitrate)),
        r is Err ==> r == Err::<JobRequest, PipelineError>(PipelineError::Validation),
        r matches Ok(q) ==> {
            &&& normalized(input_path, q.input_path@)
            &&& normalized(output_path, q.output_path@)
            &&& q.target_width == target_width
            &&& q.target_height == target_height
            &&& q.bitrate == requested_or_default(bitrate) as usize
        },
{
    let bitrate = match validate_bitrate(bitrate) {
        Ok(b) => b,
        Err(e) => return Err(e),
    };
    Ok(
        JobRequest {
            input_path: normalize_path(input_path),
            output_path: normalize_path(output_path),
            target_width,
            target_height,
            bitrate,
        },
    )
}

} // verus!
