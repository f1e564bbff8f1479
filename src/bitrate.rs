use vstd::prelude::*;

use crate::error::PipelineError;

verus! {

/// Smallest accepted bitrate, in bits per second.
pub const MIN_BITRATE: u64 = 100_000;

/// Largest accepted bitrate, in bits per second.
pub const MAX_BITRATE: u64 = 100_000_000;

/// Bitrate used when none is requested, in bits per second.
pub const DEFAULT_BITRATE: u64 = 1_000_000;

/// The bitrate that a request stands for: the default when absent.
pub open spec fn requested_or_default(bitrate: Option<u64>) -> u64 {
    match bitrate {
        Some(b) => b,
        None => DEFAULT_BITRATE,
    }
}

/// Whether a bitrate lies within the accepted bounds.
pub open spec fn bitrate_in_bounds(b: u64) -> bool {
    MIN_BITRATE <= b && b <= MAX_BITRATE
}

/// Validates an optional bitrate: the default when absent, the value itself
/// when it lies in `[MIN_BITRATE, MAX_BITRATE]`, a validation error otherwise.
pub fn validate_bitrate(bitrate: Option<u64>) -> (r: Result<usize, PipelineError>)
    ensures
        bitrate_in_bounds(requested_or_default(bitrate)) ==> r == Ok::<usize, PipelineError>(
            requested_or_default(bitrate) as usize,
        ),
        !bitrate_in_bounds(requested_or_default(bitrate)) ==> r == Err::<usize, PipelineError>(
            PipelineError::Validation,
        ),
{
    let b = match bitrate {
        Some(b) => b,
        None => DEFAULT_BITRATE,
    };
    if b < MIN_BITRATE {
        return Err(PipelineError::Validation);
    }
    if b > MAX_BITRATE {
        return Err(PipelineError::Validation);
    }
    let narrow: u32 = b as u32;
    Ok(narrow as usize)
}

/// The optional bitrate that a raw integer from a foreign caller stands for:
/// zero or a negative value asks for the default.
pub open spec fn raw_bitrate_request(raw: i64) -> Option<u64> {
    if raw <= 0 {
        None
    } else {
        Some(raw as u64)
    }
}

/// Reads a raw bitrate as a foreign caller passes it: zero or negative means
/// that no bitrate was requested.
pub fn bitrate_from_raw(raw: i64) -> (r: Option<u64>)
    ensures
        r == raw_bitrate_request(raw),
        r matches Some(b) ==> b as int == raw as int,
{
    if raw <= 0 {
        None
    } else {
        Some(raw as u64)
    }
}

/// Validates a raw bitrate as a foreign caller passes it.
pub fn validate_raw_bitrate(raw: i64) -> (r: Result<usize, PipelineError>)
    ensures
        raw <= 0 ==> r == Ok::<usize, PipelineError>(DEFAULT_BITRATE as usize),
        raw > 0 && MIN_BITRATE <= raw && raw <= MAX_BITRATE ==> r == Ok::<usize, PipelineError>(
            raw as usize,
        ),
        raw > 0 && (raw < MIN_BITRATE || raw > MAX_BITRATE) ==> r == Err::<usize, PipelineError>(
            PipelineError::Validation,
        ),
{
    validate_bitrate(bitrate_from_raw(raw))
}

} // verus!
