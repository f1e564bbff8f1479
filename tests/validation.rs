use capacitor_ffmpeg::bitrate::{
    bitrate_from_raw, validate_bitrate, validate_raw_bitrate, DEFAULT_BITRATE, MAX_BITRATE,
    MIN_BITRATE,
};
use capacitor_ffmpeg::error::PipelineError;
use capacitor_ffmpeg::path::normalize_path;
use capacitor_ffmpeg::request::prepare_request;

#[test]
fn bitrate_in_bounds_is_kept() {
    assert_eq!(validate_bitrate(Some(100_000)), Ok(100_000));
    assert_eq!(validate_bitrate(Some(2_500_000)), Ok(2_500_000));
    assert_eq!(validate_bitrate(Some(100_000_000)), Ok(100_000_000));
    assert_eq!(validate_raw_bitrate(750_000), Ok(750_000));
}

#[test]
fn absent_bitrate_gives_default() {
    assert_eq!(validate_bitrate(None), Ok(1_000_000));
    assert_eq!(DEFAULT_BITRATE, 1_000_000);
}

#[test]
fn zero_or_negative_raw_bitrate_gives_default() {
    assert_eq!(validate_raw_bitrate(0), Ok(1_000_000));
    assert_eq!(validate_raw_bitrate(-1), Ok(1_000_000));
    assert_eq!(validate_raw_bitrate(-5_000_000), Ok(1_000_000));
    assert_eq!(bitrate_from_raw(0), None);
    assert_eq!(bitrate_from_raw(-7), None);
    assert_eq!(bitrate_from_raw(300_000), Some(300_000));
}

#[test]
fn bitrate_out_of_bounds_is_rejected() {
    assert_eq!(validate_bitrate(Some(50_000)), Err(PipelineError::Validation));
    assert_eq!(validate_bitrate(Some(200_000_000)), Err(PipelineError::Validation));
    assert_eq!(validate_bitrate(Some(0)), Err(PipelineError::Validation));
    assert_eq!(validate_bitrate(Some(u64::MAX)), Err(PipelineError::Validation));
    assert_eq!(validate_raw_bitrate(99_999), Err(PipelineError::Validation));
}

#[test]
fn bitrate_bounds_are_inclusive() {
    assert_eq!(validate_bitrate(Some(MAX_BITRATE)), Ok(100_000_000));
    assert_eq!(validate_bitrate(Some(100_000_001)), Err(PipelineError::Validation));
    assert_eq!(validate_bitrate(Some(MIN_BITRATE)), Ok(100_000));
    assert_eq!(validate_bitrate(Some(99_999)), Err(PipelineError::Validation));
}

#[test]
fn file_scheme_is_stripped() {
    assert_eq!(normalize_path("file:///tmp/in.mp4"), "/tmp/in.mp4");
    assert_eq!(normalize_path("file://"), "");
    assert_eq!(normalize_path("file://café.mkv"), "café.mkv");
}

#[test]
fn other_paths_are_unchanged() {
    assert_eq!(normalize_path("/tmp/in.mp4"), "/tmp/in.mp4");
    assert_eq!(normalize_path("file:/x"), "file:/x");
    assert_eq!(normalize_path(""), "");
    assert_eq!(normalize_path("/a/file:///b"), "/a/file:///b");
}

#[test]
fn request_defaults_bitrate_and_keeps_size() {
    let q = prepare_request("file:///v/in.mov", "/v/out.mp4", 640, 360, None).unwrap();
    assert_eq!(q.input_path, "/v/in.mov");
    assert_eq!(q.output_path, "/v/out.mp4");
    assert_eq!(q.target_width, 640);
    assert_eq!(q.target_height, 360);
    assert_eq!(q.bitrate, 1_000_000);
}

#[test]
fn request_with_bad_bitrate_is_rejected() {
    let r = prepare_request("/in.mp4", "/out.mp4", 640, 360, Some(100_000_001));
    assert!(matches!(r, Err(PipelineError::Validation)));
    let r = prepare_request("/in.mp4", "/out.mp4", 640, 360, Some(100_000_000));
    assert_eq!(r.unwrap().bitrate, 100_000_000);
}
