use capacitor_ffmpeg::error::PipelineError;
use capacitor_ffmpeg::pipeline::{Job, JobStep, PacketRoute, StreamInfo};
use capacitor_ffmpeg::request::prepare_request;
use capacitor_ffmpeg::router::Medium;
use capacitor_ffmpeg::timebase::{PacketTiming, TimeBase};
use capacitor_ffmpeg::transcoder::{FlushAction, Phase, Progress, Transcoder};

fn tb(num: i32, den: i32) -> TimeBase {
    TimeBase { num, den }
}

fn stream(medium: Medium, time_base: TimeBase, frames: i64) -> StreamInfo {
    StreamInfo { medium, time_base, frames }
}

fn timing(pts: i64) -> PacketTiming {
    PacketTiming { pts: Some(pts), dts: Some(pts), duration: 1 }
}

#[test]
fn transcoder_flushes_in_mandatory_order() {
    let mut t = Transcoder::new(0, tb(1, 25), tb(1, 12_800), 10, true);
    assert_eq!(t.phase(), Phase::Decoding);
    assert!(t.accepts_packets());
    assert_eq!(t.flush_step(), Some(FlushAction::SignalDecoderEof));
    assert!(!t.accepts_packets());
    assert!(!t.accepts_frames());
    assert_eq!(t.flush_step(), Some(FlushAction::DrainDecoder));
    assert!(t.accepts_frames());
    assert_eq!(t.flush_step(), Some(FlushAction::SignalEncoderEof));
    assert!(!t.accepts_frames());
    assert_eq!(t.flush_step(), Some(FlushAction::DrainEncoder));
    assert_eq!(t.flush_step(), None);
    assert_eq!(t.phase(), Phase::Done);
    assert_eq!(t.flush_step(), None);
}

#[test]
fn transcoder_counts_frames_and_reports_progress() {
    let mut t = Transcoder::new(3, tb(1, 25), tb(1, 12_800), 4, true);
    assert_eq!(t.on_decoded_frame(), Some(Progress::Fraction { done: 1, total: 4 }));
    assert_eq!(t.on_decoded_frame(), Some(Progress::Fraction { done: 2, total: 4 }));
    assert_eq!(t.decoded_frames(), 2);
    let mut silent = Transcoder::new(4, tb(1, 25), tb(1, 12_800), 4, false);
    assert_eq!(silent.on_decoded_frame(), None);
    assert_eq!(silent.decoded_frames(), 1);
}

#[test]
fn unknown_total_gives_indeterminate_progress() {
    let mut t = Transcoder::new(0, tb(1, 25), tb(1, 25), 0, true);
    assert_eq!(t.on_decoded_frame(), Some(Progress::Indeterminate { done: 1 }));
}

#[test]
fn encoded_packets_go_to_output_stream_in_its_time_base() {
    let t = Transcoder::new(2, tb(1, 25), tb(1, 12_800), 0, false);
    let (out, r) = t.route_encoded(PacketTiming { pts: Some(3), dts: Some(2), duration: 1 });
    assert_eq!(out, 2);
    assert_eq!(r, PacketTiming { pts: Some(1_536), dts: Some(1_024), duration: 512 });
}

#[test]
fn job_needs_one_time_base_per_output_stream() {
    let streams = vec![stream(Medium::Video, tb(1, 25), 10), stream(Medium::Other, tb(1, 1), 0)];
    assert!(matches!(Job::new(&streams, Some(0), vec![]), Err(PipelineError::StreamSetup)));
    assert!(matches!(
        Job::new(&streams, Some(0), vec![tb(1, 1), tb(1, 1)]),
        Err(PipelineError::StreamSetup)
    ));
    assert!(Job::new(&streams, Some(0), vec![tb(1, 12_800)]).is_ok());
}

#[test]
fn job_routes_packets() {
    let streams = vec![
        stream(Medium::Video, tb(1, 25), 10),
        stream(Medium::Other, tb(1, 1), 0),
        stream(Medium::Audio, tb(1, 48_000), 0),
    ];
    let job = Job::new(&streams, None, vec![tb(1, 12_800), tb(1, 44_100)]).unwrap();
    assert_eq!(job.output_count(), 2);
    assert_eq!(job.stream_mapping(), vec![Some(0), None, Some(1)]);
    assert_eq!(job.route_packet(0, timing(5)), Ok(PacketRoute::Decode));
    assert_eq!(job.route_packet(1, timing(5)), Ok(PacketRoute::Skip));
    assert_eq!(job.route_packet(7, timing(5)), Ok(PacketRoute::Skip));
    assert_eq!(
        job.route_packet(2, timing(48_000)),
        Ok(PacketRoute::Copy {
            output: 1,
            timing: PacketTiming { pts: Some(44_100), dts: Some(44_100), duration: 1 }
        })
    );
    assert_eq!(job.on_encoded_packet(0, timing(1)), Ok((0, PacketTiming { pts: Some(512), dts: Some(512), duration: 512 })));
    assert_eq!(job.on_encoded_packet(2, timing(1)), Err(PipelineError::Encode));
}

#[test]
fn job_flushes_every_transcoder_then_writes_trailer() {
    let streams = vec![
        stream(Medium::Video, tb(1, 25), 10),
        stream(Medium::Audio, tb(1, 48_000), 0),
        stream(Medium::Video, tb(1, 30), 10),
    ];
    let mut job = Job::new(&streams, Some(0), vec![tb(1, 1), tb(1, 1), tb(1, 1)]).unwrap();
    let order = [
        FlushAction::SignalDecoderEof,
        FlushAction::DrainDecoder,
        FlushAction::SignalEncoderEof,
        FlushAction::DrainEncoder,
    ];
    for s in [0usize, 2] {
        for a in order {
            assert_eq!(job.flush_step(), JobStep::Flush { stream: s, action: a });
        }
    }
    assert_eq!(job.flush_step(), JobStep::WriteTrailer);
    assert_eq!(job.flush_step(), JobStep::Finished);
    assert_eq!(job.flush_step(), JobStep::Finished);
}

#[test]
fn job_rejects_work_out_of_sequence() {
    let streams = vec![stream(Medium::Video, tb(1, 25), 10), stream(Medium::Audio, tb(1, 48_000), 0)];
    let mut job = Job::new(&streams, None, vec![tb(1, 25), tb(1, 48_000)]).unwrap();
    assert_eq!(job.on_decoded_frame(1), Err(PipelineError::Decode));
    assert_eq!(job.on_decoded_frame(5), Err(PipelineError::Decode));
    assert_eq!(job.flush_step(), JobStep::Flush { stream: 0, action: FlushAction::SignalDecoderEof });
    assert_eq!(job.route_packet(0, timing(1)), Err(PipelineError::Decode));
    assert_eq!(job.on_decoded_frame(0), Err(PipelineError::Decode));
    assert_eq!(job.flush_step(), JobStep::Flush { stream: 0, action: FlushAction::DrainDecoder });
    assert_eq!(job.on_decoded_frame(0), Ok(Some(Progress::Fraction { done: 1, total: 10 })));
    assert_eq!(job.flush_step(), JobStep::Flush { stream: 0, action: FlushAction::SignalEncoderEof });
    assert_eq!(job.on_decoded_frame(0), Err(PipelineError::Decode));
    assert_eq!(job.decoded_frames(0), Some(1));
    assert_eq!(job.decoded_frames(1), None);
}

#[test]
fn ten_second_full_hd_job_counts_every_frame() {
    let q = prepare_request("file:///in.mp4", "/out.mp4", 640, 360, None).unwrap();
    assert_eq!((q.target_width, q.target_height, q.bitrate), (640, 360, 1_000_000));
    // 10 s at 25 frames per second.
    let streams = vec![stream(Medium::Video, tb(1, 12_800), 250), stream(Medium::Audio, tb(1, 48_000), 0)];
    let mut job = Job::new(&streams, Some(0), vec![tb(1, 12_800), tb(1, 48_000)]).unwrap();
    let mut last = None;
    for i in 0..240i64 {
        assert_eq!(job.route_packet(0, timing(i * 512)), Ok(PacketRoute::Decode));
        last = job.on_decoded_frame(0).unwrap();
    }
    assert_eq!(job.flush_step(), JobStep::Flush { stream: 0, action: FlushAction::SignalDecoderEof });
    assert_eq!(job.flush_step(), JobStep::Flush { stream: 0, action: FlushAction::DrainDecoder });
    for _ in 0..10 {
        last = job.on_decoded_frame(0).unwrap();
    }
    assert_eq!(job.decoded_frames(0), Some(250));
    assert_eq!(last, Some(Progress::Fraction { done: 250, total: 250 }));
}

#[test]
fn only_preferred_video_stream_reports_progress() {
    let streams = vec![stream(Medium::Video, tb(1, 25), 100), stream(Medium::Video, tb(1, 25), 50)];
    let mut job = Job::new(&streams, Some(1), vec![tb(1, 25), tb(1, 25)]).unwrap();
    for _ in 0..5 {
        assert_eq!(job.on_decoded_frame(0), Ok(None));
    }
    assert_eq!(job.on_decoded_frame(1), Ok(Some(Progress::Fraction { done: 1, total: 50 })));
    assert_eq!(job.decoded_frames(0), Some(5));
}
