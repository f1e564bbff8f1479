use vstd::prelude::*;

use crate::timebase::{rescale_timing, rescaled_timing, PacketTiming, TimeBase};

verus! {

/// Where a transcoder stands in its life.
#[derive(Debug, Clone, Copy, PartialEq, Eq, Structural)]
pub enum Phase {
    /// Packets are fed to the decoder; decoded frames go to the encoder.
    Decoding,
    /// End of input was signalled to the decoder.
    DecoderEofSent,
    /// The frames left in the decoder are being drained.
    DrainingDecoder,
    /// The decoder is empty and end of input was signalled to the encoder.
    EncoderEofSent,
    /// The packets left in the encoder are being drained.
    DrainingEncoder,
    /// Both codecs are empty.
    Done,
}

/// One step of the end-of-stream flush, in the order in which it is taken.
#[derive(Debug, Clone, Copy, PartialEq, Eq, Structural)]
pub enum FlushAction {
    SignalDecoderEof,
    DrainDecoder,
    SignalEncoderEof,
    DrainEncoder,
}

/// How far a transcoder has come: `done` frames out of `total`, or only the
/// count where the total is unknown (zero or negative).
#[derive(Debug, Clone, Copy, PartialEq, Eq, Structural)]
pub enum Progress {
    Fraction { done: u64, total: u64 },
    Indeterminate { done: u64 },
}

/// The progress that `done` decoded frames out of an estimate `total` stand for.
pub open spec fn progress_of(done: u64, total: i64) -> Progress {
    if total > 0 {
        Progress::Fraction { done, total: total as u64 }
    } else {
        Progress::Indeterminate { done }
    }
}

/// The flush steps in their mandatory order.
pub open spec fn flush_sequence() -> Seq<FlushAction> {
    seq![
        FlushAction::SignalDecoderEof,
        FlushAction::DrainDecoder,
        FlushAction::SignalEncoderEof,
        FlushAction::DrainEncoder,
    ]
}

/// How many flush steps have been handed out in a phase.
pub open spec fn flush_steps_taken(p: Phase) -> nat {
    match p {
        Phase::Decoding => 0,
        Phase::DecoderEofSent => 1,
        Phase::DrainingDecoder => 2,
        Phase::EncoderEofSent => 3,
        Phase::DrainingEncoder => 4,
        Phase::Done => 4,
    }
}

/// What a transcoder is, to a reader of its contracts.
pub ghost struct TranscoderView {
    pub output_index: usize,
    pub input_time_base: TimeBase,
    pub output_time_base: TimeBase,
    pub decoded_frames: u64,
    pub total_frames: i64,
    pub reports_progress: bool,
    pub phase: Phase,
    /// The flush steps handed out so far, oldest first.
    pub flushes: Seq<FlushAction>,
}

impl TranscoderView {
    /// The flush steps handed out are a prefix of the mandatory order, as
    /// long as the phase says.
    pub open spec fn wf(self) -> bool {
        self.flushes == flush_sequence().take(flush_steps_taken(self.phase) as int)
    }

    pub open spec fn accepts_packets(self) -> bool {
        self.phase == Phase::Decoding
    }

    /// Frames come out of the decoder while packets are fed and while it is
    /// drained.
    pub open spec fn accepts_frames(self) -> bool {
        self.phase == Phase::Decoding || self.phase == Phase::DrainingDecoder
    }

    /// The phase that follows the hand-out of the next flush step.
    pub open spec fn next_phase(self) -> Phase {
        match self.phase {
            Phase::Decoding => Phase::DecoderEofSent,
            Phase::DecoderEofSent => Phase::DrainingDecoder,
            Phase::DrainingDecoder => Phase::EncoderEofSent,
            Phase::EncoderEofSent => Phase::DrainingEncoder,
            _ => Phase::Done,
        }
    }
}

/// Per-stream decode/encode bookkeeping: the output stream, both time bases,
/// the frame count and estimate, whether this stream reports progress, and
/// where the end-of-stream flush stands.
pub struct Transcoder {
    output_index: usize,
    input_time_base: TimeBase,
    output_time_base: TimeBase,
    decoded_frames: u64,
    total_frames: i64,
    reports_progress: bool,
    phase: Phase,
    flushes: Ghost<Seq<FlushAction>>,
}

impl View for Transcoder {
    type V = TranscoderView;

    closed spec fn view(&self) -> TranscoderView {
        TranscoderView {
            output_index: self.output_index,
            input_time_base: self.input_time_base,
            output_time_base: self.output_time_base,
            decoded_frames: self.decoded_frames,
            total_frames: self.total_frames,
            reports_progress: self.reports_progress,
            phase: self.phase,
            flushes: self.flushes@,
        }
    }
}

impl Transcoder {
    /// A transcoder for one video stream, before any packet.
    pub fn new(
        output_index: usize,
        input_time_base: TimeBase,
        output_time_base: TimeBase,
        total_frames: i64,
        reports_progress: bool,
    ) -> (t: Transcoder)
        ensures
            t@ == (TranscoderView {
                output_index,
                input_time_base,
                output_time_base,
                decoded_frames: 0,
                total_frames,
                reports_progress,
                phase: Phase::Decoding,
                flushes: Seq::empty(),
            }),
            t@.wf(),
    {
        let t = Transcoder {
            output_index,
            input_time_base,
            output_time_base,
            decoded_frames: 0,
            total_frames,
            reports_progress,
            phase: Phase::Decoding,
            flushes: Ghost(Seq::empty()),
        };
        proof {
            assert(flush_sequence().take(0) =~= Seq::<FlushAction>::empty());
        }
        t
    }

    pub fn output_index(&self) -> (r: usize)
        ensures
            r == self@.output_index,
    {
        self.output_index
    }

    pub fn decoded_frames(&self) -> (r: u64)
        ensures
            r == self@.decoded_frames,
    {
        self.decoded_frames
    }

    pub fn total_frames(&self) -> (r: i64)
        ensures
            r == self@.total_frames,
    {
        self.total_frames
    }

    pub fn reports_progress(&self) -> (r: bool)
        ensures
            r == self@.reports_progress,
    {
        self.reports_progress
    }

    pub fn phase(&self) -> (r: Phase)
        ensures
            r == self@.phase,
    {
        self.phase
    }

    pub fn accepts_packets(&self) -> (r: bool)
        ensures
            r == self@.accepts_packets(),
    {
        self.phase == Phase::Decoding
    }

    pub fn accepts_frames(&self) -> (r: bool)
        ensures
            r == self@.accepts_frames(),
    {
        self.phase == Phase::Decoding || self.phase == Phase::DrainingDecoder
    }

    /// Counts one frame that came out of the decoder, and returns the
    /// progress to report where this stream reports progress.
    pub fn on_decoded_frame(&mut self) -> (r: Option<Progress>)
        requires
            old(self)@.accepts_frames(),
            old(self)@.decoded_frames < u64::MAX,
        ensures
            final(self)@ == (TranscoderView {
                decoded_frames: (old(self)@.decoded_frames + 1) as u64,
                ..old(self)@
            }),
            old(self)@.reports_progress ==> r == Some(
                progress_of(final(self)@.decoded_frames, old(self)@.total_frames),
            ),
            !old(self)@.reports_progress ==> r is None,
    {
        self.decoded_frames = self.decoded_frames + 1;
        if self.reports_progress {
            if self.total_frames > 0 {
                Some(Progress::Fraction { done: self.decoded_frames, total: self.total_frames as u64 })
            } else {
                Some(Progress::Indeterminate { done: self.decoded_frames })
            }
        } else {
            None
        }
    }

    /// Where a packet that came out of the encoder goes: its output stream,
    /// and its timing moved from the input time base to the output one.
    pub fn route_encoded(&self, timing: PacketTiming) -> (r: (usize, PacketTiming))
        ensures
            r.0 == self@.output_index,
            r.1 == rescaled_timing(timing, self@.input_time_base, self@.output_time_base),
    {
        (self.output_index, rescale_timing(timing, self.input_time_base, self.output_time_base))
    }

    /// Hands out the next end-of-stream flush step, in the mandatory order:
    /// decoder EOF, decoder drain, encoder EOF, encoder drain. Asking for the
    /// next step says that the previous one is complete. `None` once all
    /// four were handed out.
    pub fn flush_step(&mut self) -> (r: Option<FlushAction>)
        requires
            old(self)@.wf(),
        ensures
            final(self)@.wf(),
            final(self)@ == (TranscoderView {
                phase: old(self)@.next_phase(),
                flushes: final(self)@.flushes,
                ..old(self)@
            }),
            flush_steps_taken(old(self)@.phase) < 4 ==> r == Some(
                flush_sequence()[flush_steps_taken(old(self)@.phase) as int],
            ) && final(self)@.flushes == old(self)@.flushes.push(r->0),
            flush_steps_taken(old(self)@.phase) == 4 ==> r is None && final(self)@.flushes
                == old(self)@.flushes,
    {
        let (next, action) = match self.phase {
            Phase::Decoding => (Phase::DecoderEofSent, Some(FlushAction::SignalDecoderEof)),
            Phase::DecoderEofSent => (Phase::DrainingDecoder, Some(FlushAction::DrainDecoder)),
            Phase::DrainingDecoder => (Phase::EncoderEofSent, Some(FlushAction::SignalEncoderEof)),
            Phase::EncoderEofSent => (Phase::DrainingEncoder, Some(FlushAction::DrainEncoder)),
            _ => (Phase::Done, None),
        };
        let ghost old_phase = self.phase;
        self.phase = next;
        if let Some(a) = action {
            self.flushes = Ghost(self.flushes@.push(a));
        }
        proof {
            let k = flush_steps_taken(old_phase) as int;
            if k < 4 {
                assert(self.flushes@ =~= flush_sequence().take(k + 1));
            }
        }
        action
    }
}

/// In a record of flush steps, the encoder's end-of-input signal only ever
/// comes third: after the decoder's end-of-input signal and the complete
/// drain of the decoder.
pub open spec fn drained_before_encoder_eof(flushes: Seq<FlushAction>) -> bool {
    forall|j: int|
        0 <= j < flushes.len() && #[trigger] flushes[j] == FlushAction::SignalEncoderEof ==> j == 2
            && flushes[0] == FlushAction::SignalDecoderEof && flushes[1]
            == FlushAction::DrainDecoder
}

/// Every transcoder signals the encoder's end of input only after the
/// decoder's end of input was signalled and its drain completed, and accepts
/// no decoded frame afterwards.
pub proof fn lemma_decoder_drained_before_encoder_eof(t: TranscoderView)
    requires
        t.wf(),
    ensures
        drained_before_encoder_eof(t.flushes),
        t.flushes.contains(FlushAction::SignalEncoderEof) ==> !t.accepts_frames(),
{
    if t.flushes.contains(FlushAction::SignalEncoderEof) {
        let j = choose|j: int| 0 <= j < t.flushes.len() && t.flushes[j] == FlushAction::SignalEncoderEof;
        assert(t.flushes[j] == flush_sequence()[j]);
    }
}

/// A transcoder that has been handed all four flush steps has been handed
/// them in their mandatory order.
pub proof fn lemma_complete_flush(t: TranscoderView)
    requires
        t.wf(),
        flush_steps_taken(t.phase) == 4,
    ensures
        t.flushes == flush_sequence(),
{
    assert(flush_sequence().take(4) =~= flush_sequence());
}

} // verus!
