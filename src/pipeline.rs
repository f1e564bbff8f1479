use vstd::prelude::*;

use crate::error::PipelineError;
use crate::router::{carried_before, lemma_carried_before_bounds, lemma_mapping_dense_and_monotone, role_of, route_streams, stream_mapping, Medium, StreamRole};
use crate::timebase::{rescale_timing, rescaled_timing, PacketTiming, TimeBase};
use crate::transcoder::{
    flush_sequence, flush_steps_taken, drained_before_encoder_eof, lemma_complete_flush, lemma_decoder_drained_before_encoder_eof, progress_of,
    FlushAction, Phase, Progress, Transcoder, TranscoderView,
};

verus! {

/// What the pipeline needs to know of one input stream.
#[derive(Debug, Clone, Copy, PartialEq, Eq, Structural)]
pub struct StreamInfo {
    pub medium: Medium,
    pub time_base: TimeBase,
    /// The container's estimate of the stream's frame count; zero when unknown.
    pub frames: i64,
}

/// What to do with one input packet.
#[derive(Debug, Clone, Copy, PartialEq, Eq, Structural)]
pub enum PacketRoute {
    /// Drop it.
    Skip,
    /// Write it, unchanged but for its timing and stream, to output `output`.
    Copy { output: usize, timing: PacketTiming },
    /// Feed it to the stream's decoder.
    Decode,
}

/// The next thing to do once the input is exhausted.
#[derive(Debug, Clone, Copy, PartialEq, Eq, Structural)]
pub enum JobStep {
    /// Take flush step `action` on the transcoder of input stream `stream`.
    Flush { stream: usize, action: FlushAction },
    /// Write the output trailer.
    WriteTrailer,
    /// Nothing is left to do.
    Finished,
}

pub open spec fn media_of(streams: Seq<StreamInfo>) -> Seq<Medium> {
    Seq::new(streams.len(), |i: int| streams[i].medium)
}

/// The transcoder that stream `i` starts with, if it is transcoded.
pub open spec fn initial_transcoder(
    streams: Seq<StreamInfo>,
    best: Option<usize>,
    outputs: Seq<TimeBase>,
    i: int,
) -> Option<TranscoderView> {
    match role_of(media_of(streams), best, i) {
        StreamRole::Transcode { output, reports_progress } => Some(
            TranscoderView {
                output_index: output,
                input_time_base: streams[i].time_base,
                output_time_base: outputs[output as int],
                decoded_frames: 0,
                total_frames: streams[i].frames,
                reports_progress,
                phase: Phase::Decoding,
                flushes: Seq::empty(),
            },
        ),
        _ => None,
    }
}

/// What a job is, to a reader of its contracts.
pub ghost struct JobView {
    pub roles: Seq<StreamRole>,
    pub input_time_bases: Seq<TimeBase>,
    pub output_time_bases: Seq<TimeBase>,
    pub transcoders: Seq<Option<TranscoderView>>,
    /// Streams before the cursor are completely flushed.
    pub cursor: nat,
    pub trailer_written: bool,
}

/// The first stream at `i` or later whose transcoder has flush steps left.
pub open spec fn first_pending(ts: Seq<Option<TranscoderView>>, i: int) -> Option<int>
    decreases ts.len() - i,
{
    if i < 0 || i >= ts.len() {
        None
    } else if ts[i] matches Some(t) && flush_steps_taken(t.phase) < 4 {
        Some(i)
    } else {
        first_pending(ts, i + 1)
    }
}

impl JobView {
    pub open spec fn stream_wf(self, i: int) -> bool {
        match self.roles[i] {
            StreamRole::Skip => self.transcoders[i] is None,
            StreamRole::Copy { output } => self.transcoders[i] is None && output
                < self.output_time_bases.len(),
            StreamRole::Transcode { output, reports_progress } => {
                &&& self.transcoders[i] matches Some(t)
                &&& output < self.output_time_bases.len()
                &&& t.wf()
                &&& t.output_index == output
                &&& t.reports_progress == reports_progress
                &&& t.input_time_base == self.input_time_bases[i]
                &&& t.output_time_base == self.output_time_bases[output as int]
            },
        }
    }

    pub open spec fn wf(self) -> bool {
        &&& self.roles.len() == self.input_time_bases.len()
        &&& self.roles.len() == self.transcoders.len()
        &&& self.cursor <= self.roles.len()
        &&& forall|i: int| 0 <= i < self.roles.len() ==> #[trigger] self.stream_wf(i)
        &&& forall|i: int|
            0 <= i < self.cursor ==> (#[trigger] self.transcoders[i] matches Some(t)
                ==> flush_steps_taken(t.phase) == 4)
        &&& self.trailer_written ==> self.cursor == self.roles.len()
    }

    /// What a packet of input stream `stream` becomes.
    pub open spec fn packet_route(self, stream: int, timing: PacketTiming) -> Result<
        PacketRoute,
        PipelineError,
    > {
        if stream < 0 || stream >= self.roles.len() {
            Ok(PacketRoute::Skip)
        } else {
            match self.roles[stream] {
                StreamRole::Skip => Ok(PacketRoute::Skip),
                StreamRole::Copy { output } => Ok(
                    PacketRoute::Copy {
                        output,
                        timing: rescaled_timing(
                            timing,
                            self.input_time_bases[stream],
                            self.output_time_bases[output as int],
                        ),
                    },
                ),
                StreamRole::Transcode { .. } => if self.transcoders[stream]->0.accepts_packets() {
                    Ok(PacketRoute::Decode)
                } else {
                    Err(PipelineError::Decode)
                },
            }
        }
    }

    /// Whether stream `stream` can account for one more decoded frame.
    pub open spec fn frame_accepted(self, stream: int) -> bool {
        &&& 0 <= stream < self.roles.len()
        &&& self.transcoders[stream] matches Some(t)
        &&& t.accepts_frames()
        &&& t.decoded_frames < u64::MAX
    }

    /// The step that the flush takes next.
    pub open spec fn next_step(self) -> JobStep {
        match first_pending(self.transcoders, self.cursor as int) {
            Some(k) => JobStep::Flush {
                stream: k as usize,
                action: flush_sequence()[flush_steps_taken(
                    self.transcoders[k]->0.phase,
                ) as int],
            },
            None => if self.trailer_written {
                JobStep::Finished
            } else {
                JobStep::WriteTrailer
            },
        }
    }
}

/// One re-encoding job: the role of every input stream, the time bases on
/// both sides, one transcoder per video stream, and how far the final flush
/// has come.
pub struct Job {
    roles: Vec<StreamRole>,
    input_time_bases: Vec<TimeBase>,
    output_time_bases: Vec<TimeBase>,
    transcoders: Vec<Option<Transcoder>>,
    cursor: usize,
    trailer_written: bool,
}

pub open spec fn option_view(t: Option<Transcoder>) -> Option<TranscoderView> {
    match t {
        Some(t) => Some(t@),
        None => None,
    }
}

impl View for Job {
    type V = JobView;

    closed spec fn view(&self) -> JobView {
        JobView {
            roles: self.roles@,
            input_time_bases: self.input_time_bases@,
            output_time_bases: self.output_time_bases@,
            transcoders: self.transcoders@.map_values(|t: Option<Transcoder>| option_view(t)),
            cursor: self.cursor as nat,
            trailer_written: self.trailer_written,
        }
    }
}

impl Job {
    /// Sets up a job over the input streams, once the output streams exist:
    /// `output_time_bases` holds the time base of each output stream. Fails
    /// with a stream setup error where their number is not the number of
    /// carried input streams.
    pub fn new(streams: &Vec<StreamInfo>, best: Option<usize>, output_time_bases: Vec<TimeBase>) -> (r:
        Result<Job, PipelineError>)
        ensures
            r is Ok <==> output_time_bases@.len() == carried_before(
                media_of(streams@),
                streams@.len() as int,
            ),
            r is Err ==> r == Err::<Job, PipelineError>(PipelineError::StreamSetup),
            r matches Ok(j) ==> {
                &&& j@.wf()
                &&& j@.roles.len() == streams@.len()
                &&& j@.output_time_bases == output_time_bases@
                &&& j@.cursor == 0
                &&& !j@.trailer_written
                &&& forall|i: int|
                    0 <= i < streams@.len() ==> {
                        &&& #[trigger] j@.roles[i] == role_of(media_of(streams@), best, i)
                        &&& j@.input_time_bases[i] == streams@[i].time_base
                        &&& j@.transcoders[i] == initial_transcoder(
                            streams@,
                            best,
                            output_time_bases@,
                            i,
                        )
                    }
            },
    {
        let ghost sm = media_of(streams@);
        let mut media: Vec<Medium> = Vec::new();
        let mut carried: usize = 0;
        let mut i: usize = 0;
        while i < streams.len()
            invariant
                0 <= i <= streams@.len(),
                media@ == sm.take(i as int),
                sm == media_of(streams@),
                carried as nat == carried_before(sm, i as int),
            decreases streams@.len() - i,
        {
            proof {
                lemma_carried_before_bounds(sm, i as int);
            }
            let m = streams[i].medium;
            media.push(m);
            if m != Medium::Other {
                carried += 1;
            }
            i += 1;
            proof {
                assert(media@ =~= sm.take(i as int));
            }
        }
        proof {
            assert(media@ =~= sm);
        }
        if output_time_bases.len() != carried {
            return Err(PipelineError::StreamSetup);
        }
        let roles = route_streams(&media, best);
        proof {
            lemma_mapping_dense_and_monotone(sm, best);
        }
        let mut input_time_bases: Vec<TimeBase> = Vec::new();
        let mut transcoders: Vec<Option<Transcoder>> = Vec::new();
        let mut i: usize = 0;
        while i < streams.len()
            invariant
                0 <= i <= streams@.len(),
                sm == media_of(streams@),
                roles@.len() == streams@.len(),
                output_time_bases@.len() == carried_before(sm, streams@.len() as int),
                forall|k: int| 0 <= k < streams@.len() ==> roles@[k] == role_of(sm, best, k),
                forall|k: int|
                    0 <= k < streams@.len() && crate::router::is_carried(sm[k]) ==> 0
                        <= crate::router::output_of(#[trigger] role_of(sm, best, k))->0
                        < carried_before(sm, sm.len() as int),
                input_time_bases@.len() == i,
                transcoders@.len() == i,
                forall|k: int| 0 <= k < i ==> input_time_bases@[k] == streams@[k].time_base,
                forall|k: int|
                    0 <= k < i ==> option_view(#[trigger] transcoders@[k]) == initial_transcoder(
                        streams@,
                        best,
                        output_time_bases@,
                        k,
                    ),
            decreases streams@.len() - i,
        {
            let info = streams[i];
            let ghost r = role_of(sm, best, i as int);
            let t = match roles[i] {
                StreamRole::Transcode { output, reports_progress } => {
                    assert(crate::router::output_of(r)->0 == output);
                    Some(
                        Transcoder::new(
                            output,
                            info.time_base,
                            output_time_bases[output],
                            info.frames,
                            reports_progress,
                        ),
                    )
                },
                _ => None,
            };
            input_time_bases.push(info.time_base);
            transcoders.push(t);
            i += 1;
        }
        let job = Job {
            roles,
            input_time_bases,
            output_time_bases,
            transcoders,
            cursor: 0,
            trailer_written: false,
        };
        proof {
            assert forall|i: int| 0 <= i < job@.roles.len() implies #[trigger] job@.stream_wf(i) by {
                assert(job@.transcoders[i] == option_view(job.transcoders@[i]));
                assert(crate::router::is_carried(sm[i]) ==> crate::router::output_of(
                    role_of(sm, best, i),
                )->0 < carried_before(sm, sm.len() as int));
                assert(flush_sequence().take(0) =~= Seq::<FlushAction>::empty());
            }
            assert forall|i: int| 0 <= i < streams@.len() implies job@.transcoders[i]
                == initial_transcoder(streams@, best, output_time_bases@, i) by {
                assert(job@.transcoders[i] == option_view(job.transcoders@[i]));
            }
        }
        Ok(job)
    }

    proof fn lemma_view_at(&self, i: int)
        requires
            0 <= i < self.transcoders@.len(),
        ensures
            self@.transcoders[i] == option_view(self.transcoders@[i]),
            self@.transcoders.len() == self.transcoders@.len(),
    {
    }

    /// Decides what becomes of a packet of input stream `stream`: skipped,
    /// copied with its timing rescaled, or fed to the stream's decoder. A
    /// packet for a transcoder that is already flushing is a decode error.
    pub fn route_packet(&self, stream: usize, timing: PacketTiming) -> (r: Result<
        PacketRoute,
        PipelineError,
    >)
        requires
            self@.wf(),
        ensures
            r == self@.packet_route(stream as int, timing),
    {
        if stream >= self.roles.len() {
            return Ok(PacketRoute::Skip);
        }
        proof {
            self.lemma_view_at(stream as int);
            assert(self@.stream_wf(stream as int));
        }
        match self.roles[stream] {
            StreamRole::Skip => Ok(PacketRoute::Skip),
            StreamRole::Copy { output } => Ok(
                PacketRoute::Copy {
                    output,
                    timing: rescale_timing(
                        timing,
                        self.input_time_bases[stream],
                        self.output_time_bases[output],
                    ),
                },
            ),
            StreamRole::Transcode { .. } => match &self.transcoders[stream] {
                Some(t) => if t.accepts_packets() {
                    Ok(PacketRoute::Decode)
                } else {
                    Err(PipelineError::Decode)
                },
                None => Err(PipelineError::Decode),
            },
        }
    }

    /// Accounts for one frame that the decoder of `stream` produced, and
    /// returns the progress to report where that stream reports progress.
    /// A decode error where the stream has no transcoder, its decoder yields
    /// no frames in its phase, or the frame count is exhausted.
    pub fn on_decoded_frame(&mut self, stream: usize) -> (r: Result<Option<Progress>, PipelineError>)
        requires
            old(self)@.wf(),
        ensures
            final(self)@.wf(),
            r is Ok <==> old(self)@.frame_accepted(stream as int),
            r is Err ==> r == Err::<Option<Progress>, PipelineError>(PipelineError::Decode)
                && final(self)@ == old(self)@,
            r matches Ok(p) ==> {
                let t = old(self)@.transcoders[stream as int]->0;
                let nt = TranscoderView { decoded_frames: (t.decoded_frames + 1) as u64, ..t };
                &&& final(self)@ == (JobView {
                    transcoders: old(self)@.transcoders.update(stream as int, Some(nt)),
                    ..old(self)@
                })
                &&& t.reports_progress ==> p == Some(progress_of(nt.decoded_frames, t.total_frames))
                &&& !t.reports_progress ==> p is None
            },
    {
        if stream >= self.transcoders.len() {
            return Err(PipelineError::Decode);
        }
        proof {
            self.lemma_view_at(stream as int);
        }
        let accepted = match &self.transcoders[stream] {
            Some(t) => t.accepts_frames() && t.decoded_frames() < u64::MAX,
            None => false,
        };
        if !accepted {
            return Err(PipelineError::Decode);
        }
        let ghost old_view = self@;
        let ghost old_vec = self.transcoders@;
        let p = match &mut self.transcoders[stream] {
            Some(t) => t.on_decoded_frame(),
            None => None,
        };
        proof {
            let nt = TranscoderView {
                decoded_frames: (old_view.transcoders[stream as int]->0.decoded_frames + 1) as u64,
                ..old_view.transcoders[stream as int]->0
            };
            assert(self@.transcoders =~= old_view.transcoders.update(stream as int, Some(nt))) by {
                assert forall|k: int| 0 <= k < self.transcoders@.len() implies self@.transcoders[k]
                    == old_view.transcoders.update(stream as int, Some(nt))[k] by {
                    if k != stream as int {
                        assert(self.transcoders@[k] == old_vec[k]);
                    }
                }
            }
            assert forall|i: int| 0 <= i < self@.roles.len() implies #[trigger] self@.stream_wf(i) by {
                assert(old_view.stream_wf(i));
            }
            assert forall|i: int| 0 <= i < self@.cursor implies (#[trigger] self@.transcoders[i] matches Some(
                t,
            ) ==> flush_steps_taken(t.phase) == 4) by {
                assert(old_view.transcoders[i] matches Some(t) ==> flush_steps_taken(t.phase) == 4);
            }
        }
        Ok(p)
    }

    /// Where a packet that the encoder of `stream` produced goes: its output
    /// stream and its timing in that stream's time base. An encode error
    /// where the stream has no transcoder.
    pub fn on_encoded_packet(&self, stream: usize, timing: PacketTiming) -> (r: Result<
        (usize, PacketTiming),
        PipelineError,
    >)
        requires
            self@.wf(),
        ensures
            r is Ok <==> stream < self@.roles.len() && self@.transcoders[stream as int] is Some,
            r is Err ==> r == Err::<(usize, PacketTiming), PipelineError>(PipelineError::Encode),
            r matches Ok(o) ==> {
                let t = self@.transcoders[stream as int]->0;
                &&& o.0 == t.output_index
                &&& o.1 == rescaled_timing(timing, t.input_time_base, t.output_time_base)
            },
    {
        if stream >= self.transcoders.len() {
            return Err(PipelineError::Encode);
        }
        proof {
            self.lemma_view_at(stream as int);
        }
        match &self.transcoders[stream] {
            Some(t) => Ok(t.route_encoded(timing)),
            None => Err(PipelineError::Encode),
        }
    }
    /// Hands out the next step of the final flush. Transcoders are flushed
    /// one after the other in input order, each through its four steps in
    /// their mandatory order; asking for the next step says that the previous
    /// one is complete. Then the trailer is written once, and the job is
    /// finished.
    pub fn flush_step(&mut self) -> (r: JobStep)
        requires
            old(self)@.wf(),
        ensures
            final(self)@.wf(),
            r == old(self)@.next_step(),
            final(self)@.roles == old(self)@.roles,
            final(self)@.input_time_bases == old(self)@.input_time_bases,
            final(self)@.output_time_bases == old(self)@.output_time_bases,
            r matches JobStep::Flush { stream, action } ==> {
                let t = old(self)@.transcoders[stream as int]->0;
                &&& final(self)@.transcoders == old(self)@.transcoders.update(
                    stream as int,
                    Some(
                        TranscoderView {
                            phase: t.next_phase(),
                            flushes: t.flushes.push(action),
                            ..t
                        },
                    ),
                )
                &&& final(self)@.trailer_written == old(self)@.trailer_written
                &&& forall|i: int|
                    0 <= i < stream ==> (#[trigger] final(self)@.transcoders[i] matches Some(u)
                        ==> flush_steps_taken(u.phase) == 4)
            },
            r is WriteTrailer ==> final(self)@.transcoders == old(self)@.transcoders
                && final(self)@.trailer_written,
            r is Finished ==> final(self)@ == old(self)@,
    {
        let ghost old_view = self@;
        while self.cursor < self.transcoders.len()
            invariant
                self@.wf(),
                old_view == old(self)@,
                self@ == (JobView { cursor: self@.cursor, ..old_view }),
                first_pending(old_view.transcoders, old_view.cursor as int) == first_pending(
                    self@.transcoders,
                    self@.cursor as int,
                ),
            decreases self.transcoders@.len() - self.cursor,
        {
            let c = self.cursor;
            let ghost pre = self@;
            proof {
                self.lemma_view_at(c as int);
            }
            let pending = match &self.transcoders[c] {
                Some(t) => {
                    let p = t.phase();
                    p != Phase::DrainingEncoder && p != Phase::Done
                },
                None => false,
            };
            if pending {
                proof {
                    assert(self@.stream_wf(c as int));
                }
                let ghost old_vec = self.transcoders@;
                let action = match &mut self.transcoders[c] {
                    Some(t) => t.flush_step(),
                    None => None,
                };
                proof {
                    assert(self.roles@ == pre.roles);
                    assert(self.cursor == c);
                    assert(self@.roles == pre.roles);
                    let t = old_view.transcoders[c as int]->0;
                    let nt = TranscoderView {
                        phase: t.next_phase(),
                        flushes: t.flushes.push(action->0),
                        ..t
                    };
                    assert(self@.transcoders =~= old_view.transcoders.update(c as int, Some(nt))) by {
                        assert forall|k: int| 0 <= k < self.transcoders@.len() implies self@.transcoders[k]
                            == old_view.transcoders.update(c as int, Some(nt))[k] by {
                            if k != c as int {
                                assert(self.transcoders@[k] == old_vec[k]);
                            }
                        }
                    }
                    assert forall|i: int| 0 <= i < self@.roles.len() implies #[trigger] self@.stream_wf(i) by {
                        assert(pre.stream_wf(i));
                    }
                    assert forall|i: int| 0 <= i < self@.cursor implies (#[trigger] self@.transcoders[i] matches Some(
                        u,
                    ) ==> flush_steps_taken(u.phase) == 4) by {
                        assert(pre.transcoders[i] matches Some(u) ==> flush_steps_taken(u.phase) == 4);
                    }
                }
                return match action {
                    Some(a) => JobStep::Flush { stream: c, action: a },
                    None => JobStep::Finished,
                };
            }
            proof {
                assert(self@.stream_wf(c as int));
                assert(first_pending(self@.transcoders, c as int) == first_pending(
                    self@.transcoders,
                    c + 1,
                ));
            }
            self.cursor = c + 1;
            proof {
                assert forall|i: int| 0 <= i < self@.cursor implies (#[trigger] self@.transcoders[i] matches Some(
                    u,
                ) ==> flush_steps_taken(u.phase) == 4) by {
                    assert(pre.transcoders[i] == self@.transcoders[i]);
                }
                assert forall|i: int| 0 <= i < self@.roles.len() implies #[trigger] self@.stream_wf(i) by {
                    assert(pre.stream_wf(i));
                }
            }
        }
        if !self.trailer_written {
            let ghost pre = self@;
            self.trailer_written = true;
            proof {
                assert forall|i: int| 0 <= i < self@.roles.len() implies #[trigger] self@.stream_wf(i) by {
                    assert(pre.stream_wf(i));
                }
                assert forall|i: int| 0 <= i < self@.cursor implies (#[trigger] self@.transcoders[i] matches Some(
                    u,
                ) ==> flush_steps_taken(u.phase) == 4) by {
                    assert(pre.transcoders[i] == self@.transcoders[i]);
                }
            }
            JobStep::WriteTrailer
        } else {
            JobStep::Finished
        }
    }

    /// How many frames the decoder of `stream` has produced so far, where
    /// the stream is transcoded.
    pub fn decoded_frames(&self, stream: usize) -> (r: Option<u64>)
        requires
            self@.wf(),
        ensures
            stream < self@.transcoders.len() ==> (self@.transcoders[stream as int] matches Some(t)
                ==> r == Some(t.decoded_frames)),
            stream >= self@.transcoders.len() || self@.transcoders[stream as int] is None ==> r is None,
    {
        if stream >= self.transcoders.len() {
            return None;
        }
        proof {
            self.lemma_view_at(stream as int);
        }
        match &self.transcoders[stream] {
            Some(t) => Some(t.decoded_frames()),
            None => None,
        }
    }

    /// The number of output streams that this job writes.
    pub fn output_count(&self) -> (r: usize)
        ensures
            r == self@.output_time_bases.len(),
    {
        self.output_time_bases.len()
    }

    /// The stream mapping of this job: each input stream's output index, or
    /// `None` where it is skipped.
    pub fn stream_mapping(&self) -> (mapping: Vec<Option<usize>>)
        ensures
            mapping@.len() == self@.roles.len(),
            forall|i: int|
                0 <= i < self@.roles.len() ==> mapping@[i] == match crate::router::output_of(
                    #[trigger] self@.roles[i],
                ) {
                    Some(o) => Some(o as usize),
                    None => None::<usize>,
                },
    {
        stream_mapping(&self.roles)
    }
}

proof fn lemma_stream_transcoder_wf(j: JobView, i: int)
    requires
        j.wf(),
        0 <= i < j.transcoders.len(),
    ensures
        j.transcoders[i] matches Some(t) ==> t.wf(),
        i < j.cursor ==> (j.transcoders[i] matches Some(t) ==> flush_steps_taken(t.phase) == 4),
{
    assert(j.stream_wf(i));
}

proof fn lemma_stream_flush_order(t: Option<TranscoderView>, complete: bool)
    requires
        t matches Some(t) ==> t.wf(),
        complete ==> (t matches Some(t) ==> flush_steps_taken(t.phase) == 4),
    ensures
        t matches Some(t) ==> drained_before_encoder_eof(t.flushes),
        complete ==> (t matches Some(t) ==> t.flushes == flush_sequence()),
{
    match t {
        Some(v) => {
            lemma_decoder_drained_before_encoder_eof(v);
            if complete {
                lemma_complete_flush(v);
            }
        },
        None => {},
    }
}

/// Throughout a job, every transcoder signals its encoder's end of input
/// only after its decoder's end of input and complete drain, and once the
/// trailer is due every transcoder has gone through all four flush steps.
pub proof fn lemma_job_flush_order(j: JobView)
    requires
        j.wf(),
    ensures
        forall|i: int|
            0 <= i < j.transcoders.len() ==> (#[trigger] j.transcoders[i] matches Some(t)
                ==> drained_before_encoder_eof(t.flushes)),
        j.trailer_written ==> forall|i: int|
            0 <= i < j.transcoders.len() ==> (#[trigger] j.transcoders[i] matches Some(t)
                ==> t.flushes == flush_sequence()),
{
    assert forall|i: int| 0 <= i < j.transcoders.len() implies (#[trigger] j.transcoders[i] matches Some(t)
        ==> drained_before_encoder_eof(t.flushes)) by {
        lemma_stream_transcoder_wf(j, i);
        lemma_stream_flush_order(j.transcoders[i], false);
    }
    assert forall|i: int| j.trailer_written && 0 <= i < j.transcoders.len() implies (#[trigger] j.transcoders[i] matches Some(t)
        ==> t.flushes == flush_sequence()) by {
        lemma_stream_transcoder_wf(j, i);
        lemma_stream_flush_order(j.transcoders[i], true);
    }
}

} // verus!
