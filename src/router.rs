use vstd::prelude::*;

verus! {

/// The medium that an input stream carries.
#[derive(Debug, Clone, Copy, PartialEq, Eq, Structural)]
pub enum Medium {
    Video,
    Audio,
    Subtitle,
    Other,
}

/// What the pipeline does with one input stream.
#[derive(Debug, Clone, Copy, PartialEq, Eq, Structural)]
pub enum StreamRole {
    /// The stream is not carried into the output.
    Skip,
    /// The stream's packets are copied to output stream `output`.
    Copy { output: usize },
    /// The stream is decoded and re-encoded into output stream `output`;
    /// `reports_progress` marks the single stream that reports progress.
    Transcode { output: usize, reports_progress: bool },
}

/// Audio, video and subtitle streams are carried into the output.
pub open spec fn is_carried(m: Medium) -> bool {
    m != Medium::Other
}

/// How many of the first `i` streams are carried into the output.
pub open spec fn carried_before(media: Seq<Medium>, i: int) -> nat
    decreases i,
{
    if i <= 0 {
        0
    } else if is_carried(media[i - 1]) {
        carried_before(media, i - 1) + 1
    } else {
        carried_before(media, i - 1)
    }
}

/// The first video stream at index `i` or later.
pub open spec fn first_video_from(media: Seq<Medium>, i: int) -> Option<int>
    decreases media.len() - i,
{
    if i < 0 || i >= media.len() {
        None
    } else if media[i] == Medium::Video {
        Some(i)
    } else {
        first_video_from(media, i + 1)
    }
}

/// The stream that reports progress: the container's preferred video stream
/// where it names one, else the first video stream, else none.
pub open spec fn progress_choice(media: Seq<Medium>, best: Option<usize>) -> Option<int> {
    match best {
        Some(b) => if b < media.len() && media[b as int] == Medium::Video {
            Some(b as int)
        } else {
            first_video_from(media, 0)
        },
        None => first_video_from(media, 0),
    }
}

/// The role of stream `i`: output indices are given densely in input order.
pub open spec fn role_of(media: Seq<Medium>, best: Option<usize>, i: int) -> StreamRole {
    match media[i] {
        Medium::Other => StreamRole::Skip,
        Medium::Video => StreamRole::Transcode {
            output: carried_before(media, i) as usize,
            reports_progress: progress_choice(media, best) == Some(i),
        },
        _ => StreamRole::Copy { output: carried_before(media, i) as usize },
    }
}

/// The output index that a role maps to, if any.
pub open spec fn output_of(role: StreamRole) -> Option<int> {
    match role {
        StreamRole::Skip => None,
        StreamRole::Copy { output } => Some(output as int),
        StreamRole::Transcode { output, .. } => Some(output as int),
    }
}

/// Whether a role is the one that reports progress.
pub open spec fn reports(role: StreamRole) -> bool {
    role matches StreamRole::Transcode { reports_progress: true, .. }
}

pub proof fn lemma_carried_before_bounds(media: Seq<Medium>, i: int)
    ensures
        carried_before(media, i) <= if i < 0 { 0 } else { i },
    decreases i,
{
    if i > 0 {
        lemma_carried_before_bounds(media, i - 1);
    }
}

pub proof fn lemma_carried_before_grows(media: Seq<Medium>, i: int, j: int)
    requires
        0 <= i < j,
        is_carried(media[i]),
    ensures
        carried_before(media, i) < carried_before(media, j),
    decreases j - i,
{
    if j > i + 1 {
        lemma_carried_before_grows(media, i, j - 1);
    }
}

proof fn lemma_first_video_from(media: Seq<Medium>, i: int)
    requires
        0 <= i,
    ensures
        first_video_from(media, i) matches Some(v) ==> i <= v < media.len() && media[v]
            == Medium::Video && (forall|k: int| i <= k < v ==> media[k] != Medium::Video),
        first_video_from(media, i) is None ==> forall|k: int|
            i <= k < media.len() ==> media[k] != Medium::Video,
    decreases media.len() - i,
{
    if i < media.len() && media[i] != Medium::Video {
        lemma_first_video_from(media, i + 1);
    }
}

/// Finds the stream that reports progress.
pub fn progress_stream(media: &Vec<Medium>, best: Option<usize>) -> (r: Option<usize>)
    ensures
        r matches Some(v) ==> progress_choice(media@, best) == Some(v as int),
        r is None ==> progress_choice(media@, best) is None,
{
    if let Some(b) = best {
        if b < media.len() && media[b] == Medium::Video {
            return Some(b);
        }
    }
    let mut i: usize = 0;
    while i < media.len()
        invariant
            0 <= i <= media.len(),
            first_video_from(media@, 0) == first_video_from(media@, i as int),
            progress_choice(media@, best) == first_video_from(media@, 0),
        decreases media.len() - i,
    {
        if media[i] == Medium::Video {
            return Some(i);
        }
        i += 1;
    }
    None
}

/// Builds the role of every input stream: other media are skipped, audio
/// and subtitles are copied, video is transcoded; carried streams get output
/// indices `0, 1, 2, ...` in input order; exactly the stream chosen by
/// `progress_choice` reports progress.
pub fn route_streams(media: &Vec<Medium>, best: Option<usize>) -> (roles: Vec<StreamRole>)
    ensures
        roles@.len() == media@.len(),
        forall|i: int| 0 <= i < media@.len() ==> roles@[i] == role_of(media@, best, i),
{
    let chosen = progress_stream(media, best);
    let mut roles: Vec<StreamRole> = Vec::new();
    let mut next: usize = 0;
    let mut i: usize = 0;
    while i < media.len()
        invariant
            0 <= i <= media.len(),
            roles@.len() == i,
            next as nat == carried_before(media@, i as int),
            chosen matches Some(v) ==> progress_choice(media@, best) == Some(v as int),
            chosen is None ==> progress_choice(media@, best) is None,
            forall|k: int| 0 <= k < i ==> roles@[k] == role_of(media@, best, k),
        decreases media.len() - i,
    {
        proof {
            lemma_carried_before_bounds(media@, i as int);
        }
        let role = match media[i] {
            Medium::Other => StreamRole::Skip,
            Medium::Video => StreamRole::Transcode {
                output: next,
                reports_progress: chosen == Some(i),
            },
            _ => StreamRole::Copy { output: next },
        };
        if media[i] != Medium::Other {
            next += 1;
        }
        roles.push(role);
        i += 1;
    }
    roles
}

/// The stream mapping: for each input stream, its output index, or `None`
/// where the stream is skipped.
pub fn stream_mapping(roles: &Vec<StreamRole>) -> (mapping: Vec<Option<usize>>)
    ensures
        mapping@.len() == roles@.len(),
        forall|i: int|
            0 <= i < roles@.len() ==> mapping@[i] == match output_of(#[trigger] roles@[i]) {
                Some(o) => Some(o as usize),
                None => None::<usize>,
            },
{
    let mut mapping: Vec<Option<usize>> = Vec::new();
    let mut i: usize = 0;
    while i < roles.len()
        invariant
            0 <= i <= roles@.len(),
            mapping@.len() == i,
            forall|k: int|
                0 <= k < i ==> mapping@[k] == match output_of(#[trigger] roles@[k]) {
                    Some(o) => Some(o as usize),
                    None => None::<usize>,
                },
        decreases roles@.len() - i,
    {
        let entry = match roles[i] {
            StreamRole::Skip => None,
            StreamRole::Copy { output } => Some(output),
            StreamRole::Transcode { output, .. } => Some(output),
        };
        mapping.push(entry);
        i += 1;
    }
    mapping
}

/// Output indices of carried streams are unique and increase with the input
/// index; they are dense: each lies below the number of carried streams.
pub proof fn lemma_mapping_dense_and_monotone(media: Seq<Medium>, best: Option<usize>)
    requires
        media.len() <= usize::MAX,
    ensures
        forall|i: int, j: int|
            0 <= i < j < media.len() && output_of(role_of(media, best, i)) is Some && output_of(
                role_of(media, best, j),
            ) is Some ==> output_of(#[trigger] role_of(media, best, i))->0 < output_of(
                #[trigger] role_of(media, best, j),
            )->0,
        forall|i: int|
            0 <= i < media.len() ==> (output_of(#[trigger] role_of(media, best, i)) is Some
                <==> is_carried(media[i])),
        forall|i: int|
            0 <= i < media.len() && is_carried(media[i]) ==> 0 <= output_of(
                #[trigger] role_of(media, best, i),
            )->0 < carried_before(media, media.len() as int),
{
    assert forall|i: int, j: int|
        0 <= i < j < media.len() && output_of(role_of(media, best, i)) is Some && output_of(
            role_of(media, best, j),
        ) is Some implies output_of(#[trigger] role_of(media, best, i))->0 < output_of(
        #[trigger] role_of(media, best, j),
    )->0 by {
        lemma_carried_before_grows(media, i, j);
        lemma_carried_before_bounds(media, i);
        lemma_carried_before_bounds(media, j);
    }
    assert forall|i: int| 0 <= i < media.len() && is_carried(media[i]) implies 0 <= output_of(
        #[trigger] role_of(media, best, i),
    )->0 < carried_before(media, media.len() as int) by {
        lemma_carried_before_grows(media, i, media.len() as int);
        lemma_carried_before_bounds(media, i);
    }
}

/// At most one stream reports progress, and one does exactly when the input
/// holds a video stream.
pub proof fn lemma_single_progress_stream(media: Seq<Medium>, best: Option<usize>)
    requires
        media.len() <= usize::MAX,
    ensures
        forall|i: int, j: int|
            0 <= i < media.len() && 0 <= j < media.len() && reports(
                #[trigger] role_of(media, best, i),
            ) && reports(#[trigger] role_of(media, best, j)) ==> i == j,
        (exists|i: int| 0 <= i < media.len() && reports(#[trigger] role_of(media, best, i)))
            <==> (exists|v: int| 0 <= v < media.len() && media[v] == Medium::Video),
{
    lemma_first_video_from(media, 0);
    if exists|v: int| 0 <= v < media.len() && media[v] == Medium::Video {
        let c = progress_choice(media, best)->0;
        assert(reports(role_of(media, best, c)));
    }
}

} // verus!
