//! Player events, errors, stream modes and the metadata snapshot.
use vstd::prelude::*;

use crate::player::RequiredElement;

verus! {

/// Run state reported by the engine.
#[derive(Clone, Copy, Debug, PartialEq, Eq, Structural)]
pub enum PlaybackState {
    Stopped,
    Buffering,
    Paused,
    Playing,
}

/// What a session plays: a finite, randomly accessible input pushed by the
/// application, or a live media stream produced elsewhere in the process.
#[derive(Clone, Copy, Debug, PartialEq, Eq, Structural)]
pub enum StreamType {
    Seekable,
    Stream,
}

/// Errors returned by player operations.
#[derive(Debug, PartialEq, Eq)]
pub enum PlayerError {
    /// A required engine element type is absent.
    MissingDependency(RequiredElement),
    /// A failure reported by the engine, with its description.
    Backend(String),
    /// Rate or seek requested on a session that cannot seek.
    NonSeekableStream,
    /// Seek target beyond the known duration.
    SeekOutOfRange,
    /// Backpressure: wait for a need-data event before pushing more.
    EnoughData,
    /// The engine rejected a pushed buffer, or no seekable source is bound.
    BufferPushFailed,
    /// The engine rejected the end-of-stream signal.
    EOSFailed,
    /// The stream-binding preconditions do not hold.
    SetStreamFailed,
    /// The custom source element type could not be registered.
    RegistrationFailed,
}

impl Clone for PlayerError {
    fn clone(&self) -> (r: PlayerError)
        ensures
            r == *self,
    {
        match self {
            PlayerError::MissingDependency(e) => PlayerError::MissingDependency(*e),
            PlayerError::Backend(m) => PlayerError::Backend(m.clone()),
            PlayerError::NonSeekableStream => PlayerError::NonSeekableStream,
            PlayerError::SeekOutOfRange => PlayerError::SeekOutOfRange,
            PlayerError::EnoughData => PlayerError::EnoughData,
            PlayerError::BufferPushFailed => PlayerError::BufferPushFailed,
            PlayerError::EOSFailed => PlayerError::EOSFailed,
            PlayerError::SetStreamFailed => PlayerError::SetStreamFailed,
            PlayerError::RegistrationFailed => PlayerError::RegistrationFailed,
        }
    }
}

/// Total length of a medium: whole seconds and the nanoseconds below a second.
#[derive(Clone, Copy, Debug, PartialEq, Eq, Structural)]
pub struct MediaDuration {
    pub secs: u64,
    pub nanos: u32,
}

pub const NANOS_PER_SEC: u64 = 1_000_000_000;

pub open spec fn duration_of_nanos(ns: u64) -> MediaDuration {
    MediaDuration { secs: ns / NANOS_PER_SEC, nanos: (ns % NANOS_PER_SEC) as u32 }
}

impl MediaDuration {
    /// The duration of `ns` nanoseconds.
    pub fn from_nanos(ns: u64) -> (r: MediaDuration)
        ensures
            r == duration_of_nanos(ns),
            r.secs == ns / NANOS_PER_SEC,
            r.nanos == ns % NANOS_PER_SEC,
    {
        MediaDuration { secs: ns / NANOS_PER_SEC, nanos: (ns % NANOS_PER_SEC) as u32 }
    }
}

/// The kind of one elementary stream of a medium.
#[derive(Clone, Copy, Debug, PartialEq, Eq, Structural)]
pub enum TrackKind {
    Audio,
    Video,
    Other,
}

/// The kind of stream the engine names `name`.
pub open spec fn kind_named(name: Seq<char>) -> TrackKind {
    if name == "audio"@ {
        TrackKind::Audio
    } else if name == "video"@ {
        TrackKind::Video
    } else {
        TrackKind::Other
    }
}

/// Reads the engine's name of a stream kind: "audio", "video", or anything else.
pub fn track_kind(name: &String) -> (r: TrackKind)
    ensures
        r == kind_named(name@),
{
    proof {
        reveal_strlit("audio");
        reveal_strlit("video");
    }
    let audio = "audio".to_owned();
    let video = "video".to_owned();
    if *name == audio {
        TrackKind::Audio
    } else if *name == video {
        TrackKind::Video
    } else {
        TrackKind::Other
    }
}

/// One elementary stream as the engine describes it.
#[derive(Clone, Debug)]
pub struct StreamInfo {
    pub kind: TrackKind,
    pub codec: Option<String>,
}

/// Pixel dimensions of a video stream as the engine reports them.
#[derive(Clone, Copy, Debug, PartialEq, Eq, Structural)]
pub struct VideoStreamInfo {
    pub width: i32,
    pub height: i32,
}

/// The engine's media information, held as plain values.
#[derive(Clone, Debug)]
pub struct MediaInfo {
    /// Duration in nanoseconds; `None` while unknown.
    pub duration_ns: Option<u64>,
    pub container_format: Option<String>,
    pub streams: Vec<StreamInfo>,
    pub video_streams: Vec<VideoStreamInfo>,
    pub is_seekable: bool,
    pub is_live: bool,
}

/// A snapshot of what is known about the medium being played.
#[derive(Debug)]
pub struct Metadata {
    pub duration: Option<MediaDuration>,
    pub width: u32,
    pub height: u32,
    pub format: String,
    pub is_seekable: bool,
    pub audio_tracks: Vec<String>,
    pub video_tracks: Vec<String>,
    pub is_live: bool,
}

/// The value of a [`Metadata`]: strings seen as sequences of characters.
pub struct MetadataView {
    pub duration: Option<MediaDuration>,
    pub width: u32,
    pub height: u32,
    pub format: Seq<char>,
    pub is_seekable: bool,
    pub audio_tracks: Seq<Seq<char>>,
    pub video_tracks: Seq<Seq<char>>,
    pub is_live: bool,
}

pub open spec fn strings_view(v: Seq<String>) -> Seq<Seq<char>> {
    v.map_values(|s: String| s@)
}

impl View for Metadata {
    type V = MetadataView;

    open spec fn view(&self) -> MetadataView {
        MetadataView {
            duration: self.duration,
            width: self.width,
            height: self.height,
            format: self.format@,
            is_seekable: self.is_seekable,
            audio_tracks: strings_view(self.audio_tracks@),
            video_tracks: strings_view(self.video_tracks@),
            is_live: self.is_live,
        }
    }
}

/// Whether two lists of strings hold the same strings in the same order.
fn same_strings(a: &Vec<String>, b: &Vec<String>) -> (r: bool)
    ensures
        r == (strings_view(a@) == strings_view(b@)),
{
    if a.len() != b.len() {
        proof {
            assert(strings_view(a@).len() != strings_view(b@).len());
        }
        return false;
    }
    let mut i: usize = 0;
    while i < a.len()
        invariant
            a.len() == b.len(),
            i <= a.len(),
            forall|j: int| 0 <= j < i ==> a@[j]@ == b@[j]@,
        decreases a.len() - i,
    {
        if a[i] != b[i] {
            proof {
                assert(strings_view(a@)[i as int] != strings_view(b@)[i as int]);
            }
            return false;
        }
        i = i + 1;
    }
    proof {
        assert(strings_view(a@) =~= strings_view(b@));
    }
    true
}

/// Copies a list of strings.
fn copy_strings(a: &Vec<String>) -> (r: Vec<String>)
    ensures
        r@ == a@,
{
    let mut r: Vec<String> = Vec::new();
    let mut i: usize = 0;
    while i < a.len()
        invariant
            i <= a.len(),
            r@ == a@.take(i as int),
        decreases a.len() - i,
    {
        r.push(a[i].clone());
        proof {
            assert(a@.take(i as int + 1) =~= a@.take(i as int).push(a@[i as int]));
        }
        i = i + 1;
    }
    proof {
        assert(a@.take(a@.len() as int) =~= a@);
    }
    r
}

impl PartialEq for Metadata {
    fn eq(&self, other: &Metadata) -> (r: bool) {
        self.duration == other.duration && self.width == other.width && self.height
            == other.height && self.format == other.format && self.is_seekable
            == other.is_seekable && same_strings(&self.audio_tracks, &other.audio_tracks)
            && same_strings(&self.video_tracks, &other.video_tracks) && self.is_live
            == other.is_live
    }
}

impl vstd::std_specs::cmp::PartialEqSpecImpl for Metadata {
    open spec fn obeys_eq_spec() -> bool {
        true
    }

    open spec fn eq_spec(&self, other: &Metadata) -> bool {
        self@ == other@
    }
}

impl Clone for Metadata {
    fn clone(&self) -> (r: Metadata)
        ensures
            r@ == self@,
    {
        Metadata {
            duration: self.duration,
            width: self.width,
            height: self.height,
            format: self.format.clone(),
            is_seekable: self.is_seekable,
            audio_tracks: copy_strings(&self.audio_tracks),
            video_tracks: copy_strings(&self.video_tracks),
            is_live: self.is_live,
        }
    }
}

/// Name of a stream's codec; the empty string where the engine gives none.
pub open spec fn codec_name(s: StreamInfo) -> Seq<char> {
    match s.codec {
        Some(c) => c@,
        None => Seq::empty(),
    }
}

/// Codec names of the streams of the given kind, in stream order.
pub open spec fn tracks_of(streams: Seq<StreamInfo>, kind: TrackKind) -> Seq<Seq<char>>
    decreases streams.len(),
{
    if streams.len() == 0 {
        Seq::empty()
    } else {
        let prev = tracks_of(streams.drop_last(), kind);
        if streams.last().kind == kind {
            prev.push(codec_name(streams.last()))
        } else {
            prev
        }
    }
}

/// The snapshot that the engine's media information describes.
pub open spec fn metadata_of(info: MediaInfo) -> MetadataView {
    MetadataView {
        duration: match info.duration_ns {
            Some(ns) => Some(duration_of_nanos(ns)),
            None => None,
        },
        width: if info.video_streams@.len() > 0 {
            info.video_streams@[0].width as u32
        } else {
            0
        },
        height: if info.video_streams@.len() > 0 {
            info.video_streams@[0].height as u32
        } else {
            0
        },
        format: match info.container_format {
            Some(f) => f@,
            None => Seq::empty(),
        },
        is_seekable: info.is_seekable,
        audio_tracks: tracks_of(info.streams@, TrackKind::Audio),
        video_tracks: tracks_of(info.streams@, TrackKind::Video),
        is_live: info.is_live,
    }
}

fn codec_or_empty(s: &StreamInfo) -> (r: String)
    ensures
        r@ == codec_name(*s),
{
    match &s.codec {
        Some(c) => c.clone(),
        None => String::new(),
    }
}

/// Builds the metadata snapshot from the engine's media information: the
/// duration split into seconds and nanoseconds, the container format (empty if
/// unknown), the codec of every audio and every video stream in stream order,
/// and the dimensions of the first video stream (zero where there is none).
pub fn metadata_from_media_info(info: &MediaInfo) -> (r: Metadata)
    ensures
        r@ == metadata_of(*info),
{
    let duration = match info.duration_ns {
        Some(ns) => Some(MediaDuration::from_nanos(ns)),
        None => None,
    };
    let mut audio_tracks: Vec<String> = Vec::new();
    let mut video_tracks: Vec<String> = Vec::new();
    let format = match &info.container_format {
        Some(f) => f.clone(),
        None => String::new(),
    };
    let mut i: usize = 0;
    while i < info.streams.len()
        invariant
            i <= info.streams.len(),
            strings_view(audio_tracks@) == tracks_of(info.streams@.take(i as int), TrackKind::Audio),
            strings_view(video_tracks@) == tracks_of(info.streams@.take(i as int), TrackKind::Video),
        decreases info.streams.len() - i,
    {
        let stream = &info.streams[i];
        let ghost prefix = info.streams@.take(i as int + 1);
        proof {
            assert(prefix.drop_last() =~= info.streams@.take(i as int));
            assert(prefix.last() == info.streams@[i as int]);
        }
        match stream.kind {
            TrackKind::Audio => {
                let codec = codec_or_empty(stream);
                audio_tracks.push(codec);
                proof {
                    assert(strings_view(audio_tracks@) =~= strings_view(
                        audio_tracks@.drop_last(),
                    ).push(codec@));
                }
            },
            TrackKind::Video => {
                let codec = codec_or_empty(stream);
                video_tracks.push(codec);
                proof {
                    assert(strings_view(video_tracks@) =~= strings_view(
                        video_tracks@.drop_last(),
                    ).push(codec@));
                }
            },
            TrackKind::Other => {},
        }
        i = i + 1;
    }
    proof {
        assert(info.streams@.take(info.streams@.len() as int) =~= info.streams@);
    }
    let mut width: u32 = 0;
    let height: u32 = if info.video_streams.len() > 0 {
        let first = &info.video_streams[0];
        width = first.width as u32;
        first.height as u32
    } else {
        0
    };
    Metadata {
        duration,
        width,
        height,
        format,
        is_seekable: info.is_seekable,
        audio_tracks,
        video_tracks,
        is_live: info.is_live,
    }
}

/// A lifecycle event delivered to every registered listener of a session.
#[derive(Debug, PartialEq)]
pub enum PlayerEvent {
    EndOfStream,
    /// An engine error after setup, with its description.
    Error(String),
    MetadataUpdated(Metadata),
    /// The pushed source wants more data.
    NeedData,
    /// The pushed source has enough data: stop pushing until `NeedData`.
    EnoughData,
    /// The pushed source asks for data from this byte offset.
    SeekData(u64),
    StateChanged(PlaybackState),
    /// A new video frame went to the renderers.
    FrameUpdated,
    /// Playback position, in seconds.
    PositionChanged(u64),
    /// A seek completed at this position, in seconds.
    SeekDone(u64),
}

/// The value of a [`PlayerEvent`].
pub enum PlayerEventView {
    EndOfStream,
    Error(Seq<char>),
    MetadataUpdated(MetadataView),
    NeedData,
    EnoughData,
    SeekData(u64),
    StateChanged(PlaybackState),
    FrameUpdated,
    PositionChanged(u64),
    SeekDone(u64),
}

impl View for PlayerEvent {
    type V = PlayerEventView;

    open spec fn view(&self) -> PlayerEventView {
        match self {
            PlayerEvent::EndOfStream => PlayerEventView::EndOfStream,
            PlayerEvent::Error(e) => PlayerEventView::Error(e@),
            PlayerEvent::MetadataUpdated(m) => PlayerEventView::MetadataUpdated(m@),
            PlayerEvent::NeedData => PlayerEventView::NeedData,
            PlayerEvent::EnoughData => PlayerEventView::EnoughData,
            PlayerEvent::SeekData(o) => PlayerEventView::SeekData(*o),
            PlayerEvent::StateChanged(st) => PlayerEventView::StateChanged(*st),
            PlayerEvent::FrameUpdated => PlayerEventView::FrameUpdated,
            PlayerEvent::PositionChanged(p) => PlayerEventView::PositionChanged(*p),
            PlayerEvent::SeekDone(p) => PlayerEventView::SeekDone(*p),
        }
    }
}

impl Clone for PlayerEvent {
    fn clone(&self) -> (r: PlayerEvent)
        ensures
            r@ == self@,
    {
        match self {
            PlayerEvent::EndOfStream => PlayerEvent::EndOfStream,
            PlayerEvent::Error(e) => PlayerEvent::Error(e.clone()),
            PlayerEvent::MetadataUpdated(m) => PlayerEvent::MetadataUpdated(m.clone()),
            PlayerEvent::NeedData => PlayerEvent::NeedData,
            PlayerEvent::EnoughData => PlayerEvent::EnoughData,
            PlayerEvent::SeekData(o) => PlayerEvent::SeekData(*o),
            PlayerEvent::StateChanged(st) => PlayerEvent::StateChanged(*st),
            PlayerEvent::FrameUpdated => PlayerEvent::FrameUpdated,
            PlayerEvent::PositionChanged(p) => PlayerEvent::PositionChanged(*p),
            PlayerEvent::SeekDone(p) => PlayerEvent::SeekDone(*p),
        }
    }
}

} // verus!
