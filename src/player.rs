//! The player session state machine.
//!
//! A session never touches the engine: each operation and each engine signal
//! handler updates the session's state and returns the engine commands that
//! the application then carries out, in order.
use vstd::prelude::*;

use crate::events::{
    duration_of_nanos, metadata_from_media_info, metadata_of, MediaDuration, MediaInfo, Metadata,
    MetadataView, PlaybackState, PlayerError, PlayerEvent, PlayerEventView, StreamType,
    NANOS_PER_SEC,
};
use crate::frame::VideoFrame;
use crate::observers::{notified, FrameRendererList, PlayerEventObserverList};
use crate::registry::{MediaStreamId, StreamRegistry};

verus! {

/// The custom source element the engine bound to a session.
#[derive(Clone, Copy, Debug, PartialEq, Eq, Structural)]
pub enum PlayerSource {
    /// Client source fed with pushed bytes, with a known or live size.
    Seekable,
    /// Source playing a media stream of the process.
    Stream,
}

/// One action on the engine.
#[derive(Debug, PartialEq)]
pub enum EngineCommand {
    Play,
    Pause,
    Stop,
    /// Set the playback rate, given as the bit pattern of an IEEE-754 double.
    SetRate(u64),
    /// Set the volume, given as the bit pattern of an IEEE-754 double.
    SetVolume(u64),
    SetMute(bool),
    /// Seek to this position, in nanoseconds.
    Seek(u64),
    /// Tell the seekable source the input size in bytes; -1 for a live input.
    SetSourceSize(i64),
    /// Push these bytes into the seekable source.
    PushBuffer(Vec<u8>),
    /// Signal the end of the pushed input.
    EndOfStream,
    /// Continue the pushed input from this byte offset.
    SetSeekOffset(u64),
    /// Put the pipeline on the system clock with the process-wide shared base
    /// time and no start time.
    UseSharedClock,
    /// Make the stream source play this stream.
    BindStream(MediaStreamId),
    /// Turn the video track off.
    DisableVideo,
}

/// The bit pattern of the playback rate 1.0.
pub const DEFAULT_RATE: u64 = 0x3FF0_0000_0000_0000;

/// Largest value of a buffering percentage.
pub const PERCENT_MAX: u32 = 1_000_000;

/// Buffering range as the engine reports it, in millionths of the medium.
#[derive(Clone, Copy, Debug, PartialEq, Eq, Structural)]
pub struct PercentRange {
    pub start: u32,
    pub end: u32,
}

/// A span of the medium, in whole seconds.
#[derive(Clone, Copy, Debug, PartialEq, Eq, Structural)]
pub struct TimeRange {
    pub start: u64,
    pub end: u64,
}

/// The value of a [`PlayerInner`].
pub struct InnerView {
    pub source: Option<PlayerSource>,
    pub input_size: u64,
    pub rate: u64,
    pub stream_type: StreamType,
    pub last_metadata: Option<MetadataView>,
    pub enough_data: bool,
}

/// State of one playback session.
#[derive(Debug)]
pub struct PlayerInner {
    source: Option<PlayerSource>,
    input_size: u64,
    rate: u64,
    stream_type: StreamType,
    last_metadata: Option<Metadata>,
    enough_data: bool,
}

impl View for PlayerInner {
    type V = InnerView;

    closed spec fn view(&self) -> InnerView {
        InnerView {
            source: self.source,
            input_size: self.input_size,
            rate: self.rate,
            stream_type: self.stream_type,
            last_metadata: match self.last_metadata {
                Some(m) => Some(m@),
                None => None,
            },
            enough_data: self.enough_data,
        }
    }
}

/// The size announced to a seekable source: the size as a signed 64-bit
/// number, or -1 (live) for a size of zero.
pub open spec fn announced_size(size: u64) -> i64 {
    if size > 0 {
        size as i64
    } else {
        -1i64
    }
}

/// The outcome of `set_rate(rate)` on a session in state `v`.
pub open spec fn set_rate_result(v: InnerView, rate: u64) -> Result<Seq<EngineCommand>, PlayerError> {
    match v.last_metadata {
        None => Ok(Seq::empty()),
        Some(m) => if m.is_seekable {
            Ok(seq![EngineCommand::SetRate(rate)])
        } else {
            Err(PlayerError::NonSeekableStream)
        },
    }
}

/// A duration in nanoseconds.
pub open spec fn duration_nanos(d: MediaDuration) -> int {
    d.secs as int * NANOS_PER_SEC as int + d.nanos as int
}

/// Whether the known duration is shorter than `time_ns` nanoseconds.
pub open spec fn beyond_duration(v: InnerView, time_ns: u64) -> bool {
    match v.last_metadata {
        Some(m) => match m.duration {
            Some(d) => duration_nanos(d) < time_ns as int,
            None => false,
        },
        None => false,
    }
}

/// The outcome of `seek(time_ns)` on a session in state `v`.
pub open spec fn seek_result(v: InnerView, time_ns: u64) -> Result<Seq<EngineCommand>, PlayerError> {
    if v.stream_type != StreamType::Seekable {
        Err(PlayerError::NonSeekableStream)
    } else if beyond_duration(v, time_ns) {
        Err(PlayerError::SeekOutOfRange)
    } else {
        Ok(seq![EngineCommand::Seek(time_ns)])
    }
}

/// The outcome of `push_data(data)` on a session in state `v`.
pub open spec fn push_result(v: InnerView, data: Vec<u8>) -> Result<Seq<EngineCommand>, PlayerError> {
    match v.source {
        Some(PlayerSource::Seekable) => if v.enough_data {
            Err(PlayerError::EnoughData)
        } else {
            Ok(seq![EngineCommand::PushBuffer(data)])
        },
        _ => Err(PlayerError::BufferPushFailed),
    }
}

/// Whether a media-info update to `m` changes the cached snapshot.
pub open spec fn metadata_changes(v: InnerView, m: MetadataView) -> bool {
    v.last_metadata != Some(m)
}

/// The session after a media-info update to `m`.
pub open spec fn after_media_info(v: InnerView, m: MetadataView) -> InnerView {
    if metadata_changes(v, m) {
        InnerView { last_metadata: Some(m), ..v }
    } else {
        v
    }
}

/// The commands of a media-info update to `m`: the cached rate is applied
/// when the snapshot changes to a seekable one.
pub open spec fn media_info_commands(v: InnerView, m: MetadataView) -> Seq<EngineCommand> {
    if metadata_changes(v, m) && m.is_seekable {
        seq![EngineCommand::SetRate(v.rate)]
    } else {
        Seq::empty()
    }
}

/// The session after a duration change to `d`: merged into a cached snapshot,
/// if there is one.
pub open spec fn after_duration(v: InnerView, d: Option<MediaDuration>) -> InnerView {
    match v.last_metadata {
        Some(m) => InnerView { last_metadata: Some(MetadataView { duration: d, ..m }), ..v },
        None => v,
    }
}

/// `p` millionths of `secs` seconds, in whole seconds; percentages above the
/// maximum count as the maximum.
pub open spec fn scale_percent(p: u32, secs: u64) -> u64 {
    let q = if p > PERCENT_MAX {
        PERCENT_MAX
    } else {
        p
    };
    ((q as int * secs as int) / PERCENT_MAX as int) as u64
}

/// The buffered spans for the engine's percentage ranges, given the snapshot
/// of `v`: none while no duration is known.
pub open spec fn buffered_ranges(v: InnerView, ranges: Seq<PercentRange>) -> Seq<TimeRange> {
    match v.last_metadata {
        Some(m) => match m.duration {
            Some(d) => ranges.map_values(
                |r: PercentRange|
                    TimeRange {
                        start: scale_percent(r.start, d.secs),
                        end: scale_percent(r.end, d.secs),
                    },
            ),
            None => Seq::empty(),
        },
        None => Seq::empty(),
    }
}

fn scale(p: u32, secs: u64) -> (r: u64)
    ensures
        r == scale_percent(p, secs),
        r <= secs,
{
    let q: u32 = if p > PERCENT_MAX {
        PERCENT_MAX
    } else {
        p
    };
    proof {
        assert((q as int) * (secs as int) <= 1_000_000 * 0xFFFF_FFFF_FFFF_FFFF) by (nonlinear_arith)
            requires
                q <= 1_000_000,
                secs <= 0xFFFF_FFFF_FFFF_FFFFu64,
        ;
    }
    let prod: u128 = (q as u128) * (secs as u128);
    let r128: u128 = prod / (PERCENT_MAX as u128);
    proof {
        assert(prod == q as int * secs as int) by (nonlinear_arith)
            requires
                prod == (q as u128) * (secs as u128),
                q <= PERCENT_MAX,
        ;
        assert(r128 <= secs) by (nonlinear_arith)
            requires
                r128 == prod / 1_000_000u128,
                prod == q as int * secs as int,
                q <= 1_000_000,
        ;
    }
    r128 as u64
}

impl PlayerInner {
    /// A fresh session of the given mode: no source bound, no input size, rate
    /// 1.0, no metadata, no backpressure.
    pub fn new(stream_type: StreamType) -> (r: Self)
        ensures
            r@ == (InnerView {
                source: None,
                input_size: 0,
                rate: DEFAULT_RATE,
                stream_type,
                last_metadata: None,
                enough_data: false,
            }),
    {
        PlayerInner {
            source: None,
            input_size: 0,
            rate: DEFAULT_RATE,
            stream_type,
            last_metadata: None,
            enough_data: false,
        }
    }

    /// The bound source.
    pub fn source(&self) -> (r: Option<PlayerSource>)
        ensures
            r == self@.source,
    {
        self.source
    }

    /// The cached playback rate.
    pub fn rate(&self) -> (r: u64)
        ensures
            r == self@.rate,
    {
        self.rate
    }

    /// The cached input size.
    pub fn input_size(&self) -> (r: u64)
        ensures
            r == self@.input_size,
    {
        self.input_size
    }

    /// The session's mode.
    pub fn stream_type(&self) -> (r: StreamType)
        ensures
            r == self@.stream_type,
    {
        self.stream_type
    }

    /// Whether the source asked to stop pushing.
    pub fn enough_data(&self) -> (r: bool)
        ensures
            r == self@.enough_data,
    {
        self.enough_data
    }

    /// The cached metadata snapshot.
    pub fn last_metadata(&self) -> (r: &Option<Metadata>)
        ensures
            match r {
                Some(m) => self@.last_metadata == Some(m@),
                None => self@.last_metadata.is_none(),
            },
    {
        &self.last_metadata
    }

    /// Caches the input size; a bound seekable source is told at once.
    pub fn set_input_size(&mut self, size: u64) -> (r: Vec<EngineCommand>)
        ensures
            final(self)@ == (InnerView { input_size: size, ..old(self)@ }),
            r@ == if old(self)@.source == Some(PlayerSource::Seekable) {
                seq![EngineCommand::SetSourceSize(announced_size(size))]
            } else {
                Seq::empty()
            },
    {
        self.input_size = size;
        match self.source {
            Some(PlayerSource::Seekable) => {
                let announced: i64 = if size > 0 {
                    size as i64
                } else {
                    -1
                };
                vec![EngineCommand::SetSourceSize(announced)]
            },
            _ => Vec::new(),
        }
    }

    pub fn set_mute(&mut self, val: bool) -> (r: Vec<EngineCommand>)
        ensures
            final(self)@ == old(self)@,
            r@ == seq![EngineCommand::SetMute(val)],
    {
        vec![EngineCommand::SetMute(val)]
    }

    /// Caches the rate in every case. With no metadata yet nothing else
    /// happens; with metadata the rate is applied if the medium is seekable,
    /// and refused otherwise.
    pub fn set_rate(&mut self, rate: u64) -> (r: Result<Vec<EngineCommand>, PlayerError>)
        ensures
            final(self)@ == (InnerView { rate, ..old(self)@ }),
            match (r, set_rate_result(old(self)@, rate)) {
                (Ok(c), Ok(s)) => c@ == s,
                (Err(e), Err(f)) => e == f,
                _ => false,
            },
    {
        self.rate = rate;
        match &self.last_metadata {
            None => Ok(Vec::new()),
            Some(m) => {
                if !m.is_seekable {
                    Err(PlayerError::NonSeekableStream)
                } else {
                    Ok(vec![EngineCommand::SetRate(rate)])
                }
            },
        }
    }

    pub fn play(&mut self) -> (r: Vec<EngineCommand>)
        ensures
            final(self)@ == old(self)@,
            r@ == seq![EngineCommand::Play],
    {
        vec![EngineCommand::Play]
    }

    /// Stops the engine and forgets the metadata and the bound source.
    pub fn stop(&mut self) -> (r: Vec<EngineCommand>)
        ensures
            final(self)@ == (InnerView { last_metadata: None, source: None, ..old(self)@ }),
            r@ == seq![EngineCommand::Stop],
    {
        self.last_metadata = None;
        self.source = None;
        vec![EngineCommand::Stop]
    }

    pub fn pause(&mut self) -> (r: Vec<EngineCommand>)
        ensures
            final(self)@ == old(self)@,
            r@ == seq![EngineCommand::Pause],
    {
        vec![EngineCommand::Pause]
    }

    /// Signals the end of the pushed input to a bound seekable source; nothing
    /// to do otherwise.
    pub fn end_of_stream(&mut self) -> (r: Vec<EngineCommand>)
        ensures
            final(self)@ == old(self)@,
            r@ == if old(self)@.source == Some(PlayerSource::Seekable) {
                seq![EngineCommand::EndOfStream]
            } else {
                Seq::empty()
            },
    {
        match self.source {
            Some(PlayerSource::Seekable) => vec![EngineCommand::EndOfStream],
            _ => Vec::new(),
        }
    }

    /// Seeks to `time_ns` nanoseconds: refused on a stream-mode session, and
    /// beyond the known duration.
    pub fn seek(&mut self, time_ns: u64) -> (r: Result<Vec<EngineCommand>, PlayerError>)
        ensures
            final(self)@ == old(self)@,
            match (r, seek_result(old(self)@, time_ns)) {
                (Ok(c), Ok(s)) => c@ == s,
                (Err(e), Err(f)) => e == f,
                _ => false,
            },
    {
        if self.stream_type != StreamType::Seekable {
            return Err(PlayerError::NonSeekableStream);
        }
        match &self.last_metadata {
            Some(m) => match m.duration {
                Some(d) => {
                    proof {
                        assert(d.secs as int * NANOS_PER_SEC as int <= 0xFFFF_FFFF_FFFF_FFFF * 1_000_000_000)
                            by (nonlinear_arith)
                            requires
                                d.secs <= 0xFFFF_FFFF_FFFF_FFFFu64,
                        ;
                    }
                    let total: u128 = (d.secs as u128) * (NANOS_PER_SEC as u128) + (d.nanos as u128);
                    if total < time_ns as u128 {
                        return Err(PlayerError::SeekOutOfRange);
                    }
                },
                None => {},
            },
            None => {},
        }
        Ok(vec![EngineCommand::Seek(time_ns)])
    }

    pub fn set_volume(&mut self, value: u64) -> (r: Vec<EngineCommand>)
        ensures
            final(self)@ == old(self)@,
            r@ == seq![EngineCommand::SetVolume(value)],
    {
        vec![EngineCommand::SetVolume(value)]
    }

    /// Pushes bytes into a bound seekable source, unless it asked to stop.
    pub fn push_data(&mut self, data: Vec<u8>) -> (r: Result<Vec<EngineCommand>, PlayerError>)
        ensures
            final(self)@ == old(self)@,
            match (r, push_result(old(self)@, data)) {
                (Ok(c), Ok(s)) => c@ == s,
                (Err(e), Err(f)) => e == f,
                _ => false,
            },
    {
        match self.source {
            Some(PlayerSource::Seekable) => {
                if self.enough_data {
                    Err(PlayerError::EnoughData)
                } else {
                    Ok(vec![EngineCommand::PushBuffer(data)])
                }
            },
            _ => Err(PlayerError::BufferPushFailed),
        }
    }

    /// Binds the source the engine set up.
    pub fn set_src(&mut self, source: PlayerSource)
        ensures
            final(self)@ == (InnerView { source: Some(source), ..old(self)@ }),
    {
        self.source = Some(source);
    }

    /// The buffered spans of the medium, from the engine's percentage ranges
    /// and the known duration.
    pub fn buffered(&self, ranges: &Vec<PercentRange>) -> (r: Vec<TimeRange>)
        ensures
            r@ == buffered_ranges(self@, ranges@),
    {
        let mut result: Vec<TimeRange> = Vec::new();
        let secs = match &self.last_metadata {
            Some(m) => match m.duration {
                Some(d) => d.secs,
                None => {
                    return result;
                },
            },
            None => {
                return result;
            },
        };
        let mut i: usize = 0;
        while i < ranges.len()
            invariant
                i <= ranges.len(),
                self@.last_metadata is Some,
                self@.last_metadata->Some_0.duration is Some,
                secs == self@.last_metadata->Some_0.duration->Some_0.secs,
                result@ == buffered_ranges(self@, ranges@).take(i as int),
            decreases ranges.len() - i,
        {
            let range = ranges[i];
            result.push(TimeRange { start: scale(range.start, secs), end: scale(range.end, secs) });
            proof {
                assert(buffered_ranges(self@, ranges@).take(i as int + 1) =~= buffered_ranges(
                    self@,
                    ranges@,
                ).take(i as int).push(buffered_ranges(self@, ranges@)[i as int]));
            }
            i = i + 1;
        }
        proof {
            assert(buffered_ranges(self@, ranges@).take(ranges@.len() as int) =~= buffered_ranges(
                self@,
                ranges@,
            ));
        }
        result
    }

    /// Makes the bound stream source play stream `id` on the shared clock.
    /// Refused unless the session is in stream mode, a stream source is bound
    /// and `id` is registered.
    pub fn set_stream(&mut self, registry: &StreamRegistry, id: MediaStreamId) -> (r: Result<
        Vec<EngineCommand>,
        PlayerError,
    >)
        ensures
            final(self)@ == old(self)@,
            if old(self)@.stream_type == StreamType::Stream && old(self)@.source == Some(
                PlayerSource::Stream,
            ) && registry@.streams.contains_key(id.0) {
                r is Ok && r->Ok_0@ == seq![EngineCommand::UseSharedClock, EngineCommand::BindStream(id)]
            } else {
                r == Err::<Vec<EngineCommand>, PlayerError>(PlayerError::SetStreamFailed)
            },
    {
        if self.stream_type == StreamType::Stream {
            match self.source {
                Some(PlayerSource::Stream) => {
                    if registry.contains(id) {
                        return Ok(vec![EngineCommand::UseSharedClock, EngineCommand::BindStream(id)]);
                    }
                },
                _ => {},
            }
        }
        Err(PlayerError::SetStreamFailed)
    }

    /// Turns the video track off, leaving audio alone.
    pub fn disable_video(&self) -> (r: Vec<EngineCommand>)
        ensures
            r@ == seq![EngineCommand::DisableVideo],
    {
        vec![EngineCommand::DisableVideo]
    }

    /// The source stopped asking for data.
    pub fn enough_data_signalled(&mut self)
        ensures
            final(self)@ == (InnerView { enough_data: true, ..old(self)@ }),
    {
        self.enough_data = true;
    }

    /// The source asks for data again.
    pub fn need_data_signalled(&mut self)
        ensures
            final(self)@ == (InnerView { enough_data: false, ..old(self)@ }),
    {
        self.enough_data = false;
    }

    /// Takes in a new metadata snapshot. Returns the snapshot where it differs
    /// from the cached one, which it then replaces, with the commands that go
    /// with it; `None` and no commands where it is equal.
    pub fn update_metadata(&mut self, metadata: Metadata) -> (r: (Option<Metadata>, Vec<EngineCommand>))
        ensures
            final(self)@ == after_media_info(old(self)@, metadata@),
            r.1@ == media_info_commands(old(self)@, metadata@),
            match r.0 {
                Some(m) => metadata_changes(old(self)@, metadata@) && m@ == metadata@,
                None => !metadata_changes(old(self)@, metadata@),
            },
    {
        let unchanged = match &self.last_metadata {
            Some(m) => *m == metadata,
            None => false,
        };
        if unchanged {
            return (None, Vec::new());
        }
        let copy = metadata.clone();
        let seekable = metadata.is_seekable;
        self.last_metadata = Some(metadata);
        let commands = if seekable {
            vec![EngineCommand::SetRate(self.rate)]
        } else {
            Vec::new()
        };
        (Some(copy), commands)
    }

    /// Merges a new duration into the cached snapshot, and returns the merged
    /// snapshot; `None` where no snapshot is cached.
    pub fn update_duration(&mut self, duration: Option<MediaDuration>) -> (r: Option<Metadata>)
        ensures
            final(self)@ == after_duration(old(self)@, duration),
            match r {
                Some(m) => final(self)@.last_metadata == Some(m@) && old(
                    self,
                )@.last_metadata.is_some(),
                None => old(self)@.last_metadata.is_none(),
            },
    {
        match self.last_metadata.take() {
            Some(m) => {
                let mut m = m;
                m.duration = duration;
                let copy = m.clone();
                self.last_metadata = Some(m);
                Some(copy)
            },
            None => None,
        }
    }
}

/// The result of the engine carrying out `cmd`: a rejected buffer push or
/// end-of-stream signal is an error; the other commands cannot fail.
pub fn engine_outcome(cmd: &EngineCommand, accepted: bool) -> (r: Result<(), PlayerError>)
    ensures
        r == if accepted {
            Ok(())
        } else {
            match cmd {
                EngineCommand::PushBuffer(_) => Err(PlayerError::BufferPushFailed),
                EngineCommand::EndOfStream => Err(PlayerError::EOSFailed),
                _ => Ok(()),
            }
        },
{
    if accepted {
        return Ok(());
    }
    match cmd {
        EngineCommand::PushBuffer(_) => Err(PlayerError::BufferPushFailed),
        EngineCommand::EndOfStream => Err(PlayerError::EOSFailed),
        _ => Ok(()),
    }
}

} // verus!

verus! {

/// An engine element type a session cannot work without.
#[derive(Clone, Copy, Debug, PartialEq, Eq, Structural)]
pub enum RequiredElement {
    Playbin,
    Queue,
}

/// Progress of the source-setup handshake. While it is `Waiting` or
/// `Resolved`, engine errors also answer the handshake.
#[derive(Debug, PartialEq)]
pub enum Handshake {
    /// No session was started.
    Idle,
    /// The engine is setting the source up; the caller waits.
    Waiting,
    /// The first answer arrived; later ones are ignored.
    Resolved(Result<(), PlayerError>),
    /// The caller took the answer.
    Finished(Result<(), PlayerError>),
}

fn copy_answer(a: &Result<(), PlayerError>) -> (r: Result<(), PlayerError>)
    ensures
        r == *a,
{
    match a {
        Ok(u) => Ok(*u),
        Err(e) => Err(e.clone()),
    }
}

/// Description of a source-setup signal without a source element.
pub open spec fn source_setup_failure() -> Seq<char> {
    "Source setup failed"@
}

/// A playback context: the lazily created session, its listeners and renderers,
/// and the handshake that binds its source.
#[derive(Debug)]
pub struct GStreamerPlayer {
    pub inner: Option<PlayerInner>,
    pub observers: PlayerEventObserverList,
    pub renderers: FrameRendererList,
    pub stream_type: StreamType,
    pub handshake: Handshake,
}

/// What `answer` does to the handshake `h`: the first answer is kept.
pub open spec fn answered(h: Handshake, answer: Result<(), PlayerError>) -> Handshake {
    match h {
        Handshake::Waiting => Handshake::Resolved(answer),
        _ => h,
    }
}

/// What a handshake hands to the waiting caller when `answer` arrives.
pub open spec fn delivered(h: Handshake, answer: Result<(), PlayerError>) -> Option<Result<(), PlayerError>> {
    match h {
        Handshake::Waiting => Some(answer),
        _ => None,
    }
}

/// The source the engine binds for a session of mode `t`.
pub open spec fn source_for(t: StreamType) -> PlayerSource {
    match t {
        StreamType::Seekable => PlayerSource::Seekable,
        StreamType::Stream => PlayerSource::Stream,
    }
}

impl GStreamerPlayer {
    /// A context for mode `stream_type`, with no session yet.
    pub fn new(stream_type: StreamType) -> (r: Self)
        ensures
            r.inner.is_none(),
            r.observers@ == Seq::<Seq<PlayerEventView>>::empty(),
            r.renderers@ == Seq::<Seq<VideoFrame>>::empty(),
            r.stream_type == stream_type,
            r.handshake == Handshake::Idle,
    {
        GStreamerPlayer {
            inner: None,
            observers: PlayerEventObserverList::new(),
            renderers: FrameRendererList::new(),
            stream_type,
            handshake: Handshake::Idle,
        }
    }

    /// Whether the session exists.
    pub fn is_set_up(&self) -> (r: bool)
        ensures
            r == self.inner.is_some(),
    {
        self.inner.is_some()
    }

    /// Checks that the engine has the element types a session needs, the
    /// playbin first.
    pub fn check_dependencies(has_playbin: bool, has_queue: bool) -> (r: Result<(), PlayerError>)
        ensures
            r == if !has_playbin {
                Err(PlayerError::MissingDependency(RequiredElement::Playbin))
            } else if !has_queue {
                Err(PlayerError::MissingDependency(RequiredElement::Queue))
            } else {
                Ok(())
            },
    {
        if !has_playbin {
            Err(PlayerError::MissingDependency(RequiredElement::Playbin))
        } else if !has_queue {
            Err(PlayerError::MissingDependency(RequiredElement::Queue))
        } else {
            Ok(())
        }
    }

    /// Creates the session once the engine player is built; `source_registered`
    /// tells whether the custom source type of the mode could be registered.
    /// Nothing changes where a session exists or registration failed. The
    /// returned commands pause the engine, which starts the source setup.
    pub fn start_session(&mut self, source_registered: bool) -> (r: Result<Vec<EngineCommand>, PlayerError>)
        ensures
            old(self).inner.is_some() ==> *final(self) == *old(self) && r is Ok && r->Ok_0@
                == Seq::<EngineCommand>::empty(),
            old(self).inner.is_none() && !source_registered ==> *final(self) == *old(self) && r
                == Err::<Vec<EngineCommand>, PlayerError>(PlayerError::RegistrationFailed),
            old(self).inner.is_none() && source_registered ==> {
                &&& r is Ok
                &&& r->Ok_0@ == seq![EngineCommand::Pause]
                &&& final(self).inner is Some
                &&& final(self).inner->Some_0@ == (InnerView {
                    source: None,
                    input_size: 0,
                    rate: DEFAULT_RATE,
                    stream_type: old(self).stream_type,
                    last_metadata: None,
                    enough_data: false,
                })
                &&& final(self).handshake == Handshake::Waiting
                &&& final(self).observers == old(self).observers
                &&& final(self).renderers == old(self).renderers
                &&& final(self).stream_type == old(self).stream_type
            },
    {
        if self.inner.is_some() {
            return Ok(Vec::new());
        }
        if !source_registered {
            return Err(PlayerError::RegistrationFailed);
        }
        self.inner = Some(PlayerInner::new(self.stream_type));
        self.handshake = Handshake::Waiting;
        Ok(vec![EngineCommand::Pause])
    }

    /// The part of setup that does not wait for the engine: nothing to do when
    /// the session exists; otherwise the element types are checked (playbin
    /// first), then the session is started, given whether the mode's custom
    /// source type could be registered. On any failure nothing changes. After
    /// success the caller waits for the handshake's answer and closes it with
    /// `finish_setup`.
    pub fn setup(&mut self, has_playbin: bool, has_queue: bool, source_registered: bool) -> (r: Result<
        Vec<EngineCommand>,
        PlayerError,
    >)
        ensures
            old(self).inner.is_some() ==> *final(self) == *old(self) && r is Ok && r->Ok_0@
                == Seq::<EngineCommand>::empty(),
            old(self).inner.is_none() && !has_playbin ==> *final(self) == *old(self) && r
                == Err::<Vec<EngineCommand>, PlayerError>(
                PlayerError::MissingDependency(RequiredElement::Playbin),
            ),
            old(self).inner.is_none() && has_playbin && !has_queue ==> *final(self) == *old(self)
                && r == Err::<Vec<EngineCommand>, PlayerError>(
                PlayerError::MissingDependency(RequiredElement::Queue),
            ),
            old(self).inner.is_none() && has_playbin && has_queue && !source_registered ==> {
                &&& *final(self) == *old(self)
                &&& r == Err::<Vec<EngineCommand>, PlayerError>(PlayerError::RegistrationFailed)
            },
            old(self).inner.is_none() && has_playbin && has_queue && source_registered ==> {
                &&& r is Ok
                &&& r->Ok_0@ == seq![EngineCommand::Pause]
                &&& final(self).inner is Some
                &&& final(self).inner->Some_0@ == (InnerView {
                    source: None,
                    input_size: 0,
                    rate: DEFAULT_RATE,
                    stream_type: old(self).stream_type,
                    last_metadata: None,
                    enough_data: false,
                })
                &&& final(self).handshake == Handshake::Waiting
                &&& final(self).observers == old(self).observers
                &&& final(self).renderers == old(self).renderers
                &&& final(self).stream_type == old(self).stream_type
            },
    {
        if self.inner.is_some() {
            return Ok(Vec::new());
        }
        match Self::check_dependencies(has_playbin, has_queue) {
            Err(e) => Err(e),
            Ok(()) => self.start_session(source_registered),
        }
    }

    fn answer(&mut self, answer: Result<(), PlayerError>) -> (r: Option<Result<(), PlayerError>>)
        ensures
            final(self).handshake == answered(old(self).handshake, answer),
            r == delivered(old(self).handshake, answer),
            final(self).inner == old(self).inner,
            final(self).observers == old(self).observers,
            final(self).renderers == old(self).renderers,
            final(self).stream_type == old(self).stream_type,
    {
        match self.handshake {
            Handshake::Waiting => {
                self.handshake = Handshake::Resolved(copy_answer(&answer));
                Some(answer)
            },
            _ => None,
        }
    }

    /// The engine set the source up. With a source element, binds the source
    /// of the session's mode (a seekable one learns a known input size) and
    /// answers the handshake with success; without one, answers with a backend
    /// error. Returns the commands, and the answer where it is the first.
    pub fn on_source_setup(&mut self, element_present: bool) -> (r: (
        Vec<EngineCommand>,
        Option<Result<(), PlayerError>>,
    ))
        ensures
            final(self).observers == old(self).observers,
            final(self).renderers == old(self).renderers,
            final(self).stream_type == old(self).stream_type,
            old(self).inner.is_none() ==> *final(self) == *old(self) && r.0@ == Seq::<
                EngineCommand,
            >::empty() && r.1.is_none(),
            old(self).inner.is_some() && !element_present ==> {
                &&& final(self).inner == old(self).inner
                &&& r.0@ == Seq::<EngineCommand>::empty()
                &&& r.1.is_some() ==> r.1->Some_0 is Err && r.1->Some_0->Err_0 is Backend
                    && r.1->Some_0->Err_0->Backend_0@ == source_setup_failure()
                &&& (old(self).handshake == Handshake::Waiting) == r.1.is_some()
                &&& r.1.is_some() ==> final(self).handshake == Handshake::Resolved(r.1->Some_0)
                &&& r.1.is_none() ==> final(self).handshake == old(self).handshake
            },
            old(self).inner.is_some() && element_present ==> {
                let v = old(self).inner->Some_0@;
                &&& final(self).inner is Some
                &&& final(self).inner->Some_0@ == (InnerView {
                    source: Some(source_for(v.stream_type)),
                    ..v
                })
                &&& r.0@ == if v.stream_type == StreamType::Seekable && v.input_size > 0 {
                    seq![EngineCommand::SetSourceSize(v.input_size as i64)]
                } else {
                    Seq::empty()
                }
                &&& final(self).handshake == answered(old(self).handshake, Ok(()))
                &&& r.1 == delivered(old(self).handshake, Ok(()))
            },
    {
        match self.inner.take() {
            None => (Vec::new(), None),
            Some(inner) => {
                let mut inner = inner;
                if !element_present {
                    self.inner = Some(inner);
                    let message = "Source setup failed".to_owned();
                    proof {
                        reveal_strlit("Source setup failed");
                    }
                    let delivered = self.answer(Err(PlayerError::Backend(message)));
                    return (Vec::new(), delivered);
                }
                let commands = match inner.stream_type() {
                    StreamType::Seekable => {
                        inner.set_src(PlayerSource::Seekable);
                        if inner.input_size() > 0 {
                            vec![EngineCommand::SetSourceSize(inner.input_size() as i64)]
                        } else {
                            Vec::new()
                        }
                    },
                    StreamType::Stream => {
                        inner.set_src(PlayerSource::Stream);
                        Vec::new()
                    },
                };
                self.inner = Some(inner);
                let delivered = self.answer(Ok(()));
                (commands, delivered)
            },
        }
    }

    /// An engine error: every listener gets an error event. While the
    /// handshake is open it also answers it, and the engine is stopped.
    pub fn on_error(&mut self, message: String) -> (r: (Vec<EngineCommand>, Option<Result<(), PlayerError>>))
        ensures
            final(self).observers@ == notified(old(self).observers@, PlayerEventView::Error(message@)),
            final(self).inner == old(self).inner,
            final(self).renderers == old(self).renderers,
            final(self).stream_type == old(self).stream_type,
            match old(self).handshake {
                Handshake::Waiting | Handshake::Resolved(_) => {
                    &&& r.0@ == seq![EngineCommand::Stop]
                    &&& final(self).handshake == answered(old(self).handshake, Err(PlayerError::Backend(message)))
                    &&& r.1 == delivered(old(self).handshake, Err(PlayerError::Backend(message)))
                },
                _ => {
                    &&& r.0@ == Seq::<EngineCommand>::empty()
                    &&& final(self).handshake == old(self).handshake
                    &&& r.1.is_none()
                },
            },
    {
        self.observers.notify(PlayerEvent::Error(message.clone()));
        match self.handshake {
            Handshake::Waiting | Handshake::Resolved(_) => {
                let delivered = self.answer(Err(PlayerError::Backend(message)));
                (vec![EngineCommand::Stop], delivered)
            },
            _ => (Vec::new(), None),
        }
    }

    /// Closes the handshake after the caller received its answer: later engine
    /// errors only reach the listeners.
    pub fn finish_setup(&mut self) -> (r: Result<(), PlayerError>)
        requires
            old(self).handshake is Resolved,
        ensures
            r == old(self).handshake->Resolved_0,
            final(self).handshake == Handshake::Finished(r),
            final(self).inner == old(self).inner,
            final(self).observers == old(self).observers,
            final(self).renderers == old(self).renderers,
            final(self).stream_type == old(self).stream_type,
    {
        let r = match &self.handshake {
            Handshake::Resolved(answer) => copy_answer(answer),
            _ => Ok(()),
        };
        self.handshake = Handshake::Finished(copy_answer(&r));
        r
    }

    /// Adds a listener of lifecycle events and returns its index.
    pub fn register_event_handler(&mut self) -> (id: usize)
        ensures
            id == old(self).observers@.len(),
            final(self).observers@ == old(self).observers@.push(Seq::empty()),
            final(self).inner == old(self).inner,
            final(self).renderers == old(self).renderers,
            final(self).handshake == old(self).handshake,
            final(self).stream_type == old(self).stream_type,
    {
        self.observers.register()
    }

    /// Adds a frame renderer and returns its index.
    pub fn register_frame_renderer(&mut self) -> (id: usize)
        ensures
            id == old(self).renderers@.len(),
            final(self).renderers@ == old(self).renderers@.push(Seq::empty()),
            final(self).inner == old(self).inner,
            final(self).observers == old(self).observers,
            final(self).handshake == old(self).handshake,
            final(self).stream_type == old(self).stream_type,
    {
        self.renderers.register()
    }

    /// Drops every listener and renderer and stops the session, if there is one.
    pub fn shutdown(&mut self) -> (r: Vec<EngineCommand>)
        ensures
            final(self).observers@ == Seq::<Seq<PlayerEventView>>::empty(),
            final(self).renderers@ == Seq::<Seq<VideoFrame>>::empty(),
            final(self).handshake == old(self).handshake,
            final(self).stream_type == old(self).stream_type,
            match old(self).inner {
                Some(i) => {
                    &&& final(self).inner is Some
                    &&& final(self).inner->Some_0@ == (InnerView {
                        last_metadata: None,
                        source: None,
                        ..i@
                    })
                    &&& r@ == seq![EngineCommand::Stop]
                },
                None => final(self).inner.is_none() && r@ == Seq::<EngineCommand>::empty(),
            },
    {
        self.observers.clear();
        self.renderers.clear();
        match self.inner.take() {
            Some(inner) => {
                let mut inner = inner;
                let r = inner.stop();
                self.inner = Some(inner);
                r
            },
            None => Vec::new(),
        }
    }

    /// The engine reached the end of the medium.
    pub fn on_end_of_stream(&mut self)
        ensures
            final(self).observers@ == notified(old(self).observers@, PlayerEventView::EndOfStream),
            final(self).inner == old(self).inner,
            final(self).renderers == old(self).renderers,
            final(self).handshake == old(self).handshake,
            final(self).stream_type == old(self).stream_type,
    {
        self.observers.notify(PlayerEvent::EndOfStream);
    }

    /// The engine changed its run state.
    pub fn on_state_changed(&mut self, state: PlaybackState)
        ensures
            final(self).observers@ == notified(
                old(self).observers@,
                PlayerEventView::StateChanged(state),
            ),
            final(self).inner == old(self).inner,
            final(self).renderers == old(self).renderers,
            final(self).handshake == old(self).handshake,
            final(self).stream_type == old(self).stream_type,
    {
        self.observers.notify(PlayerEvent::StateChanged(state));
    }

    /// The engine reported the position, in seconds where it is known.
    pub fn on_position_updated(&mut self, seconds: Option<u64>)
        ensures
            final(self).observers@ == match seconds {
                Some(s) => notified(old(self).observers@, PlayerEventView::PositionChanged(s)),
                None => old(self).observers@,
            },
            final(self).inner == old(self).inner,
            final(self).renderers == old(self).renderers,
            final(self).handshake == old(self).handshake,
            final(self).stream_type == old(self).stream_type,
    {
        match seconds {
            Some(s) => self.observers.notify(PlayerEvent::PositionChanged(s)),
            None => {},
        }
    }

    /// The engine finished a seek, at a position in seconds where it is known.
    pub fn on_seek_done(&mut self, seconds: Option<u64>)
        ensures
            final(self).observers@ == match seconds {
                Some(s) => notified(old(self).observers@, PlayerEventView::SeekDone(s)),
                None => old(self).observers@,
            },
            final(self).inner == old(self).inner,
            final(self).renderers == old(self).renderers,
            final(self).handshake == old(self).handshake,
            final(self).stream_type == old(self).stream_type,
    {
        match seconds {
            Some(s) => self.observers.notify(PlayerEvent::SeekDone(s)),
            None => {},
        }
    }

    /// The engine updated its media information. A snapshot that differs from
    /// the cached one replaces it, re-applies the cached rate if the medium is
    /// seekable, and is announced to the listeners; an equal one is ignored.
    pub fn on_media_info_updated(&mut self, info: &MediaInfo) -> (r: Vec<EngineCommand>)
        ensures
            final(self).renderers == old(self).renderers,
            final(self).handshake == old(self).handshake,
            final(self).stream_type == old(self).stream_type,
            match old(self).inner {
                None => *final(self) == *old(self) && r@ == Seq::<EngineCommand>::empty(),
                Some(i) => {
                    let m = metadata_of(*info);
                    &&& final(self).inner is Some
                    &&& final(self).inner->Some_0@ == after_media_info(i@, m)
                    &&& r@ == media_info_commands(i@, m)
                    &&& final(self).observers@ == if metadata_changes(i@, m) {
                        notified(old(self).observers@, PlayerEventView::MetadataUpdated(m))
                    } else {
                        old(self).observers@
                    }
                },
            },
    {
        match self.inner.take() {
            None => Vec::new(),
            Some(inner) => {
                let mut inner = inner;
                let metadata = metadata_from_media_info(info);
                let (changed, commands) = inner.update_metadata(metadata);
                self.inner = Some(inner);
                match changed {
                    Some(m) => self.observers.notify(PlayerEvent::MetadataUpdated(m)),
                    None => {},
                }
                commands
            },
        }
    }

    /// The engine learned a new duration, in nanoseconds where it is known. It
    /// is merged into the cached snapshot, which is then announced; with no
    /// snapshot cached nothing happens.
    pub fn on_duration_changed(&mut self, duration_ns: Option<u64>)
        ensures
            final(self).renderers == old(self).renderers,
            final(self).handshake == old(self).handshake,
            final(self).stream_type == old(self).stream_type,
            match old(self).inner {
                None => *final(self) == *old(self),
                Some(i) => {
                    let d = match duration_ns {
                        Some(ns) => Some(duration_of_nanos(ns)),
                        None => None,
                    };
                    &&& final(self).inner is Some
                    &&& final(self).inner->Some_0@ == after_duration(i@, d)
                    &&& final(self).observers@ == match i@.last_metadata {
                        Some(m) => notified(
                            old(self).observers@,
                            PlayerEventView::MetadataUpdated(MetadataView { duration: d, ..m }),
                        ),
                        None => old(self).observers@,
                    }
                },
            },
    {
        match self.inner.take() {
            None => {},
            Some(inner) => {
                let mut inner = inner;
                let duration = match duration_ns {
                    Some(ns) => Some(MediaDuration::from_nanos(ns)),
                    None => None,
                };
                let updated = inner.update_duration(duration);
                self.inner = Some(inner);
                match updated {
                    Some(m) => self.observers.notify(PlayerEvent::MetadataUpdated(m)),
                    None => {},
                }
            },
        }
    }

    /// The seekable source asks for data: pushing is allowed again.
    pub fn on_need_data(&mut self)
        ensures
            final(self).observers@ == notified(old(self).observers@, PlayerEventView::NeedData),
            final(self).renderers == old(self).renderers,
            final(self).handshake == old(self).handshake,
            final(self).stream_type == old(self).stream_type,
            match old(self).inner {
                None => final(self).inner.is_none(),
                Some(i) => final(self).inner is Some && final(self).inner->Some_0@ == (InnerView {
                    enough_data: false,
                    ..i@
                }),
            },
    {
        match self.inner.take() {
            None => {},
            Some(inner) => {
                let mut inner = inner;
                inner.need_data_signalled();
                self.inner = Some(inner);
            },
        }
        self.observers.notify(PlayerEvent::NeedData);
    }

    /// The seekable source has enough data: pushing is refused until it asks again.
    pub fn on_enough_data(&mut self)
        ensures
            final(self).observers@ == notified(old(self).observers@, PlayerEventView::EnoughData),
            final(self).renderers == old(self).renderers,
            final(self).handshake == old(self).handshake,
            final(self).stream_type == old(self).stream_type,
            match old(self).inner {
                None => final(self).inner.is_none(),
                Some(i) => final(self).inner is Some && final(self).inner->Some_0@ == (InnerView {
                    enough_data: true,
                    ..i@
                }),
            },
    {
        match self.inner.take() {
            None => {},
            Some(inner) => {
                let mut inner = inner;
                inner.enough_data_signalled();
                self.inner = Some(inner);
            },
        }
        self.observers.notify(PlayerEvent::EnoughData);
    }

    /// The seekable source asks for data from byte `offset` on.
    pub fn on_seek_data(&mut self, offset: u64) -> (r: Vec<EngineCommand>)
        ensures
            final(self).observers@ == notified(
                old(self).observers@,
                PlayerEventView::SeekData(offset),
            ),
            r@ == seq![EngineCommand::SetSeekOffset(offset)],
            final(self).inner == old(self).inner,
            final(self).renderers == old(self).renderers,
            final(self).handshake == old(self).handshake,
            final(self).stream_type == old(self).stream_type,
    {
        self.observers.notify(PlayerEvent::SeekData(offset));
        vec![EngineCommand::SetSeekOffset(offset)]
    }

    /// A decoded frame arrived: every renderer gets it, then every listener
    /// learns that the frame changed.
    pub fn on_new_sample(&mut self, frame: &VideoFrame)
        ensures
            final(self).renderers@.len() == old(self).renderers@.len(),
            forall|i: int|
                0 <= i < old(self).renderers@.len() ==> #[trigger] final(self).renderers@[i]
                    == old(self).renderers@[i].push(*frame),
            final(self).observers@ == notified(old(self).observers@, PlayerEventView::FrameUpdated),
            final(self).inner == old(self).inner,
            final(self).handshake == old(self).handshake,
            final(self).stream_type == old(self).stream_type,
    {
        self.renderers.render(frame);
        self.observers.notify(PlayerEvent::FrameUpdated);
    }
}

} // verus!
