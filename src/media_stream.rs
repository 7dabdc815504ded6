//! Media streams: a track as a chain of engine elements, and the routing of a
//! stream into other pipelines through proxy pairs.
use vstd::prelude::*;

use crate::registry::{MediaStreamId, StreamRegistry};

verus! {

/// The kind of track a stream carries.
#[derive(Clone, Copy, Debug, PartialEq, Eq, Structural)]
pub enum MediaStreamType {
    Audio,
    Video,
}

/// Pixel dimensions requested for a video source.
#[derive(Clone, Copy, Debug, PartialEq, Eq, Structural)]
pub struct Size2D {
    pub width: u32,
    pub height: u32,
}

/// A media format restriction.
#[derive(Clone, Copy, Debug, PartialEq, Eq, Structural)]
pub enum Caps {
    /// RTP packets: Opus for audio, VP8 for video, with an optional payload type.
    Rtp { media: MediaStreamType, payload: Option<i32> },
    /// Raw BGRA video of the given size.
    RawVideo { width: u32, height: u32 },
}

/// One processing stage. Elements that must be told apart across pipelines
/// carry a number: a proxy pair's number, or the application's own handle for
/// an element it supplied.
#[derive(Clone, Copy, Debug, PartialEq, Eq, Structural)]
pub enum Element {
    /// Consumer end of proxy pair `n`: data enters here.
    ProxySrc(u64),
    /// Producer end of proxy pair `n`: data sent here leaves at `ProxySrc(n)`.
    ProxySink(u64),
    CapsFilter(Caps),
    VideoConvert,
    AudioConvert,
    AudioResample,
    Queue,
    /// VP8 encoder tuned for real time.
    Vp8Enc,
    RtpVp8Pay,
    OpusEnc,
    RtpOpusPay,
    /// Synthetic moving-ball video, live.
    VideoTestSrc,
    /// Synthetic sine wave, live.
    AudioTestSrc,
    AutoAudioSink,
    AutoVideoSink,
    /// An element fed with bytes by the application.
    AppSrc(u64),
    /// Any other element the application supplied.
    External(u64),
}

/// How an externally supplied video source is bridged into a stream: the
/// source feeds a decoding pipeline of its own, whose output leaves through
/// `ProxySink(link)` and enters the stream's chain at `ProxySrc(link)`.
#[derive(Clone, Copy, Debug, PartialEq, Eq, Structural)]
pub struct VideoBridge {
    pub source: Element,
    /// Format forced on the source, where a size was requested.
    pub caps: Option<Caps>,
    pub link: u64,
}

/// The value of a [`GStreamerMediaStream`].
pub struct StreamView {
    pub id: Option<MediaStreamId>,
    pub ty: MediaStreamType,
    pub elements: Seq<Element>,
    pub pipeline: Option<u64>,
    pub bridge: Option<VideoBridge>,
    pub video_app_source: Option<u64>,
}

/// One track: a chain of elements, at most once attached to a pipeline.
#[derive(Debug)]
pub struct GStreamerMediaStream {
    id: Option<MediaStreamId>,
    type_: MediaStreamType,
    elements: Vec<Element>,
    pipeline: Option<u64>,
    bridge: Option<VideoBridge>,
    video_app_source: Option<u64>,
}

impl View for GStreamerMediaStream {
    type V = StreamView;

    closed spec fn view(&self) -> StreamView {
        StreamView {
            id: self.id,
            ty: self.type_,
            elements: self.elements@,
            pipeline: self.pipeline,
            bridge: self.bridge,
            video_app_source: self.video_app_source,
        }
    }
}

/// The format of the encoded output of a stream of type `ty`.
pub open spec fn rtp_caps(ty: MediaStreamType) -> Caps {
    Caps::Rtp { media: ty, payload: None }
}

/// The branch that `encoded` appends after the source element `src`: encoder,
/// RTP payloader, queue and a caps filter, which is the tap.
pub open spec fn encoded_chain(ty: MediaStreamType, src: Element) -> Seq<Element> {
    match ty {
        MediaStreamType::Video => seq![
            src,
            Element::Vp8Enc,
            Element::RtpVp8Pay,
            Element::Queue,
            Element::CapsFilter(rtp_caps(ty)),
        ],
        MediaStreamType::Audio => seq![
            src,
            Element::OpusEnc,
            Element::RtpOpusPay,
            Element::Queue,
            Element::CapsFilter(rtp_caps(ty)),
        ],
    }
}

/// The raw video format that a requested size imposes.
pub open spec fn size_caps(size: Option<Size2D>) -> Option<Caps> {
    match size {
        Some(sz) => Some(Caps::RawVideo { width: sz.width, height: sz.height }),
        None => None,
    }
}

/// The chain of a video stream fed through proxy pair `link`.
pub open spec fn video_chain(link: u64, size: Option<Size2D>) -> Seq<Element> {
    match size_caps(size) {
        Some(c) => seq![Element::ProxySrc(link), Element::CapsFilter(c), Element::VideoConvert, Element::Queue],
        None => seq![Element::ProxySrc(link), Element::VideoConvert, Element::Queue],
    }
}

/// The chain of an audio stream read from `source`.
pub open spec fn audio_chain(source: Element) -> Seq<Element> {
    seq![source, Element::Queue, Element::AudioConvert, Element::AudioResample, Element::Queue]
}

/// The handle of an element fed with bytes by the application.
pub open spec fn app_source_of(e: Element) -> Option<u64> {
    match e {
        Element::AppSrc(h) => Some(h),
        _ => None,
    }
}

/// A fresh, unattached video stream bridged from `source` through `link`.
pub open spec fn video_stream(source: Element, size: Option<Size2D>, link: u64) -> StreamView {
    StreamView {
        id: None,
        ty: MediaStreamType::Video,
        elements: video_chain(link, size),
        pipeline: None,
        bridge: Some(VideoBridge { source, caps: size_caps(size), link }),
        video_app_source: app_source_of(source),
    }
}

/// A fresh, unattached audio stream read from `source`.
pub open spec fn audio_stream(source: Element) -> StreamView {
    StreamView {
        id: None,
        ty: MediaStreamType::Audio,
        elements: audio_chain(source),
        pipeline: None,
        bridge: None,
        video_app_source: None,
    }
}

/// Operations every stream kind offers to the registry.
pub trait MediaStream {
    fn set_id(&mut self, id: MediaStreamId);

    fn ty(&self) -> MediaStreamType;
}

impl MediaStream for GStreamerMediaStream {
    fn set_id(&mut self, id: MediaStreamId)
        ensures
            final(self)@ == (StreamView { id: Some(id), ..old(self)@ }),
            old(self).wf() ==> final(self).wf(),
    {
        self.id = Some(id);
    }

    fn ty(&self) -> (r: MediaStreamType)
        ensures
            r == self@.ty,
    {
        self.type_
    }
}

impl GStreamerMediaStream {
    /// The stream is well formed: its chain is not empty.
    pub closed spec fn wf(&self) -> bool {
        self.elements@.len() > 0
    }

    /// A fresh stream of type `type_` over the chain `elements`.
    pub fn new(type_: MediaStreamType, elements: Vec<Element>) -> (r: Self)
        requires
            elements@.len() > 0,
        ensures
            r.wf(),
            r@ == (StreamView {
                id: None,
                ty: type_,
                elements: elements@,
                pipeline: None,
                bridge: None,
                video_app_source: None,
            }),
    {
        GStreamerMediaStream {
            id: None,
            type_,
            elements,
            pipeline: None,
            bridge: None,
            video_app_source: None,
        }
    }

    /// Records the registry identifier of the stream.
    pub fn assign_id(&mut self, id: MediaStreamId)
        ensures
            final(self)@ == (StreamView { id: Some(id), ..old(self)@ }),
            old(self).wf() ==> final(self).wf(),
    {
        self.id = Some(id);
    }

    /// The registry identifier, once registered.
    pub fn id(&self) -> (r: Option<MediaStreamId>)
        ensures
            r == self@.id,
    {
        self.id
    }

    /// The kind of track.
    pub fn stream_type(&self) -> (r: MediaStreamType)
        ensures
            r == self@.ty,
    {
        self.type_
    }

    /// The chain, source first.
    pub fn elements(&self) -> (r: &Vec<Element>)
        ensures
            r@ == self@.elements,
    {
        &self.elements
    }

    /// The pipeline the stream is attached to.
    pub fn pipeline(&self) -> (r: Option<u64>)
        ensures
            r == self@.pipeline,
    {
        self.pipeline
    }

    /// How an outside video source feeds the stream, if it does.
    pub fn bridge(&self) -> (r: Option<VideoBridge>)
        ensures
            r == self@.bridge,
    {
        self.bridge
    }

    /// The encoded output format of the stream.
    pub fn caps(&self) -> (r: Caps)
        ensures
            r == rtp_caps(self@.ty),
    {
        Caps::Rtp { media: self.type_, payload: None }
    }

    /// The encoded output format with an RTP payload type.
    pub fn caps_with_payload(&self, payload: i32) -> (r: Caps)
        ensures
            r == (Caps::Rtp { media: self@.ty, payload: Some(payload) }),
    {
        Caps::Rtp { media: self.type_, payload: Some(payload) }
    }

    /// The first element of the chain.
    pub fn src_element(&self) -> (r: Element)
        requires
            self.wf(),
        ensures
            r == self@.elements[0],
    {
        self.elements[0]
    }

    /// Binds the chain to `pipeline`: its elements are to be added there,
    /// linked in order and brought to the pipeline's state. A stream is
    /// attached at most once.
    pub fn attach_to_pipeline(&mut self, pipeline: u64)
        requires
            old(self)@.pipeline.is_none(),
        ensures
            final(self)@ == (StreamView { pipeline: Some(pipeline), ..old(self)@ }),
            old(self).wf() ==> final(self).wf(),
    {
        self.pipeline = Some(pipeline);
    }

    /// The pipeline the stream is attached to; where there is none, attaches
    /// the stream to `fresh`, a new pipeline on the process-wide shared clock.
    pub fn pipeline_or_new(&mut self, fresh: u64) -> (r: u64)
        ensures
            r == match old(self)@.pipeline {
                Some(p) => p,
                None => fresh,
            },
            final(self)@ == (StreamView { pipeline: Some(r), ..old(self)@ }),
            old(self).wf() ==> final(self).wf(),
    {
        match self.pipeline {
            Some(p) => p,
            None => {
                self.attach_to_pipeline(fresh);
                fresh
            },
        }
    }

    /// The encoding branch to add to the stream's pipeline after its source
    /// element; its last element exposes the encoded, network-ready output.
    pub fn encoded(&self) -> (r: Vec<Element>)
        requires
            self.wf(),
            self@.pipeline.is_some(),
        ensures
            r@ == encoded_chain(self@.ty, self@.elements[0]),
    {
        let src = self.src_element();
        let capsfilter = Element::CapsFilter(self.caps());
        let r = match self.type_ {
            MediaStreamType::Video => vec![
                src,
                Element::Vp8Enc,
                Element::RtpVp8Pay,
                Element::Queue,
                capsfilter,
            ],
            MediaStreamType::Audio => vec![
                src,
                Element::OpusEnc,
                Element::RtpOpusPay,
                Element::Queue,
                capsfilter,
            ],
        };
        proof {
            assert(r@ =~= encoded_chain(self@.ty, self@.elements[0]));
        }
        r
    }

    /// Records the element through which the application pushes video bytes.
    pub fn set_video_app_source(&mut self, source: u64)
        ensures
            final(self)@ == (StreamView { video_app_source: Some(source), ..old(self)@ }),
            old(self).wf() ==> final(self).wf(),
    {
        self.video_app_source = Some(source);
    }

    /// Where bytes pushed to this stream go: the application-fed source, if any.
    pub fn app_source(&self) -> (r: Option<u64>)
        ensures
            r == self@.video_app_source,
    {
        self.video_app_source
    }

    /// Registers a video stream fed from `source`, optionally forced to `size`.
    /// The chain starts at the consumer end of a fresh proxy pair, then a caps
    /// filter for the size, a converter and a queue; `source` feeds the pair's
    /// producer end through a decoding pipeline of its own.
    pub fn create_video_from(
        registry: &mut StreamRegistry,
        source: Element,
        size: Option<Size2D>,
    ) -> (id: MediaStreamId)
        requires
            old(registry).wf(),
            old(registry)@.next + 2 <= u64::MAX,
        ensures
            final(registry).wf(),
            !old(registry)@.streams.contains_key(id.0),
            id.0 == old(registry)@.next + 1,
            final(registry)@.next == old(registry)@.next + 2,
            final(registry)@.streams == old(registry)@.streams.insert(
                id.0,
                StreamView { id: Some(id), ..video_stream(source, size, old(registry)@.next) },
            ),
    {
        let link = registry.fresh_number();
        let mut elements: Vec<Element> = vec![Element::ProxySrc(link)];
        let caps = match size {
            Some(sz) => {
                let c = Caps::RawVideo { width: sz.width, height: sz.height };
                elements.push(Element::CapsFilter(c));
                Some(c)
            },
            None => None,
        };
        elements.push(Element::VideoConvert);
        elements.push(Element::Queue);
        proof {
            assert(elements@ =~= video_chain(link, size));
        }
        let mut stream = GStreamerMediaStream::new(MediaStreamType::Video, elements);
        stream.bridge = Some(VideoBridge { source, caps, link });
        match source {
            Element::AppSrc(h) => stream.set_video_app_source(h),
            _ => {},
        }
        registry.register(stream)
    }

    /// Registers a synthetic test-pattern video stream.
    pub fn create_video(registry: &mut StreamRegistry) -> (id: MediaStreamId)
        requires
            old(registry).wf(),
            old(registry)@.next + 2 <= u64::MAX,
        ensures
            final(registry).wf(),
            !old(registry)@.streams.contains_key(id.0),
            id.0 == old(registry)@.next + 1,
            final(registry)@.next == old(registry)@.next + 2,
            final(registry)@.streams == old(registry)@.streams.insert(
                id.0,
                StreamView {
                    id: Some(id),
                    ..video_stream(Element::VideoTestSrc, None, old(registry)@.next)
                },
            ),
    {
        Self::create_video_from(registry, Element::VideoTestSrc, None)
    }

    /// Registers an audio stream read from `source`: the source, a queue, a
    /// converter, a resampler and a queue.
    pub fn create_audio_from(registry: &mut StreamRegistry, source: Element) -> (id: MediaStreamId)
        requires
            old(registry).wf(),
            old(registry)@.next < u64::MAX,
        ensures
            final(registry).wf(),
            !old(registry)@.streams.contains_key(id.0),
            id.0 == old(registry)@.next,
            final(registry)@.next == old(registry)@.next + 1,
            final(registry)@.streams == old(registry)@.streams.insert(
                id.0,
                StreamView { id: Some(id), ..audio_stream(source) },
            ),
    {
        let elements: Vec<Element> = vec![
            source,
            Element::Queue,
            Element::AudioConvert,
            Element::AudioResample,
            Element::Queue,
        ];
        proof {
            assert(elements@ =~= audio_chain(source));
        }
        registry.register(GStreamerMediaStream::new(MediaStreamType::Audio, elements))
    }

    /// Registers a synthetic sine-wave audio stream.
    pub fn create_audio(registry: &mut StreamRegistry) -> (id: MediaStreamId)
        requires
            old(registry).wf(),
            old(registry)@.next < u64::MAX,
        ensures
            final(registry).wf(),
            !old(registry)@.streams.contains_key(id.0),
            id.0 == old(registry)@.next,
            final(registry)@.next == old(registry)@.next + 1,
            final(registry)@.streams == old(registry)@.streams.insert(
                id.0,
                StreamView { id: Some(id), ..audio_stream(Element::AudioTestSrc) },
            ),
    {
        Self::create_audio_from(registry, Element::AudioTestSrc)
    }

    /// Registers a stream of type `ty` rooted at the consumer end of a fresh
    /// proxy pair, and returns it with a socket exposing the producer end, to
    /// which another component sends its output.
    pub fn create_proxy(registry: &mut StreamRegistry, ty: MediaStreamType) -> (r: (
        MediaStreamId,
        GstreamerMediaSocket,
    ))
        requires
            old(registry).wf(),
            old(registry)@.next + 3 <= u64::MAX,
        ensures
            final(registry).wf(),
            !old(registry)@.streams.contains_key(r.0.0),
            r.1.proxy_sink == Element::ProxySink(old(registry)@.next),
            ({
                let link = old(registry)@.next;
                let source = Element::ProxySrc(link);
                match ty {
                    MediaStreamType::Audio => {
                        &&& r.0.0 == link + 1
                        &&& final(registry)@.next == link + 2
                        &&& final(registry)@.streams == old(registry)@.streams.insert(
                            r.0.0,
                            StreamView { id: Some(r.0), ..audio_stream(source) },
                        )
                    },
                    MediaStreamType::Video => {
                        &&& r.0.0 == link + 2
                        &&& final(registry)@.next == link + 3
                        &&& final(registry)@.streams == old(registry)@.streams.insert(
                            r.0.0,
                            StreamView { id: Some(r.0), ..video_stream(source, None, (link + 1) as u64) },
                        )
                    },
                }
            }),
    {
        let link = registry.fresh_number();
        let proxy_src = Element::ProxySrc(link);
        let proxy_sink = Element::ProxySink(link);
        let id = match ty {
            MediaStreamType::Audio => Self::create_audio_from(registry, proxy_src),
            MediaStreamType::Video => Self::create_video_from(registry, proxy_src, None),
        };
        (id, GstreamerMediaSocket { proxy_sink })
    }

    /// Routes bytes pushed to stream `id`: to its application-fed source,
    /// where it has one; otherwise they are dropped.
    pub fn push_data(registry: &StreamRegistry, id: MediaStreamId, data: Vec<u8>) -> (r: Option<
        (u64, Vec<u8>),
    >)
        requires
            registry.wf(),
            registry@.streams.contains_key(id.0),
        ensures
            r == match registry@.streams[id.0].video_app_source {
                Some(h) => Some((h, data)),
                None => None,
            },
    {
        match registry.get(id) {
            Some(stream) => match stream.app_source() {
                Some(h) => Some((h, data)),
                None => None,
            },
            None => None,
        }
    }
}

/// The producer end of a proxy pair, for another component to send into.
#[derive(Clone, Copy, Debug, PartialEq, Eq, Structural)]
pub struct GstreamerMediaSocket {
    pub proxy_sink: Element,
}

impl GstreamerMediaSocket {
    /// The producer element.
    pub fn proxy_sink(&self) -> (r: Element)
        ensures
            r == self.proxy_sink,
    {
        self.proxy_sink
    }
}

/// How a stream reaches an output: the sink element to add to `pipeline` and
/// link after `upstream`, the last element of the stream's chain, before the
/// pipeline is set playing.
#[derive(Clone, Copy, Debug, PartialEq, Eq, Structural)]
pub struct SinkAttachment {
    pub pipeline: u64,
    /// Whether `pipeline` was created for this: it then has the shared clock
    /// and base time, and the stream's chain still has to be added to it.
    pub created: bool,
    pub upstream: Element,
    pub sink: Element,
}

/// The platform's default output element for a track type.
pub open spec fn default_sink(ty: MediaStreamType) -> Element {
    match ty {
        MediaStreamType::Audio => Element::AutoAudioSink,
        MediaStreamType::Video => Element::AutoVideoSink,
    }
}

/// A consumer of streams.
pub trait MediaOutput {
    fn add_stream(&mut self, registry: &mut StreamRegistry, id: MediaStreamId, fresh_pipeline: u64) -> SinkAttachment
        requires
            old(registry).wf(),
            old(registry)@.streams.contains_key(id.0),
    ;
}

/// Plays streams on the platform's default audio and video outputs.
pub struct MediaSink {
    streams: Vec<MediaStreamId>,
}

impl View for MediaSink {
    type V = Seq<MediaStreamId>;

    /// The streams added so far, in order.
    closed spec fn view(&self) -> Seq<MediaStreamId> {
        self.streams@
    }
}

impl MediaSink {
    /// A sink playing nothing.
    pub fn new() -> (r: Self)
        ensures
            r@ == Seq::<MediaStreamId>::empty(),
    {
        MediaSink { streams: Vec::new() }
    }

    /// The streams added so far, in order.
    pub fn streams(&self) -> (r: &Vec<MediaStreamId>)
        ensures
            r@ == self@,
    {
        &self.streams
    }
}

impl MediaOutput for MediaSink {
    /// Sends stream `id` to the default output of its type: the stream's
    /// pipeline, or `fresh_pipeline` with the stream attached to it, gets a sink
    /// after the stream's last element.
    fn add_stream(&mut self, registry: &mut StreamRegistry, id: MediaStreamId, fresh_pipeline: u64) -> (r: SinkAttachment)
        ensures
            final(registry).wf(),
            final(registry)@.next == old(registry)@.next,
            ({
                let before = old(registry)@.streams[id.0];
                &&& r.created == before.pipeline.is_none()
                &&& r.pipeline == match before.pipeline {
                    Some(p) => p,
                    None => fresh_pipeline,
                }
                &&& r.upstream == before.elements.last()
                &&& r.sink == default_sink(before.ty)
                &&& final(registry)@.streams == old(registry)@.streams.insert(
                    id.0,
                    StreamView { pipeline: Some(r.pipeline), ..before },
                )
            }),
            final(self)@ == old(self)@.push(id),
    {
        let taken = registry.take(id);
        match taken {
            Some(stream) => {
                let mut stream = stream;
                let created = stream.pipeline().is_none();
                let pipeline = stream.pipeline_or_new(fresh_pipeline);
                let n = stream.elements().len();
                let upstream = stream.elements()[n - 1];
                let sink = match stream.stream_type() {
                    MediaStreamType::Audio => Element::AutoAudioSink,
                    MediaStreamType::Video => Element::AutoVideoSink,
                };
                registry.put_back(id, stream);
                proof {
                    assert(registry@.streams =~= old(registry)@.streams.insert(
                        id.0,
                        StreamView { pipeline: Some(pipeline), ..old(registry)@.streams[id.0] },
                    ));
                }
                self.streams.push(id);
                SinkAttachment { pipeline, created, upstream, sink }
            },
            None => {
                proof {
                    assert(false);
                }
                SinkAttachment {
                    pipeline: fresh_pipeline,
                    created: true,
                    upstream: Element::Queue,
                    sink: Element::AutoVideoSink,
                }
            },
        }
    }
}

} // verus!
