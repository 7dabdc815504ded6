use servo_media::capture::{create_client_capture_stream, CaptureRegistry, ClientCaptureSource, RegistrationError};
use servo_media::media_stream::{
    Caps, Element, GStreamerMediaStream, MediaOutput, MediaSink, MediaStream, MediaStreamType,
    Size2D, VideoBridge,
};
use servo_media::registry::{MediaStreamId, StreamRegistry};

fn chain(registry: &StreamRegistry, id: MediaStreamId) -> Vec<Element> {
    registry.get(id).unwrap().elements().clone()
}

#[test]
fn registry_keeps_streams_until_unregistered() {
    let mut registry = StreamRegistry::new();
    let a = registry.register(GStreamerMediaStream::new(MediaStreamType::Audio, vec![Element::Queue]));
    let b = registry.register(GStreamerMediaStream::new(MediaStreamType::Video, vec![Element::VideoConvert]));
    assert_ne!(a, b);
    assert_eq!(registry.get(a).unwrap().id(), Some(a));
    assert_eq!(registry.get(b).unwrap().stream_type(), MediaStreamType::Video);
    registry.unregister(a);
    assert!(registry.get(a).is_none());
    assert!(registry.contains(b));
    registry.unregister(a);
    assert!(registry.contains(b));
    let c = registry.register(GStreamerMediaStream::new(MediaStreamType::Audio, vec![Element::Queue]));
    assert_ne!(c, a);
    assert!(registry.get(a).is_none());
    assert_eq!(registry.get(c).unwrap().id(), Some(c));
}

#[test]
fn video_stream_chain_and_bridge() {
    let mut registry = StreamRegistry::new();
    let id = GStreamerMediaStream::create_video_from(&mut registry, Element::External(5), None);
    assert_eq!(id, MediaStreamId(1));
    assert_eq!(
        chain(&registry, id),
        vec![Element::ProxySrc(0), Element::VideoConvert, Element::Queue]
    );
    let stream = registry.get(id).unwrap();
    assert_eq!(stream.bridge(), Some(VideoBridge { source: Element::External(5), caps: None, link: 0 }));
    assert_eq!(stream.app_source(), None);
    assert_eq!(stream.pipeline(), None);
}

#[test]
fn sized_video_stream_forces_raw_caps() {
    let mut registry = StreamRegistry::new();
    let size = Size2D { width: 320, height: 240 };
    let id = GStreamerMediaStream::create_video_from(&mut registry, Element::AppSrc(9), Some(size));
    let caps = Caps::RawVideo { width: 320, height: 240 };
    assert_eq!(
        chain(&registry, id),
        vec![Element::ProxySrc(0), Element::CapsFilter(caps), Element::VideoConvert, Element::Queue]
    );
    assert_eq!(registry.get(id).unwrap().bridge().unwrap().caps, Some(caps));
    assert_eq!(
        GStreamerMediaStream::push_data(&registry, id, vec![1, 2, 3]),
        Some((9, vec![1, 2, 3]))
    );
}

#[test]
fn push_data_without_app_source_is_dropped() {
    let mut registry = StreamRegistry::new();
    let id = GStreamerMediaStream::create_video(&mut registry);
    assert_eq!(GStreamerMediaStream::push_data(&registry, id, vec![1]), None);
}

#[test]
fn audio_stream_chain() {
    let mut registry = StreamRegistry::new();
    let id = GStreamerMediaStream::create_audio(&mut registry);
    assert_eq!(id, MediaStreamId(0));
    assert_eq!(
        chain(&registry, id),
        vec![
            Element::AudioTestSrc,
            Element::Queue,
            Element::AudioConvert,
            Element::AudioResample,
            Element::Queue
        ]
    );
    assert_eq!(registry.get(id).unwrap().bridge(), None);
}

#[test]
fn caps_follow_track_type() {
    let mut stream = GStreamerMediaStream::new(MediaStreamType::Audio, vec![Element::AudioTestSrc]);
    assert_eq!(stream.caps(), Caps::Rtp { media: MediaStreamType::Audio, payload: None });
    assert_eq!(
        stream.caps_with_payload(96),
        Caps::Rtp { media: MediaStreamType::Audio, payload: Some(96) }
    );
    stream.set_id(MediaStreamId(3));
    assert_eq!(stream.id(), Some(MediaStreamId(3)));
    assert_eq!(stream.ty(), MediaStreamType::Audio);
    assert_eq!(stream.src_element(), Element::AudioTestSrc);
}

#[test]
fn encoded_branches() {
    let mut video = GStreamerMediaStream::new(MediaStreamType::Video, vec![Element::ProxySrc(4), Element::Queue]);
    video.attach_to_pipeline(11);
    assert_eq!(video.pipeline(), Some(11));
    assert_eq!(
        video.encoded(),
        vec![
            Element::ProxySrc(4),
            Element::Vp8Enc,
            Element::RtpVp8Pay,
            Element::Queue,
            Element::CapsFilter(Caps::Rtp { media: MediaStreamType::Video, payload: None })
        ]
    );
    let mut audio = GStreamerMediaStream::new(MediaStreamType::Audio, vec![Element::AudioTestSrc]);
    assert_eq!(audio.pipeline_or_new(7), 7);
    assert_eq!(audio.pipeline_or_new(8), 7);
    assert_eq!(
        audio.encoded(),
        vec![
            Element::AudioTestSrc,
            Element::OpusEnc,
            Element::RtpOpusPay,
            Element::Queue,
            Element::CapsFilter(Caps::Rtp { media: MediaStreamType::Audio, payload: None })
        ]
    );
}

#[test]
fn proxy_video_routes_like_a_direct_stream() {
    let mut registry = StreamRegistry::new();
    let (proxied, socket) = GStreamerMediaStream::create_proxy(&mut registry, MediaStreamType::Video);
    assert_eq!(socket.proxy_sink(), Element::ProxySink(0));
    assert_eq!(proxied, MediaStreamId(2));
    let proxied_stream = registry.get(proxied).unwrap();
    assert_eq!(proxied_stream.bridge().unwrap().source, Element::ProxySrc(0));
    let direct = GStreamerMediaStream::create_video_from(&mut registry, Element::External(1), None);
    let p = chain(&registry, proxied);
    let d = chain(&registry, direct);
    assert_eq!(p.len(), d.len());
    assert!(matches!(p[0], Element::ProxySrc(_)) && matches!(d[0], Element::ProxySrc(_)));
    assert_eq!(p[1..], d[1..]);
}

#[test]
fn proxy_audio_starts_at_the_pair() {
    let mut registry = StreamRegistry::new();
    let (id, socket) = GStreamerMediaStream::create_proxy(&mut registry, MediaStreamType::Audio);
    assert_eq!(id, MediaStreamId(1));
    assert_eq!(socket.proxy_sink, Element::ProxySink(0));
    assert_eq!(chain(&registry, id)[0], Element::ProxySrc(0));
}

#[test]
fn media_sink_attaches_streams() {
    let mut registry = StreamRegistry::new();
    let audio = GStreamerMediaStream::create_audio(&mut registry);
    let mut sink = MediaSink::new();
    let first = sink.add_stream(&mut registry, audio, 40);
    assert_eq!(first.pipeline, 40);
    assert!(first.created);
    assert_eq!(first.upstream, Element::Queue);
    assert_eq!(first.sink, Element::AutoAudioSink);
    let again = sink.add_stream(&mut registry, audio, 41);
    assert_eq!(again.pipeline, 40);
    assert!(!again.created);
    assert_eq!(sink.streams(), &vec![audio, audio]);
    assert_eq!(registry.get(audio).unwrap().pipeline(), Some(40));
}

#[test]
fn client_capture_stream_registers_both() {
    let mut streams = StreamRegistry::new();
    let mut captures = CaptureRegistry::new();
    let id = create_client_capture_stream(&mut streams, &mut captures, Ok(()), 77).unwrap();
    assert_eq!(
        captures.get_capture_source(id),
        Some(ClientCaptureSource { source: Element::AppSrc(77), id: Some(id) })
    );
    assert_eq!(GStreamerMediaStream::push_data(&streams, id, vec![5]), Some((77, vec![5])));
    captures.unregister_capture_source(id);
    assert_eq!(captures.get_capture_source(id), None);
}

#[test]
fn client_capture_stream_registration_failure_changes_nothing() {
    let mut streams = StreamRegistry::new();
    let mut captures = CaptureRegistry::new();
    let err = RegistrationError { message: "no element".to_string() };
    assert_eq!(
        create_client_capture_stream(&mut streams, &mut captures, Err(err.clone()), 1),
        Err(err)
    );
    assert!(!streams.contains(MediaStreamId(0)) && !streams.contains(MediaStreamId(1)));
    assert_eq!(captures.get_capture_source(MediaStreamId(1)), None);
    let id = GStreamerMediaStream::create_audio(&mut streams);
    assert_eq!(id, MediaStreamId(0));
}

#[test]
fn capture_registry_holds_one_source_per_stream() {
    let mut captures = CaptureRegistry::new();
    let id = MediaStreamId(4);
    captures.register_capture_source(ClientCaptureSource { source: Element::AppSrc(1), id: Some(id) });
    captures.register_capture_source(ClientCaptureSource { source: Element::AppSrc(2), id: Some(id) });
    assert_eq!(captures.get_capture_source(id).unwrap().source, Element::AppSrc(2));
    let fresh = ClientCaptureSource::new(3);
    assert_eq!(fresh.id, None);
}

#[test]
fn capture_ids_stay_below_the_stream_numbers() {
    let mut streams = StreamRegistry::new();
    let mut captures = CaptureRegistry::new();
    assert_eq!(captures.next_free(), 0);
    let a = create_client_capture_stream(&mut streams, &mut captures, Ok(()), 1).unwrap();
    let b = create_client_capture_stream(&mut streams, &mut captures, Ok(()), 2).unwrap();
    assert_ne!(a, b);
    assert!(captures.next_free() <= streams.next_number());
    assert_eq!(captures.get_capture_source(a).unwrap().id, Some(a));
    assert_eq!(captures.get_capture_source(b).unwrap().source, Element::AppSrc(2));
}
