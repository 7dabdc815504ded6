use servo_media::events::{
    metadata_from_media_info, track_kind, MediaDuration, MediaInfo, Metadata, PlayerError, PlayerEvent,
    StreamInfo, TrackKind, VideoStreamInfo,
};
use servo_media::frame::{Frame, FrameData, VideoFrame};
use servo_media::observers::{FrameRendererList, PlayerEventObserverList};
use servo_media::player::RequiredElement;
use servo_media::servo_media::{DummyBackend, DummyPlayer, Player, PlayerBackend, ServoMedia};
use std::sync::Arc;

fn stream(kind: TrackKind, codec: Option<&str>) -> StreamInfo {
    StreamInfo { kind, codec: codec.map(|c| c.to_string()) }
}

fn sample_info() -> MediaInfo {
    MediaInfo {
        duration_ns: Some(10_500_000_000),
        container_format: None,
        streams: vec![
            stream(TrackKind::Audio, Some("opus")),
            stream(TrackKind::Video, Some("vp8")),
            stream(TrackKind::Other, Some("subtitles")),
            stream(TrackKind::Audio, None),
        ],
        video_streams: vec![
            VideoStreamInfo { width: 640, height: 480 },
            VideoStreamInfo { width: 1, height: 1 },
        ],
        is_seekable: true,
        is_live: false,
    }
}

#[test]
fn duration_is_split_into_seconds_and_nanos() {
    assert_eq!(
        MediaDuration::from_nanos(10_500_000_000),
        MediaDuration { secs: 10, nanos: 500_000_000 }
    );
    assert_eq!(MediaDuration::from_nanos(999), MediaDuration { secs: 0, nanos: 999 });
}

#[test]
fn metadata_collects_tracks_and_first_video_size() {
    let m = metadata_from_media_info(&sample_info());
    assert_eq!(m.duration, Some(MediaDuration { secs: 10, nanos: 500_000_000 }));
    assert_eq!(m.format, "");
    assert_eq!(m.audio_tracks, vec!["opus".to_string(), String::new()]);
    assert_eq!(m.video_tracks, vec!["vp8".to_string()]);
    assert_eq!((m.width, m.height), (640, 480));
    assert!(m.is_seekable);
    assert!(!m.is_live);
}

#[test]
fn metadata_without_video_or_duration() {
    let info = MediaInfo {
        duration_ns: None,
        container_format: Some("matroska".to_string()),
        streams: vec![],
        video_streams: vec![],
        is_seekable: false,
        is_live: true,
    };
    let m = metadata_from_media_info(&info);
    assert_eq!(m.duration, None);
    assert_eq!(m.format, "matroska");
    assert!(m.audio_tracks.is_empty() && m.video_tracks.is_empty());
    assert_eq!((m.width, m.height), (0, 0));
    assert!(m.is_live);
}

#[test]
fn metadata_equality_and_copies() {
    let a = metadata_from_media_info(&sample_info());
    let b = a.clone();
    assert!(a == b);
    let mut c = a.clone();
    c.audio_tracks[1] = "aac".to_string();
    assert!(a != c);
    let mut d: Metadata = a.clone();
    d.duration = None;
    assert!(a != d);
}

#[test]
fn fan_out_gives_each_listener_one_copy() {
    let mut list = PlayerEventObserverList::new();
    let ids: Vec<usize> = (0..3).map(|_| list.register()).collect();
    assert_eq!(ids, vec![0, 1, 2]);
    list.notify(PlayerEvent::EndOfStream);
    for id in ids {
        assert_eq!(list.take_events(id), vec![PlayerEvent::EndOfStream]);
        assert!(list.take_events(id).is_empty());
    }
}

#[test]
fn events_keep_their_order_and_late_listeners_miss_earlier_ones() {
    let mut list = PlayerEventObserverList::new();
    let first = list.register();
    list.notify(PlayerEvent::NeedData);
    let second = list.register();
    list.notify(PlayerEvent::SeekData(42));
    assert_eq!(list.take_events(first), vec![PlayerEvent::NeedData, PlayerEvent::SeekData(42)]);
    assert_eq!(list.take_events(second), vec![PlayerEvent::SeekData(42)]);
    list.clear();
    assert_eq!(list.len(), 0);
}

#[test]
fn frames_go_to_every_renderer() {
    let mut list = FrameRendererList::new();
    let a = list.register();
    let b = list.register();
    let frame = VideoFrame::new(2, 1, Arc::new(vec![1, 2, 3, 4, 5, 6, 7, 8]));
    list.render(&frame);
    let got_a = list.take_frames(a);
    let got_b = list.take_frames(b);
    assert_eq!(got_a.len(), 1);
    assert_eq!(got_b.len(), 1);
    assert!(Arc::ptr_eq(&got_a[0].data, &frame.data));
    assert_eq!(got_b[0].get_width(), 2);
    assert_eq!(got_b[0].get_height(), 1);
    assert!(list.take_frames(a).is_empty());
    list.clear();
    assert_eq!(list.len(), 0);
}

#[test]
fn frame_accessors() {
    let frame = VideoFrame::new(4, 3, Arc::new(vec![9; 48]));
    assert_eq!(frame.get_texture_id(), Err(()));
    assert_eq!(frame.get_stride(), 0);
    assert_eq!(frame.get_offset(), 0);
    assert_eq!(frame.get_data().to_vec(), vec![9; 48]);
    let gpu = VideoFrame { texture_id: Some(7), ..frame.clone() };
    assert_eq!(gpu.get_texture_id(), Ok(7));
}

#[test]
fn dummy_backend_makes_players_that_do_nothing() {
    DummyBackend::init();
    let media = ServoMedia::new();
    let player: DummyPlayer = media.create_player().unwrap();
    assert!(!player.setup());
    player.play();
    player.stop();
    player.set_input_size(10);
    assert!(!player.push_data(vec![1, 2, 3]));
    assert!(!player.end_of_stream());
    assert!(DummyBackend::make_player().is_ok());
}

#[test]
fn errors_compare_by_value() {
    assert_eq!(
        PlayerError::MissingDependency(RequiredElement::Queue).clone(),
        PlayerError::MissingDependency(RequiredElement::Queue)
    );
    assert_ne!(PlayerError::Backend("a".to_string()), PlayerError::Backend("b".to_string()));
}

#[test]
fn stream_kinds_are_read_from_engine_names() {
    assert_eq!(track_kind(&"audio".to_string()), TrackKind::Audio);
    assert_eq!(track_kind(&"video".to_string()), TrackKind::Video);
    assert_eq!(track_kind(&"text".to_string()), TrackKind::Other);
    assert_eq!(track_kind(&"Audio".to_string()), TrackKind::Other);
}
