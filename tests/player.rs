use servo_media::events::{
    metadata_from_media_info, MediaDuration, MediaInfo, PlaybackState, PlayerError, PlayerEvent,
    StreamType,
};
use servo_media::frame::VideoFrame;
use servo_media::media_stream::GStreamerMediaStream;
use servo_media::player::{
    engine_outcome, EngineCommand, GStreamerPlayer, Handshake, PercentRange, PlayerInner,
    PlayerSource, RequiredElement, TimeRange, DEFAULT_RATE,
};
use servo_media::registry::{MediaStreamId, StreamRegistry};
use std::sync::Arc;

fn info(duration_secs: u64, seekable: bool) -> MediaInfo {
    MediaInfo {
        duration_ns: Some(duration_secs * 1_000_000_000),
        container_format: Some("webm".to_string()),
        streams: vec![],
        video_streams: vec![],
        is_seekable: seekable,
        is_live: false,
    }
}

/// A context whose engine set the source up at once.
fn ready_player(mode: StreamType) -> GStreamerPlayer {
    let mut player = GStreamerPlayer::new(mode);
    assert_eq!(player.start_session(true), Ok(vec![EngineCommand::Pause]));
    let (_, answer) = player.on_source_setup(true);
    assert_eq!(answer, Some(Ok(())));
    assert_eq!(player.finish_setup(), Ok(()));
    player
}

fn inner(player: &mut GStreamerPlayer) -> &mut PlayerInner {
    player.inner.as_mut().unwrap()
}

#[test]
fn dependencies_are_checked_playbin_first() {
    assert_eq!(
        GStreamerPlayer::check_dependencies(false, false),
        Err(PlayerError::MissingDependency(RequiredElement::Playbin))
    );
    assert_eq!(
        GStreamerPlayer::check_dependencies(true, false),
        Err(PlayerError::MissingDependency(RequiredElement::Queue))
    );
    assert_eq!(GStreamerPlayer::check_dependencies(true, true), Ok(()));
}

#[test]
fn failed_registration_leaves_no_session() {
    let mut player = GStreamerPlayer::new(StreamType::Seekable);
    assert_eq!(player.start_session(false), Err(PlayerError::RegistrationFailed));
    assert!(!player.is_set_up());
    assert_eq!(player.handshake, Handshake::Idle);
}

#[test]
fn second_setup_is_a_no_op() {
    let mut player = ready_player(StreamType::Seekable);
    assert_eq!(player.start_session(true), Ok(vec![]));
    assert_eq!(player.handshake, Handshake::Finished(Ok(())));
}

#[test]
fn source_setup_first_resolves_success() {
    for (mode, kind) in [
        (StreamType::Seekable, PlayerSource::Seekable),
        (StreamType::Stream, PlayerSource::Stream),
    ] {
        let mut player = GStreamerPlayer::new(mode);
        player.start_session(true).unwrap();
        assert_eq!(player.handshake, Handshake::Waiting);
        let (_, answer) = player.on_source_setup(true);
        assert_eq!(answer, Some(Ok(())));
        let (commands, late) = player.on_error("late".to_string());
        assert_eq!(commands, vec![EngineCommand::Stop]);
        assert_eq!(late, None);
        assert_eq!(player.finish_setup(), Ok(()));
        assert_eq!(inner(&mut player).source(), Some(kind));
    }
}

#[test]
fn error_first_resolves_backend_error() {
    let mut player = GStreamerPlayer::new(StreamType::Seekable);
    let listener = player.register_event_handler();
    player.start_session(true).unwrap();
    let (commands, answer) = player.on_error("no decoder".to_string());
    assert_eq!(commands, vec![EngineCommand::Stop]);
    assert_eq!(answer, Some(Err(PlayerError::Backend("no decoder".to_string()))));
    assert_eq!(inner(&mut player).source(), None);
    let (_, late) = player.on_source_setup(true);
    assert_eq!(late, None);
    assert_eq!(player.finish_setup(), Err(PlayerError::Backend("no decoder".to_string())));
    assert_eq!(
        player.observers.take_events(listener),
        vec![PlayerEvent::Error("no decoder".to_string())]
    );
    let (commands, none) = player.on_error("later".to_string());
    assert!(commands.is_empty() && none.is_none());
}

#[test]
fn source_setup_without_element_fails() {
    let mut player = GStreamerPlayer::new(StreamType::Stream);
    player.start_session(true).unwrap();
    let (commands, answer) = player.on_source_setup(false);
    assert!(commands.is_empty());
    assert_eq!(answer, Some(Err(PlayerError::Backend("Source setup failed".to_string()))));
    assert_eq!(inner(&mut player).source(), None);
}

#[test]
fn source_setup_announces_known_input_size() {
    let mut player = GStreamerPlayer::new(StreamType::Seekable);
    player.start_session(true).unwrap();
    assert!(inner(&mut player).set_input_size(4096).is_empty());
    let (commands, _) = player.on_source_setup(true);
    assert_eq!(commands, vec![EngineCommand::SetSourceSize(4096)]);
}

#[test]
fn input_size_goes_to_a_bound_seekable_source() {
    let mut player = ready_player(StreamType::Seekable);
    let s = inner(&mut player);
    assert_eq!(s.set_input_size(1000), vec![EngineCommand::SetSourceSize(1000)]);
    assert_eq!(s.set_input_size(0), vec![EngineCommand::SetSourceSize(-1)]);
    assert_eq!(s.input_size(), 0);
    let mut stream_player = ready_player(StreamType::Stream);
    assert!(inner(&mut stream_player).set_input_size(5).is_empty());
}

#[test]
fn rate_is_cached_until_metadata_says_seekable() {
    let mut player = ready_player(StreamType::Seekable);
    let listener = player.register_event_handler();
    let rate = 2.0f64.to_bits();
    assert_eq!(inner(&mut player).rate(), DEFAULT_RATE);
    assert_eq!(inner(&mut player).set_rate(rate), Ok(vec![]));
    assert_eq!(inner(&mut player).rate(), rate);
    assert_eq!(player.on_media_info_updated(&info(10, true)), vec![EngineCommand::SetRate(rate)]);
    assert!(player.on_media_info_updated(&info(10, true)).is_empty());
    assert_eq!(player.on_media_info_updated(&info(20, true)), vec![EngineCommand::SetRate(rate)]);
    assert_eq!(player.observers.take_events(listener).len(), 2);
    assert_eq!(inner(&mut player).set_rate(rate), Ok(vec![EngineCommand::SetRate(rate)]));
}

#[test]
fn stream_mode_never_seeks() {
    let mut player = ready_player(StreamType::Stream);
    assert_eq!(inner(&mut player).seek(0), Err(PlayerError::NonSeekableStream));
    player.on_media_info_updated(&info(100, true));
    assert_eq!(inner(&mut player).seek(1_000_000_000), Err(PlayerError::NonSeekableStream));
}

#[test]
fn seek_is_bounded_by_duration() {
    let mut player = ready_player(StreamType::Seekable);
    assert_eq!(inner(&mut player).seek(50_000_000_000), Ok(vec![EngineCommand::Seek(50_000_000_000)]));
    player.on_media_info_updated(&info(10, true));
    assert_eq!(inner(&mut player).seek(11_000_000_000), Err(PlayerError::SeekOutOfRange));
    assert_eq!(inner(&mut player).seek(10_000_000_001), Err(PlayerError::SeekOutOfRange));
    assert_eq!(
        inner(&mut player).seek(10_000_000_000),
        Ok(vec![EngineCommand::Seek(10_000_000_000)])
    );
}

#[test]
fn seek_counts_fractions_of_a_second() {
    let mut player = ready_player(StreamType::Seekable);
    let mut half = info(10, true);
    half.duration_ns = Some(10_500_000_000);
    player.on_media_info_updated(&half);
    assert_eq!(inner(&mut player).seek(10_700_000_000), Err(PlayerError::SeekOutOfRange));
    assert_eq!(
        inner(&mut player).seek(10_500_000_000),
        Ok(vec![EngineCommand::Seek(10_500_000_000)])
    );
    assert_eq!(
        inner(&mut player).seek(10_200_000_000),
        Ok(vec![EngineCommand::Seek(10_200_000_000)])
    );
}

#[test]
fn push_respects_backpressure() {
    let mut player = ready_player(StreamType::Seekable);
    let listener = player.register_event_handler();
    assert_eq!(inner(&mut player).push_data(vec![1]), Ok(vec![EngineCommand::PushBuffer(vec![1])]));
    player.on_enough_data();
    assert!(inner(&mut player).enough_data());
    assert_eq!(inner(&mut player).push_data(vec![2]), Err(PlayerError::EnoughData));
    inner(&mut player).play();
    assert_eq!(inner(&mut player).push_data(vec![3]), Err(PlayerError::EnoughData));
    player.on_need_data();
    assert_eq!(inner(&mut player).push_data(vec![4]), Ok(vec![EngineCommand::PushBuffer(vec![4])]));
    assert_eq!(
        player.observers.take_events(listener),
        vec![PlayerEvent::EnoughData, PlayerEvent::NeedData]
    );
    assert_eq!(player.on_seek_data(64), vec![EngineCommand::SetSeekOffset(64)]);
}

#[test]
fn push_without_seekable_source_fails() {
    let mut player = ready_player(StreamType::Stream);
    assert_eq!(inner(&mut player).push_data(vec![1]), Err(PlayerError::BufferPushFailed));
    assert!(inner(&mut player).end_of_stream().is_empty());
}

#[test]
fn engine_rejections_become_errors() {
    assert_eq!(engine_outcome(&EngineCommand::PushBuffer(vec![1]), false), Err(PlayerError::BufferPushFailed));
    assert_eq!(engine_outcome(&EngineCommand::EndOfStream, false), Err(PlayerError::EOSFailed));
    assert_eq!(engine_outcome(&EngineCommand::EndOfStream, true), Ok(()));
    assert_eq!(engine_outcome(&EngineCommand::Play, false), Ok(()));
    let mut player = ready_player(StreamType::Seekable);
    assert_eq!(inner(&mut player).end_of_stream(), vec![EngineCommand::EndOfStream]);
}

#[test]
fn metadata_announcements_are_suppressed() {
    let mut player = ready_player(StreamType::Seekable);
    let listener = player.register_event_handler();
    player.on_duration_changed(Some(5_000_000_000));
    assert!(player.observers.take_events(listener).is_empty());
    player.on_media_info_updated(&info(10, false));
    player.on_media_info_updated(&info(10, false));
    let events = player.observers.take_events(listener);
    assert_eq!(events, vec![PlayerEvent::MetadataUpdated(metadata_from_media_info(&info(10, false)))]);
    player.on_duration_changed(Some(12_250_000_000));
    match &player.observers.take_events(listener)[..] {
        [PlayerEvent::MetadataUpdated(m)] => {
            assert_eq!(m.duration, Some(MediaDuration { secs: 12, nanos: 250_000_000 }))
        }
        other => panic!("unexpected events {:?}", other),
    }
    player.on_duration_changed(None);
    let m = inner(&mut player).last_metadata().clone().unwrap();
    assert_eq!(m.duration, None);
}

#[test]
fn buffered_ranges_scale_with_duration() {
    let mut player = ready_player(StreamType::Seekable);
    let ranges = vec![
        PercentRange { start: 0, end: 500_000 },
        PercentRange { start: 250_000, end: 2_000_000 },
    ];
    assert!(inner(&mut player).buffered(&ranges).is_empty());
    player.on_media_info_updated(&info(100, true));
    assert_eq!(
        inner(&mut player).buffered(&ranges),
        vec![TimeRange { start: 0, end: 50 }, TimeRange { start: 25, end: 100 }]
    );
}

#[test]
fn stop_forgets_metadata_and_source() {
    let mut player = ready_player(StreamType::Seekable);
    player.on_media_info_updated(&info(10, true));
    let s = inner(&mut player);
    assert_eq!(s.stop(), vec![EngineCommand::Stop]);
    assert!(s.last_metadata().is_none());
    assert_eq!(s.source(), None);
    assert_eq!(s.push_data(vec![1]), Err(PlayerError::BufferPushFailed));
    assert_eq!(s.pause(), vec![EngineCommand::Pause]);
    assert_eq!(s.set_mute(true), vec![EngineCommand::SetMute(true)]);
    assert_eq!(s.set_volume(0.5f64.to_bits()), vec![EngineCommand::SetVolume(0.5f64.to_bits())]);
    assert_eq!(s.disable_video(), vec![EngineCommand::DisableVideo]);
}

#[test]
fn set_stream_needs_stream_mode_source_and_known_id() {
    let mut registry = StreamRegistry::new();
    let id = GStreamerMediaStream::create_video(&mut registry);
    let mut player = ready_player(StreamType::Stream);
    assert_eq!(
        inner(&mut player).set_stream(&registry, id),
        Ok(vec![EngineCommand::UseSharedClock, EngineCommand::BindStream(id)])
    );
    assert_eq!(
        inner(&mut player).set_stream(&registry, MediaStreamId(99)),
        Err(PlayerError::SetStreamFailed)
    );
    let mut seekable = ready_player(StreamType::Seekable);
    assert_eq!(inner(&mut seekable).set_stream(&registry, id), Err(PlayerError::SetStreamFailed));
    let mut unbound = GStreamerPlayer::new(StreamType::Stream);
    unbound.start_session(true).unwrap();
    assert_eq!(inner(&mut unbound).set_stream(&registry, id), Err(PlayerError::SetStreamFailed));
}

#[test]
fn engine_signals_reach_listeners_and_renderers() {
    let mut player = ready_player(StreamType::Seekable);
    let listener = player.register_event_handler();
    let renderer = player.register_frame_renderer();
    player.on_state_changed(PlaybackState::Playing);
    player.on_position_updated(Some(3));
    player.on_position_updated(None);
    player.on_seek_done(Some(4));
    let frame = VideoFrame::new(1, 1, Arc::new(vec![0, 0, 0, 0]));
    player.on_new_sample(&frame);
    player.on_end_of_stream();
    assert_eq!(
        player.observers.take_events(listener),
        vec![
            PlayerEvent::StateChanged(PlaybackState::Playing),
            PlayerEvent::PositionChanged(3),
            PlayerEvent::SeekDone(4),
            PlayerEvent::FrameUpdated,
            PlayerEvent::EndOfStream,
        ]
    );
    assert_eq!(player.renderers.take_frames(renderer).len(), 1);
    assert_eq!(player.shutdown(), vec![EngineCommand::Stop]);
    assert_eq!(player.observers.len(), 0);
    assert_eq!(player.renderers.len(), 0);
}

#[test]
fn stream_session_end_to_end() {
    let mut player = GStreamerPlayer::new(StreamType::Stream);
    assert_eq!(player.start_session(true), Ok(vec![EngineCommand::Pause]));
    let (_, answer) = player.on_source_setup(true);
    assert_eq!(answer, Some(Ok(())));
    assert_eq!(player.finish_setup(), Ok(()));
    let listener = player.register_event_handler();
    assert!(player.on_media_info_updated(&info(10, false)).is_empty());
    let rate = 2.0f64.to_bits();
    assert_eq!(inner(&mut player).set_rate(rate), Err(PlayerError::NonSeekableStream));
    player.observers.take_events(listener);
    let commands = player.on_media_info_updated(&info(10, true));
    assert_eq!(commands, vec![EngineCommand::SetRate(rate)]);
    let events = player.observers.take_events(listener);
    assert_eq!(events, vec![PlayerEvent::MetadataUpdated(metadata_from_media_info(&info(10, true)))]);
}

#[test]
fn setup_checks_then_starts_once() {
    let mut player = GStreamerPlayer::new(StreamType::Seekable);
    assert_eq!(
        player.setup(true, false, true),
        Err(PlayerError::MissingDependency(RequiredElement::Queue))
    );
    assert_eq!(player.setup(true, true, false), Err(PlayerError::RegistrationFailed));
    assert!(!player.is_set_up());
    assert_eq!(player.setup(true, true, true), Ok(vec![EngineCommand::Pause]));
    assert_eq!(player.handshake, Handshake::Waiting);
    assert_eq!(player.setup(false, false, false), Ok(vec![]));
    let (_, answer) = player.on_source_setup(true);
    assert_eq!(answer, Some(Ok(())));
    assert_eq!(player.finish_setup(), Ok(()));
    assert_eq!(inner(&mut player).source(), Some(PlayerSource::Seekable));
}
