use splayer_presence::channel::{
    disable, enable, init, send, shutdown, update_config, update_metadata, update_play_state,
    update_timeline, Received, RpcMessage,
};
use splayer_presence::model::{
    DiscordConfigPayload, DiscordDisplayMode, DiscordPlayStateParam, MetadataPayload,
    PlaybackStatus, TimelinePayload,
};
use splayer_presence::smtc::{
    disable_smtc, dispatch_event, enable_smtc, genre_tag, initialize, register_event_callback,
    to_hns, RepeatMode, SmtcButton, SmtcCall, SmtcContext, SmtcEvent, SmtcEventType, SmtcState,
    SmtcTeardown,
};

fn track() -> MetadataPayload {
    MetadataPayload {
        song_name: "Song".to_string(),
        author_name: "Artist".to_string(),
        album_name: "Album".to_string(),
        original_cover_url: None,
        ncm_id: None,
        duration: Some(1_000),
    }
}

#[test]
fn channel_hands_commands_out_in_the_order_sent() {
    let mut channel = init();
    assert!(channel.accepts());
    assert_eq!(channel.len(), 0);
    assert_eq!(channel.recv(), Received::Empty);
    let config = DiscordConfigPayload {
        show_when_paused: true,
        display_mode: Some(DiscordDisplayMode::State),
    };
    let position = TimelinePayload { current_time: 5, total_time: 9 };
    enable(&mut channel);
    update_config(&mut channel, config);
    update_metadata(&mut channel, track());
    update_play_state(&mut channel, PlaybackStatus::Playing);
    update_timeline(&mut channel, position);
    disable(&mut channel);
    send(&mut channel, RpcMessage::Enable);
    assert_eq!(channel.len(), 7);
    let expected = [
        RpcMessage::Enable,
        RpcMessage::Config(config),
        RpcMessage::Metadata(track()),
        RpcMessage::PlayState(PlaybackStatus::Playing),
        RpcMessage::Timeline(position),
        RpcMessage::Disable,
        RpcMessage::Enable,
    ];
    for msg in expected {
        assert_eq!(channel.recv(), Received::Message(msg));
    }
    assert_eq!(channel.recv(), Received::Empty);
    assert_eq!(channel.len(), 0);
}

#[test]
fn channel_after_shutdown_drains_and_drops() {
    let mut channel = init();
    enable(&mut channel);
    disable(&mut channel);
    assert!(shutdown(&mut channel));
    assert!(!channel.accepts());
    // What was sent before still arrives, what is sent now is dropped.
    enable(&mut channel);
    update_metadata(&mut channel, track());
    assert_eq!(channel.len(), 2);
    assert_eq!(channel.recv(), Received::Message(RpcMessage::Enable));
    assert_eq!(channel.recv(), Received::Message(RpcMessage::Disable));
    assert_eq!(channel.recv(), Received::Disconnected);
    assert_eq!(channel.recv(), Received::Disconnected);
    assert!(!shutdown(&mut channel));
}

#[test]
fn status_is_read_from_its_name() {
    assert_eq!(PlaybackStatus::from("Playing".to_string()), PlaybackStatus::Playing);
    assert_eq!(PlaybackStatus::from("Paused".to_string()), PlaybackStatus::Paused);
    assert_eq!(PlaybackStatus::from("playing".to_string()), PlaybackStatus::Paused);
    assert_eq!(PlaybackStatus::from(String::new()), PlaybackStatus::Paused);
    assert_eq!(PlaybackStatus::from_name("Playing"), PlaybackStatus::Playing);
    assert_eq!(PlaybackStatus::from_name("Playing!"), PlaybackStatus::Paused);
    let report = DiscordPlayStateParam { status: "Playing".to_string() };
    assert_eq!(report.playback_status(), PlaybackStatus::Playing);
}

#[test]
fn buttons_become_events() {
    let passed = [
        (SmtcButton::Play, SmtcEventType::Play),
        (SmtcButton::Pause, SmtcEventType::Pause),
        (SmtcButton::Stop, SmtcEventType::Stop),
        (SmtcButton::Next, SmtcEventType::NextSong),
        (SmtcButton::Previous, SmtcEventType::PreviousSong),
    ];
    for (button, type_) in passed {
        assert_eq!(SmtcEvent::from_button(button), Some(SmtcEvent { type_, position_ms: None }));
    }
    let dropped = [
        SmtcButton::Record,
        SmtcButton::FastForward,
        SmtcButton::Rewind,
        SmtcButton::ChannelUp,
        SmtcButton::ChannelDown,
    ];
    for button in dropped {
        assert_eq!(SmtcEvent::from_button(button), None);
    }
    assert_eq!(
        SmtcEvent::new(SmtcEventType::ToggleShuffle),
        SmtcEvent { type_: SmtcEventType::ToggleShuffle, position_ms: None }
    );
    assert_eq!(
        SmtcEvent::seek(61_500),
        SmtcEvent { type_: SmtcEventType::Seek, position_ms: Some(61_500) }
    );
}

#[test]
fn milliseconds_become_hundred_nanosecond_units() {
    assert_eq!(to_hns(0), 0);
    assert_eq!(to_hns(1), 10_000);
    assert_eq!(to_hns(-3), -30_000);
    assert_eq!(to_hns(180_000), 1_800_000_000);
    assert_eq!(to_hns(922_337_203_685_477), 9_223_372_036_854_770_000);
    assert_eq!(to_hns(922_337_203_685_478), i64::MAX);
    assert_eq!(to_hns(i64::MAX), i64::MAX);
    assert_eq!(to_hns(-922_337_203_685_478), i64::MIN);
    assert_eq!(to_hns(i64::MIN), i64::MIN);
}

#[test]
fn genre_carries_positive_identifiers_only() {
    assert_eq!(genre_tag(Some(1_234_567)), Some("NCM-1234567".to_string()));
    assert_eq!(genre_tag(Some(1)), Some("NCM-1".to_string()));
    assert_eq!(genre_tag(Some(0)), None);
    assert_eq!(genre_tag(Some(-1)), None);
    assert_eq!(genre_tag(None), None);
}

#[test]
fn controls_without_session_do_nothing() {
    let mut state = SmtcState::new();
    assert_eq!(state.context, None);
    assert!(!state.active());
    assert_eq!(enable_smtc(&mut state), None);
    assert_eq!(disable_smtc(&mut state), None);
    assert!(!register_event_callback(&mut state));
    assert!(!dispatch_event(&state));
    assert_eq!(splayer_presence::smtc::update_play_state(&state, PlaybackStatus::Playing), None);
    assert_eq!(splayer_presence::smtc::update_play_mode(&state, true, RepeatMode::List), None);
    assert_eq!(splayer_presence::smtc::update_timeline(&state, 1, 2), None);
    assert_eq!(splayer_presence::smtc::update_metadata(&mut state), None);
    assert_eq!(splayer_presence::smtc::shutdown(&mut state), None);
    assert_eq!(state.context, None);
}

#[test]
fn controls_update_only_while_enabled() {
    let mut state = SmtcState::new();
    assert_eq!(initialize(&mut state), None);
    let fresh = SmtcContext { is_enabled: false, has_callback: false, cover_task: false };
    assert_eq!(state.context, Some(fresh));
    assert_eq!(splayer_presence::smtc::update_play_state(&state, PlaybackStatus::Paused), None);
    assert_eq!(splayer_presence::smtc::update_timeline(&state, 1, 2), None);
    assert_eq!(splayer_presence::smtc::update_metadata(&mut state), None);

    assert_eq!(enable_smtc(&mut state), Some(SmtcCall::SetEnabled(true)));
    assert!(state.active());
    assert_eq!(
        splayer_presence::smtc::update_play_state(&state, PlaybackStatus::Paused),
        Some(SmtcCall::SetPlaybackStatus(PlaybackStatus::Paused))
    );
    assert_eq!(
        splayer_presence::smtc::update_play_mode(&state, true, RepeatMode::Track),
        Some(SmtcCall::SetPlayMode { is_shuffling: true, repeat_mode: RepeatMode::Track })
    );
    assert_eq!(
        splayer_presence::smtc::update_timeline(&state, 1_500, 180_000),
        Some(SmtcCall::UpdateTimeline { start: 0, position: 15_000_000, end: 1_800_000_000 })
    );
    assert_eq!(splayer_presence::smtc::update_metadata(&mut state), Some(false));
    assert_eq!(splayer_presence::smtc::update_metadata(&mut state), Some(true));

    assert_eq!(disable_smtc(&mut state), Some(SmtcCall::SetEnabled(false)));
    assert!(!state.active());
    assert_eq!(splayer_presence::smtc::update_play_mode(&state, false, RepeatMode::Off), None);
}

#[test]
fn controls_deliver_events_to_a_listener() {
    let mut state = SmtcState::new();
    initialize(&mut state);
    assert!(!dispatch_event(&state));
    assert!(register_event_callback(&mut state));
    assert!(dispatch_event(&state));
    enable_smtc(&mut state);
    splayer_presence::smtc::update_metadata(&mut state);
    assert_eq!(
        splayer_presence::smtc::shutdown(&mut state),
        Some(SmtcTeardown { abort_cover_task: true })
    );
    assert!(!dispatch_event(&state));
    // Setting up anew replaces whatever session there was.
    initialize(&mut state);
    enable_smtc(&mut state);
    assert_eq!(initialize(&mut state), Some(SmtcTeardown { abort_cover_task: false }));
    assert!(!state.active());
}
