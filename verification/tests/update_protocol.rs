use splayer_presence::model::{DiscordDisplayMode, MetadataPayload, PlaybackStatus};
use splayer_presence::payload::{
    build_base_activity, ActivityPayload, ActivityType, StatusDisplayType,
};
use splayer_presence::snapshot::ActivityData;
use splayer_presence::update::{perform_update, UpdatePlan, UpdateRequest};

const NOW_MS: i64 = 1_700_000_000_000;
const NOW_S: i64 = 1_700_000_000;

fn data(status: PlaybackStatus, current_time: i64, duration: Option<i64>) -> ActivityData {
    let mut data = ActivityData::from_metadata(MetadataPayload {
        song_name: "Song".to_string(),
        author_name: "Artist".to_string(),
        album_name: "Album".to_string(),
        original_cover_url: Some("https://example.com/cover.png?x=1".to_string()),
        ncm_id: Some(99),
        duration,
    });
    data.status = status;
    data.current_time = current_time;
    data
}

fn base(mode: DiscordDisplayMode) -> ActivityPayload {
    ActivityPayload {
        details: match mode {
            DiscordDisplayMode::Details => "Song — Artist".to_string(),
            _ => "Song".to_string(),
        },
        state: "Artist".to_string(),
        activity_type: ActivityType::Listening,
        status_display_type: match mode {
            DiscordDisplayMode::Name => StatusDisplayType::State,
            DiscordDisplayMode::State => StatusDisplayType::Name,
            DiscordDisplayMode::Details => StatusDisplayType::Details,
        },
        large_image: "https://example.com/cover.png".to_string(),
        large_text: "Album".to_string(),
        small_image: "logo-icon".to_string(),
        small_text: "SPlayer".to_string(),
        button_label: "Listen".to_string(),
        button_url: "https://music.163.com/song?id=99".to_string(),
        timestamps: None,
    }
}

fn skip(remembered_end: Option<i64>) -> UpdatePlan {
    UpdatePlan { request: UpdateRequest::Skip, remembered_end }
}

#[test]
fn base_activity_follows_the_display_mode() {
    let playing = data(PlaybackStatus::Playing, 0, Some(1_000));
    for mode in [DiscordDisplayMode::Name, DiscordDisplayMode::State, DiscordDisplayMode::Details] {
        assert_eq!(build_base_activity(&playing, mode), base(mode));
    }
}

#[test]
fn payload_builders_touch_one_field_each() {
    let plain = base(DiscordDisplayMode::Name);
    let timed = plain.clone().with_timestamps(3, 9);
    assert_eq!(timed, ActivityPayload { timestamps: Some((3, 9)), ..plain.clone() });
    let marked = plain.clone().with_paused_marker();
    assert_eq!(marked, ActivityPayload { small_text: "Paused".to_string(), ..plain });
}

#[test]
fn hidden_pause_asks_for_a_clear() {
    let paused = data(PlaybackStatus::Paused, 5_000, Some(180_000));
    for last in [None, Some(NOW_S + 175)] {
        assert_eq!(
            perform_update(&paused, last, false, DiscordDisplayMode::Name, NOW_MS),
            UpdatePlan { request: UpdateRequest::Clear, remembered_end: None }
        );
    }
}

#[test]
fn visible_pause_sends_a_frozen_window() {
    let paused = data(PlaybackStatus::Paused, 5_000, Some(180_500));
    let start = NOW_S - 5 + 31_536_000;
    let expected = ActivityPayload {
        timestamps: Some((start, start + 180)),
        small_text: "Paused".to_string(),
        ..base(DiscordDisplayMode::State)
    };
    // Paused sends are never held back, whatever end is remembered.
    for last in [None, Some(start + 180), Some(0)] {
        assert_eq!(
            perform_update(&paused, last, true, DiscordDisplayMode::State, NOW_MS),
            UpdatePlan { request: UpdateRequest::Send(expected.clone()), remembered_end: None }
        );
    }
}

#[test]
fn visible_pause_without_length_sends_no_window() {
    for duration in [None, Some(0), Some(-4)] {
        let paused = data(PlaybackStatus::Paused, 5_000, duration);
        assert_eq!(
            perform_update(&paused, Some(3), true, DiscordDisplayMode::Details, NOW_MS),
            UpdatePlan {
                request: UpdateRequest::Send(base(DiscordDisplayMode::Details)),
                remembered_end: None
            }
        );
    }
}

#[test]
fn playing_sends_the_window_and_remembers_its_end() {
    let playing = data(PlaybackStatus::Playing, 5_000, Some(180_000));
    let expected = ActivityPayload {
        timestamps: Some((NOW_S - 5, NOW_S + 175)),
        ..base(DiscordDisplayMode::Name)
    };
    assert_eq!(
        perform_update(&playing, None, false, DiscordDisplayMode::Name, NOW_MS),
        UpdatePlan {
            request: UpdateRequest::Send(expected),
            remembered_end: Some(NOW_S + 175)
        }
    );
}

#[test]
fn playing_is_throttled_within_two_seconds_of_the_remembered_end() {
    let playing = data(PlaybackStatus::Playing, 5_000, Some(180_000));
    let end = NOW_S + 175;
    for last in [end - 1, end, end + 1] {
        assert_eq!(
            perform_update(&playing, Some(last), true, DiscordDisplayMode::Name, NOW_MS),
            skip(Some(last))
        );
    }
    for last in [end - 2, end + 2, i64::MIN, i64::MAX] {
        let plan = perform_update(&playing, Some(last), true, DiscordDisplayMode::Name, NOW_MS);
        assert_eq!(plan.remembered_end, Some(end));
        assert!(matches!(plan.request, UpdateRequest::Send(_)));
    }
}

#[test]
fn playing_past_the_end_is_skipped() {
    for position in [180_000, 180_001, i64::MAX] {
        let done = data(PlaybackStatus::Playing, position, Some(180_000));
        for last in [None, Some(NOW_S), Some(0)] {
            assert_eq!(
                perform_update(&done, last, true, DiscordDisplayMode::Name, NOW_MS),
                skip(last)
            );
        }
    }
}

#[test]
fn playing_at_the_epoch_is_still_sent() {
    // A window that happens to be (0, 0) is a window, not the sign to skip.
    let early = data(PlaybackStatus::Playing, 0, Some(500));
    let plan = perform_update(&early, Some(5), false, DiscordDisplayMode::Name, 0);
    assert_eq!(plan.remembered_end, Some(0));
    assert_eq!(
        plan.request,
        UpdateRequest::Send(ActivityPayload {
            timestamps: Some((0, 0)),
            ..base(DiscordDisplayMode::Name)
        })
    );
}

#[test]
fn playing_without_length_sends_once_more_then_rests() {
    for duration in [None, Some(0), Some(-1)] {
        let unknown = data(PlaybackStatus::Playing, 7_000, duration);
        assert_eq!(
            perform_update(&unknown, Some(NOW_S), false, DiscordDisplayMode::Name, NOW_MS),
            UpdatePlan {
                request: UpdateRequest::Send(base(DiscordDisplayMode::Name)),
                remembered_end: None
            }
        );
        assert_eq!(
            perform_update(&unknown, None, false, DiscordDisplayMode::Name, NOW_MS),
            skip(None)
        );
    }
}
