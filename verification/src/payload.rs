//! The presence payload: what the display is asked to show.

use crate::model::DiscordDisplayMode;
use crate::snapshot::{icon_asset_key, ActivityData, ActivityDataView};
use vstd::prelude::*;
use vstd::string::*;

verus! {

/// The category under which an activity is shown.
#[derive(Debug, Clone, Copy, PartialEq, Eq, Structural)]
pub enum ActivityType {
    Playing,
    Listening,
    Watching,
    Competing,
}

/// Which text the status line shows next to the category.
#[derive(Debug, Clone, Copy, PartialEq, Eq, Structural)]
pub enum StatusDisplayType {
    /// The name of the application.
    Name,
    /// The secondary text of the payload.
    State,
    /// The primary text of the payload.
    Details,
}

/// One presence update.
#[derive(Debug, Clone, PartialEq, Eq)]
pub struct ActivityPayload {
    /// The primary text.
    pub details: String,
    /// The secondary text.
    pub state: String,
    pub activity_type: ActivityType,
    pub status_display_type: StatusDisplayType,
    /// The large image: the address of a cover, or an asset key.
    pub large_image: String,
    /// The tooltip of the large image.
    pub large_text: String,
    /// The small image, an asset key.
    pub small_image: String,
    /// The tooltip of the small image.
    pub small_text: String,
    pub button_label: String,
    pub button_url: String,
    /// Start and end of the progress window in epoch seconds, if one is shown.
    pub timestamps: Option<(i64, i64)>,
}

/// An `ActivityPayload` with its text as sequences of characters.
pub struct ActivityPayloadView {
    pub details: Seq<char>,
    pub state: Seq<char>,
    pub activity_type: ActivityType,
    pub status_display_type: StatusDisplayType,
    pub large_image: Seq<char>,
    pub large_text: Seq<char>,
    pub small_image: Seq<char>,
    pub small_text: Seq<char>,
    pub button_label: Seq<char>,
    pub button_url: Seq<char>,
    pub timestamps: Option<(int, int)>,
}

impl View for ActivityPayload {
    type V = ActivityPayloadView;

    open spec fn view(&self) -> ActivityPayloadView {
        ActivityPayloadView {
            details: self.details@,
            state: self.state@,
            activity_type: self.activity_type,
            status_display_type: self.status_display_type,
            large_image: self.large_image@,
            large_text: self.large_text@,
            small_image: self.small_image@,
            small_text: self.small_text@,
            button_label: self.button_label@,
            button_url: self.button_url@,
            timestamps: match self.timestamps {
                Some((start, end)) => Some((start as int, end as int)),
                None => None,
            },
        }
    }
}

/// The primary text in the given display mode.
pub open spec fn details_in(data: ActivityDataView, display_mode: DiscordDisplayMode) -> Seq<char> {
    match display_mode {
        DiscordDisplayMode::Details => data.cached_full_info,
        _ => data.metadata.song_name,
    }
}

/// The text that the status line shows in the given display mode.
pub open spec fn status_display_in(display_mode: DiscordDisplayMode) -> StatusDisplayType {
    match display_mode {
        DiscordDisplayMode::Name => StatusDisplayType::State,
        DiscordDisplayMode::State => StatusDisplayType::Name,
        DiscordDisplayMode::Details => StatusDisplayType::Details,
    }
}

/// The payload for a track, before any progress window is attached.
pub open spec fn base_activity(
    data: ActivityDataView,
    display_mode: DiscordDisplayMode,
) -> ActivityPayloadView {
    ActivityPayloadView {
        details: details_in(data, display_mode),
        state: data.metadata.author_name,
        activity_type: ActivityType::Listening,
        status_display_type: status_display_in(display_mode),
        large_image: data.cached_cover_url,
        large_text: data.metadata.album_name,
        small_image: "logo-icon"@,
        small_text: "SPlayer"@,
        button_label: "Listen"@,
        button_url: data.cached_song_url,
        timestamps: None,
    }
}

impl ActivityPayloadView {
    /// This payload with the progress window from `start` to `end`.
    pub open spec fn with_window(self, start: int, end: int) -> ActivityPayloadView {
        ActivityPayloadView { timestamps: Some((start, end)), ..self }
    }

    /// This payload marked as paused.
    pub open spec fn marked_paused(self) -> ActivityPayloadView {
        ActivityPayloadView { small_text: "Paused"@, ..self }
    }
}

/// Builds the payload for a track, before any progress window is attached.
pub fn build_base_activity(data: &ActivityData, display_mode: DiscordDisplayMode) -> (activity:
    ActivityPayload)
    ensures
        activity@ == base_activity(data@, display_mode),
{
    let details = match display_mode {
        DiscordDisplayMode::Details => data.cached_full_info.clone(),
        _ => data.metadata.song_name.clone(),
    };
    let status_display_type = match display_mode {
        DiscordDisplayMode::Name => StatusDisplayType::State,
        DiscordDisplayMode::State => StatusDisplayType::Name,
        DiscordDisplayMode::Details => StatusDisplayType::Details,
    };
    ActivityPayload {
        details,
        state: data.metadata.author_name.clone(),
        activity_type: ActivityType::Listening,
        status_display_type,
        large_image: data.cached_cover_url.clone(),
        large_text: data.metadata.album_name.clone(),
        small_image: String::from_str(icon_asset_key()),
        small_text: String::from_str("SPlayer"),
        button_label: String::from_str("Listen"),
        button_url: data.cached_song_url.clone(),
        timestamps: None,
    }
}

impl ActivityPayload {
    /// Attaches the progress window from `start` to `end`.
    pub fn with_timestamps(self, start: i64, end: i64) -> (activity: ActivityPayload)
        ensures
            activity@ == self@.with_window(start as int, end as int),
    {
        let mut activity = self;
        activity.timestamps = Some((start, end));
        activity
    }

    /// Marks the payload as paused.
    pub fn with_paused_marker(self) -> (activity: ActivityPayload)
        ensures
            activity@ == self@.marked_paused(),
    {
        let mut activity = self;
        activity.small_text = String::from_str("Paused");
        activity
    }
}

} // verus!
