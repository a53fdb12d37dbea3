//! The values that callers hand to the presence worker.
//!
//! Times are whole milliseconds. Each type that holds text has a view in which
//! the text is a `Seq<char>`; the contracts of the crate speak of the views.

use vstd::prelude::*;
use vstd::string::*;

verus! {

/// What the status line of the presence shows next to "listening to".
#[derive(Debug, Clone, Copy, PartialEq, Eq, Structural)]
pub enum DiscordDisplayMode {
    /// The track only.
    Name,
    /// The name of the player application.
    State,
    /// The track together with its artist.
    Details,
}

/// Whether the player is playing or paused.
#[derive(Debug, Clone, Copy, PartialEq, Eq, Structural)]
pub enum PlaybackStatus {
    Playing,
    Paused,
}

/// The playback state as the host application reports it: `"Playing"`, or
/// anything else for paused.
#[derive(Debug, Clone)]
pub struct DiscordPlayStateParam {
    pub status: String,
}

/// Settings of the presence display.
#[derive(Debug, Clone, Copy, PartialEq, Eq)]
pub struct DiscordConfigPayload {
    /// Whether the presence stays visible while playback is paused.
    pub show_when_paused: bool,
    /// The display mode to switch to, if any.
    pub display_mode: Option<DiscordDisplayMode>,
}

/// What is known about the current track.
#[derive(Debug, Clone, PartialEq, Eq)]
pub struct MetadataPayload {
    pub song_name: String,
    pub author_name: String,
    pub album_name: String,
    /// Where the cover image was found, if anywhere.
    pub original_cover_url: Option<String>,
    /// The track's identifier in the music service, if it has one.
    pub ncm_id: Option<i64>,
    /// The track's length in milliseconds, if known.
    pub duration: Option<i64>,
}

/// A `MetadataPayload` with its text as sequences of characters.
pub struct MetadataView {
    pub song_name: Seq<char>,
    pub author_name: Seq<char>,
    pub album_name: Seq<char>,
    pub original_cover_url: Option<Seq<char>>,
    pub ncm_id: Option<i64>,
    pub duration: Option<i64>,
}

impl View for MetadataPayload {
    type V = MetadataView;

    open spec fn view(&self) -> MetadataView {
        MetadataView {
            song_name: self.song_name@,
            author_name: self.author_name@,
            album_name: self.album_name@,
            original_cover_url: match self.original_cover_url {
                Some(url) => Some(url@),
                None => None,
            },
            ncm_id: self.ncm_id,
            duration: self.duration,
        }
    }
}

/// A report of the playback position.
#[derive(Debug, Clone, Copy, PartialEq, Eq)]
pub struct TimelinePayload {
    /// The position in the track, in milliseconds.
    pub current_time: i64,
    /// The length of the track, in milliseconds.
    pub total_time: i64,
}

/// The status that a reported name stands for.
pub open spec fn status_named(name: Seq<char>) -> PlaybackStatus {
    if name == "Playing"@ {
        PlaybackStatus::Playing
    } else {
        PlaybackStatus::Paused
    }
}

impl PlaybackStatus {
    /// Reads a status from its name: `"Playing"` is playing, every other text
    /// is paused.
    pub fn from_name(name: &str) -> (status: PlaybackStatus)
        ensures
            status == status_named(name@),
    {
        if crate::text::same_text(name, "Playing") {
            PlaybackStatus::Playing
        } else {
            PlaybackStatus::Paused
        }
    }
}

impl From<String> for PlaybackStatus {
    fn from(status: String) -> (r: PlaybackStatus) {
        PlaybackStatus::from_name(status.as_str())
    }
}

impl vstd::std_specs::convert::FromSpecImpl<String> for PlaybackStatus {
    open spec fn obeys_from_spec() -> bool {
        true
    }

    open spec fn from_spec(status: String) -> PlaybackStatus {
        status_named(status@)
    }
}

impl DiscordPlayStateParam {
    /// The status that this report stands for.
    pub fn playback_status(&self) -> (status: PlaybackStatus)
        ensures
            status == status_named(self.status@),
    {
        PlaybackStatus::from_name(self.status.as_str())
    }
}

} // verus!
