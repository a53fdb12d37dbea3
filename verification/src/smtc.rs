//! The session with the system's media transport controls.
//!
//! The controls themselves belong to the operating system. This module holds
//! what the session decides: which calls to make on the controls, given
//! whether a session exists and whether it is enabled, and which event a
//! pressed button stands for.

use crate::model::PlaybackStatus;
use crate::text::{append_decimal, decimal};
use vstd::prelude::*;
use vstd::string::*;

verus! {

/// How playback repeats.
#[derive(Debug, Clone, Copy, PartialEq, Eq, Structural)]
pub enum RepeatMode {
    /// Nothing repeats.
    Off,
    /// The current track repeats.
    Track,
    /// The whole list repeats.
    List,
}

/// The playback state as the host application reports it.
#[derive(Debug, Clone, Copy, PartialEq, Eq)]
pub struct PlayStatePayload {
    pub status: PlaybackStatus,
}

/// The play mode as the host application reports it.
#[derive(Debug, Clone, Copy, PartialEq, Eq)]
pub struct PlayModePayload {
    pub is_shuffling: bool,
    pub repeat_mode: RepeatMode,
}

/// What the user asked for through the system's controls.
#[derive(Debug, Clone, Copy, PartialEq, Eq, Structural)]
pub enum SmtcEventType {
    Play,
    Pause,
    Stop,
    NextSong,
    PreviousSong,
    ToggleShuffle,
    ToggleRepeat,
    Seek,
}

/// An event for the host application; a seek carries the position asked
/// for, in milliseconds.
#[derive(Debug, Clone, Copy, PartialEq, Eq)]
pub struct SmtcEvent {
    pub type_: SmtcEventType,
    pub position_ms: Option<i64>,
}

/// A button of the system's controls.
#[derive(Debug, Clone, Copy, PartialEq, Eq, Structural)]
pub enum SmtcButton {
    Play,
    Pause,
    Stop,
    Record,
    FastForward,
    Rewind,
    Next,
    Previous,
    ChannelUp,
    ChannelDown,
}

/// The event that a pressed button stands for, if any.
pub open spec fn event_of_button(button: SmtcButton) -> Option<SmtcEventType> {
    match button {
        SmtcButton::Play => Some(SmtcEventType::Play),
        SmtcButton::Pause => Some(SmtcEventType::Pause),
        SmtcButton::Stop => Some(SmtcEventType::Stop),
        SmtcButton::Next => Some(SmtcEventType::NextSong),
        SmtcButton::Previous => Some(SmtcEventType::PreviousSong),
        _ => None,
    }
}

impl SmtcEvent {
    /// An event without a position.
    pub fn new(t: SmtcEventType) -> (event: SmtcEvent)
        ensures
            event == (SmtcEvent { type_: t, position_ms: None }),
    {
        SmtcEvent { type_: t, position_ms: None }
    }

    /// A request to move to `pos` milliseconds.
    pub fn seek(pos: i64) -> (event: SmtcEvent)
        ensures
            event == (SmtcEvent { type_: SmtcEventType::Seek, position_ms: Some(pos) }),
    {
        SmtcEvent { type_: SmtcEventType::Seek, position_ms: Some(pos) }
    }

    /// The event for a pressed button: play, pause, stop, next and previous
    /// are passed on, the other buttons are not.
    pub fn from_button(button: SmtcButton) -> (event: Option<SmtcEvent>)
        ensures
            event == match event_of_button(button) {
                Some(t) => Some(SmtcEvent { type_: t, position_ms: None }),
                None => None,
            },
    {
        match button {
            SmtcButton::Play => Some(SmtcEvent::new(SmtcEventType::Play)),
            SmtcButton::Pause => Some(SmtcEvent::new(SmtcEventType::Pause)),
            SmtcButton::Stop => Some(SmtcEvent::new(SmtcEventType::Stop)),
            SmtcButton::Next => Some(SmtcEvent::new(SmtcEventType::NextSong)),
            SmtcButton::Previous => Some(SmtcEvent::new(SmtcEventType::PreviousSong)),
            _ => None,
        }
    }
}

/// `ms` milliseconds in units of 100 nanoseconds, kept within the range of
/// `i64`.
pub open spec fn hns_of(ms: int) -> int {
    if ms * 10_000 > i64::MAX {
        i64::MAX as int
    } else if ms * 10_000 < i64::MIN {
        i64::MIN as int
    } else {
        ms * 10_000
    }
}

/// Converts milliseconds to units of 100 nanoseconds, saturating at the ends
/// of the range.
pub fn to_hns(ms: i64) -> (hns: i64)
    ensures
        hns == hns_of(ms as int),
{
    let wide: i128 = ms as i128 * 10_000;
    if wide > i64::MAX as i128 {
        i64::MAX
    } else if wide < i64::MIN as i128 {
        i64::MIN
    } else {
        wide as i64
    }
}

/// The genre entry that carries the track identifier `ncm_id`: present for
/// positive identifiers only.
pub open spec fn genre_for(ncm_id: Option<i64>) -> Option<Seq<char>> {
    if ncm_id is Some && ncm_id->0 > 0 {
        Some("NCM-"@ + decimal(ncm_id->0 as int))
    } else {
        None
    }
}

/// Builds the genre entry that carries the track identifier.
pub fn genre_tag(ncm_id: Option<i64>) -> (tag: Option<String>)
    ensures
        tag.deep_view() == genre_for(ncm_id),
{
    match ncm_id {
        Some(id) => {
            if id > 0 {
                let mut tag = String::from_str("NCM-");
                append_decimal(&mut tag, id);
                Some(tag)
            } else {
                None
            }
        },
        None => None,
    }
}

/// What the session knows of itself.
#[derive(Debug, Clone, Copy, PartialEq, Eq)]
pub struct SmtcContext {
    /// Whether the controls are shown and kept up to date.
    pub is_enabled: bool,
    /// Whether the host application listens for events.
    pub has_callback: bool,
    /// Whether a cover image is still being prepared.
    pub cover_task: bool,
}

/// The session, if one was set up.
#[derive(Debug, Clone, Copy, PartialEq, Eq)]
pub struct SmtcState {
    pub context: Option<SmtcContext>,
}

/// One call on the system's controls.
#[derive(Debug, Clone, Copy, PartialEq, Eq)]
pub enum SmtcCall {
    /// Show or hide the controls.
    SetEnabled(bool),
    /// Show the playback status.
    SetPlaybackStatus(PlaybackStatus),
    /// Show the play mode.
    SetPlayMode { is_shuffling: bool, repeat_mode: RepeatMode },
    /// Show the timeline; the times are in units of 100 nanoseconds.
    UpdateTimeline { start: i64, position: i64, end: i64 },
}

/// What to undo when a session ends.
#[derive(Debug, Clone, Copy, PartialEq, Eq)]
pub struct SmtcTeardown {
    /// Whether a cover image in preparation has to be abandoned.
    pub abort_cover_task: bool,
}

impl SmtcState {
    /// Whether a session exists and is enabled.
    pub open spec fn is_active(&self) -> bool {
        self.context is Some && self.context->0.is_enabled
    }

    /// No session.
    pub fn new() -> (state: SmtcState)
        ensures
            state.context is None,
    {
        SmtcState { context: None }
    }

    /// Whether a session exists and is enabled.
    pub fn active(&self) -> (active: bool)
        ensures
            active == self.is_active(),
    {
        match self.context {
            Some(context) => context.is_enabled,
            None => false,
        }
    }
}

/// Records a session that was just set up: disabled, nobody listening, no
/// cover in preparation. Returns what to undo of the session that it
/// replaces, if there was one.
pub fn initialize(state: &mut SmtcState) -> (teardown: Option<SmtcTeardown>)
    ensures
        final(state).context == Some(
            SmtcContext { is_enabled: false, has_callback: false, cover_task: false },
        ),
        teardown == match old(state).context {
            Some(context) => Some(SmtcTeardown { abort_cover_task: context.cover_task }),
            None => None,
        },
{
    let teardown = shutdown(state);
    state.context = Some(SmtcContext { is_enabled: false, has_callback: false, cover_task: false });
    teardown
}

/// Ends the session. Returns what to undo, if there was a session.
pub fn shutdown(state: &mut SmtcState) -> (teardown: Option<SmtcTeardown>)
    ensures
        final(state).context is None,
        teardown == match old(state).context {
            Some(context) => Some(SmtcTeardown { abort_cover_task: context.cover_task }),
            None => None,
        },
{
    let teardown = match state.context {
        Some(context) => Some(SmtcTeardown { abort_cover_task: context.cover_task }),
        None => None,
    };
    state.context = None;
    teardown
}

/// Notes that the host application listens for events. Returns whether
/// there is a session to note it in.
pub fn register_event_callback(state: &mut SmtcState) -> (registered: bool)
    ensures
        registered == old(state).context is Some,
        final(state).context == match old(state).context {
            Some(context) => Some(SmtcContext { has_callback: true, ..context }),
            None => None,
        },
{
    match state.context {
        Some(context) => {
            state.context = Some(SmtcContext { has_callback: true, ..context });
            true
        },
        None => false,
    }
}

/// Whether an event can be handed to the host application: only where a
/// session exists and somebody listens.
pub fn dispatch_event(state: &SmtcState) -> (deliver: bool)
    ensures
        deliver == (state.context is Some && state.context->0.has_callback),
{
    match state.context {
        Some(context) => context.has_callback,
        None => false,
    }
}

/// Sets whether the session is enabled, where there is one, and says which
/// call shows it.
fn set_enabled(state: &mut SmtcState, enabled: bool) -> (call: Option<SmtcCall>)
    ensures
        final(state).context == match old(state).context {
            Some(context) => Some(SmtcContext { is_enabled: enabled, ..context }),
            None => None,
        },
        call == if old(state).context is Some {
            Some(SmtcCall::SetEnabled(enabled))
        } else {
            None
        },
{
    match state.context {
        Some(context) => {
            state.context = Some(SmtcContext { is_enabled: enabled, ..context });
            Some(SmtcCall::SetEnabled(enabled))
        },
        None => None,
    }
}

/// Enables the session. Without a session nothing happens.
pub fn enable_smtc(state: &mut SmtcState) -> (call: Option<SmtcCall>)
    ensures
        final(state).context == match old(state).context {
            Some(context) => Some(SmtcContext { is_enabled: true, ..context }),
            None => None,
        },
        call == if old(state).context is Some {
            Some(SmtcCall::SetEnabled(true))
        } else {
            None
        },
{
    set_enabled(state, true)
}

/// Disables the session. Without a session nothing happens.
pub fn disable_smtc(state: &mut SmtcState) -> (call: Option<SmtcCall>)
    ensures
        final(state).context == match old(state).context {
            Some(context) => Some(SmtcContext { is_enabled: false, ..context }),
            None => None,
        },
        call == if old(state).context is Some {
            Some(SmtcCall::SetEnabled(false))
        } else {
            None
        },
{
    set_enabled(state, false)
}

/// The call that shows the playback status: made only on an enabled session.
pub fn update_play_state(state: &SmtcState, status: PlaybackStatus) -> (call: Option<SmtcCall>)
    ensures
        call == if state.is_active() {
            Some(SmtcCall::SetPlaybackStatus(status))
        } else {
            None
        },
{
    if state.active() {
        Some(SmtcCall::SetPlaybackStatus(status))
    } else {
        None
    }
}

/// The call that shows the play mode: made only on an enabled session.
pub fn update_play_mode(state: &SmtcState, is_shuffling: bool, repeat_mode: RepeatMode) -> (call:
    Option<SmtcCall>)
    ensures
        call == if state.is_active() {
            Some(SmtcCall::SetPlayMode { is_shuffling, repeat_mode })
        } else {
            None
        },
{
    if state.active() {
        Some(SmtcCall::SetPlayMode { is_shuffling, repeat_mode })
    } else {
        None
    }
}

/// The call that shows the timeline, from 0 to the track's length: made only
/// on an enabled session.
pub fn update_timeline(state: &SmtcState, current_ms: i64, total_ms: i64) -> (call: Option<
    SmtcCall,
>)
    ensures
        call == if state.is_active() {
            Some(
                SmtcCall::UpdateTimeline {
                    start: 0,
                    position: hns_of(current_ms as int) as i64,
                    end: hns_of(total_ms as int) as i64,
                },
            )
        } else {
            None
        },
{
    if state.active() {
        Some(
            SmtcCall::UpdateTimeline {
                start: 0,
                position: to_hns(current_ms),
                end: to_hns(total_ms),
            },
        )
    } else {
        None
    }
}

/// Starts a metadata update on an enabled session: from now on a cover is in
/// preparation. Returns `None` where nothing is to be done, else whether a
/// cover that was in preparation before has to be abandoned.
pub fn update_metadata(state: &mut SmtcState) -> (abort_previous: Option<bool>)
    ensures
        abort_previous == if old(state).is_active() {
            Some(old(state).context->0.cover_task)
        } else {
            None
        },
        final(state).context == if old(state).is_active() {
            Some(SmtcContext { cover_task: true, ..old(state).context->0 })
        } else {
            old(state).context
        },
{
    match state.context {
        Some(context) => {
            if context.is_enabled {
                state.context = Some(SmtcContext { cover_task: true, ..context });
                Some(context.cover_task)
            } else {
                None
            }
        },
        None => None,
    }
}

} // verus!
