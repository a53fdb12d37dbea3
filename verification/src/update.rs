//! The update protocol: what to ask of an open connection, given the track,
//! the settings and the end timestamp that the display was last given.
//!
//! A paused track is cleared from the display, or shown with a frozen window.
//! A playing track is sent with its window, unless the window's end moved by
//! less than the threshold since the last send: ordinary progress keeps the
//! end where it is, a seek moves it.

use crate::model::{DiscordDisplayMode, PlaybackStatus};
use crate::payload::{base_activity, build_base_activity, ActivityPayload, ActivityPayloadView};
use crate::snapshot::{ActivityData, ActivityDataView};
use crate::timestamps::{
    calc_paused_timestamps, calc_playing_timestamps, paused_anchor, playing_anchor,
};
use vstd::prelude::*;

verus! {

/// By how many seconds the end of the window has to move before a playing
/// track is sent again.
pub const TIMESTAMP_UPDATE_THRESHOLD_S: i64 = 2;

/// What the update protocol asks of the connection.
#[derive(Debug, Clone, PartialEq, Eq)]
pub enum UpdateRequest {
    /// Nothing: the display is up to date.
    Skip,
    /// Clear the activity from the display.
    Clear,
    /// Send this activity.
    Send(ActivityPayload),
}

/// An `UpdateRequest` with its text as sequences of characters.
pub enum UpdateRequestView {
    Skip,
    Clear,
    Send(ActivityPayloadView),
}

impl View for UpdateRequest {
    type V = UpdateRequestView;

    open spec fn view(&self) -> UpdateRequestView {
        match *self {
            UpdateRequest::Skip => UpdateRequestView::Skip,
            UpdateRequest::Clear => UpdateRequestView::Clear,
            UpdateRequest::Send(activity) => UpdateRequestView::Send(activity@),
        }
    }
}

/// One decision of the update protocol.
#[derive(Debug, Clone, PartialEq, Eq)]
pub struct UpdatePlan {
    /// What to ask of the connection.
    pub request: UpdateRequest,
    /// The end timestamp to remember once the request has succeeded; for
    /// `Skip`, the one that was remembered before.
    pub remembered_end: Option<i64>,
}

/// An `UpdatePlan` over mathematical values.
pub struct UpdatePlanView {
    pub request: UpdateRequestView,
    pub remembered_end: Option<int>,
}

/// An optional timestamp as a mathematical integer.
pub open spec fn end_view(end: Option<i64>) -> Option<int> {
    match end {
        Some(e) => Some(e as int),
        None => None,
    }
}

impl View for UpdatePlan {
    type V = UpdatePlanView;

    open spec fn view(&self) -> UpdatePlanView {
        UpdatePlanView { request: self.request@, remembered_end: end_view(self.remembered_end) }
    }
}

/// Whether the track's length is known and positive.
pub open spec fn has_length(data: ActivityDataView) -> bool {
    data.metadata.duration is Some && data.metadata.duration->0 > 0
}

/// Whether `end` lies less than the threshold away from the remembered end.
pub open spec fn within_threshold(last_end: Option<int>, end: int) -> bool {
    last_end is Some && -2 < last_end->0 - end < 2
}

/// The decision of the update protocol for the track `data` at wall-clock time
/// `now_ms`, when `last_end` is the remembered end timestamp.
pub open spec fn update_plan(
    data: ActivityDataView,
    last_end: Option<int>,
    show_when_paused: bool,
    display_mode: DiscordDisplayMode,
    now_ms: int,
) -> UpdatePlanView {
    let base = base_activity(data, display_mode);
    let position = data.current_time as int;
    let duration = data.metadata.duration->0 as int;
    match data.status {
        PlaybackStatus::Paused => {
            if !show_when_paused {
                UpdatePlanView { request: UpdateRequestView::Clear, remembered_end: None }
            } else if has_length(data) {
                let (start, end) = paused_anchor(now_ms, position, duration);
                UpdatePlanView {
                    request: UpdateRequestView::Send(base.with_window(start, end).marked_paused()),
                    remembered_end: None,
                }
            } else {
                UpdatePlanView { request: UpdateRequestView::Send(base), remembered_end: None }
            }
        },
        PlaybackStatus::Playing => {
            if has_length(data) {
                let (start, end) = playing_anchor(now_ms, position, duration);
                if position >= duration || within_threshold(last_end, end) {
                    UpdatePlanView { request: UpdateRequestView::Skip, remembered_end: last_end }
                } else {
                    UpdatePlanView {
                        request: UpdateRequestView::Send(base.with_window(start, end)),
                        remembered_end: Some(end),
                    }
                }
            } else if last_end is Some {
                UpdatePlanView { request: UpdateRequestView::Send(base), remembered_end: None }
            } else {
                UpdatePlanView { request: UpdateRequestView::Skip, remembered_end: None }
            }
        },
    }
}

/// Decides what to ask of the connection for the track `data` at wall-clock
/// time `now_ms`, when `last_sent_end_timestamp` is the remembered end.
pub fn perform_update(
    data: &ActivityData,
    last_sent_end_timestamp: Option<i64>,
    show_when_paused: bool,
    display_mode: DiscordDisplayMode,
    now_ms: i64,
) -> (plan: UpdatePlan)
    ensures
        plan@ == update_plan(
            data@,
            end_view(last_sent_end_timestamp),
            show_when_paused,
            display_mode,
            now_ms as int,
        ),
{
    let length = match data.metadata.duration {
        Some(duration) => if duration > 0 {
            Some(duration)
        } else {
            None
        },
        None => None,
    };
    match data.status {
        PlaybackStatus::Paused => {
            if !show_when_paused {
                return UpdatePlan { request: UpdateRequest::Clear, remembered_end: None };
            }
            let base = build_base_activity(data, display_mode);
            let activity = match length {
                Some(duration) => {
                    let (start, end) = calc_paused_timestamps(data.current_time, duration, now_ms);
                    base.with_timestamps(start, end).with_paused_marker()
                },
                None => base,
            };
            UpdatePlan { request: UpdateRequest::Send(activity), remembered_end: None }
        },
        PlaybackStatus::Playing => {
            match length {
                Some(duration) => {
                    if data.current_time >= duration {
                        return UpdatePlan {
                            request: UpdateRequest::Skip,
                            remembered_end: last_sent_end_timestamp,
                        };
                    }
                    let (start, end) = calc_playing_timestamps(data.current_time, duration, now_ms);
                    if let Some(last_end) = last_sent_end_timestamp {
                        let moved: i128 = last_end as i128 - end as i128;
                        if -(TIMESTAMP_UPDATE_THRESHOLD_S as i128) < moved && moved
                            < TIMESTAMP_UPDATE_THRESHOLD_S as i128 {
                            return UpdatePlan {
                                request: UpdateRequest::Skip,
                                remembered_end: last_sent_end_timestamp,
                            };
                        }
                    }
                    let activity = build_base_activity(data, display_mode).with_timestamps(
                        start,
                        end,
                    );
                    UpdatePlan { request: UpdateRequest::Send(activity), remembered_end: Some(end) }
                },
                None => {
                    if last_sent_end_timestamp.is_some() {
                        let activity = build_base_activity(data, display_mode);
                        UpdatePlan { request: UpdateRequest::Send(activity), remembered_end: None }
                    } else {
                        UpdatePlan { request: UpdateRequest::Skip, remembered_end: None }
                    }
                },
            }
        },
    }
}

/// While a track plays whose position has reached its length, nothing is sent
/// and the remembered end stays as it is. (A track of length 0 counts as one
/// of unknown length, so the law speaks of positive lengths, and of length 0
/// where no end is remembered.)
pub proof fn lemma_finished_track_is_skipped(
    data: ActivityDataView,
    last_end: Option<int>,
    show_when_paused: bool,
    display_mode: DiscordDisplayMode,
    now_ms: int,
)
    requires
        data.status == PlaybackStatus::Playing,
        data.metadata.duration is Some,
        data.current_time >= data.metadata.duration->0 >= 0,
        data.metadata.duration->0 > 0 || last_end is None,
    ensures
        update_plan(data, last_end, show_when_paused, display_mode, now_ms) == (UpdatePlanView {
            request: UpdateRequestView::Skip,
            remembered_end: last_end,
        }),
{
}

/// While a track plays and has not reached its end, a window whose end lies
/// less than two seconds from the remembered end is not sent and the
/// remembered end stays; any other window is sent and its end is the one to
/// remember.
pub proof fn lemma_throttle(
    data: ActivityDataView,
    last_end: int,
    show_when_paused: bool,
    display_mode: DiscordDisplayMode,
    now_ms: int,
)
    requires
        data.status == PlaybackStatus::Playing,
        has_length(data),
        data.current_time < data.metadata.duration->0,
    ensures
        ({
            let (start, end) = playing_anchor(
                now_ms,
                data.current_time as int,
                data.metadata.duration->0 as int,
            );
            let plan = update_plan(data, Some(last_end), show_when_paused, display_mode, now_ms);
            let distance = if last_end >= end {
                last_end - end
            } else {
                end - last_end
            };
            &&& distance < 2 ==> plan.request == UpdateRequestView::Skip && plan.remembered_end
                == Some(last_end)
            &&& distance >= 2 ==> plan.request == UpdateRequestView::Send(
                base_activity(data, display_mode).with_window(start, end),
            ) && plan.remembered_end == Some(end)
        }),
{
}

/// A paused track is never throttled: it is cleared or sent whatever end is
/// remembered, and afterwards no end is remembered.
pub proof fn lemma_paused_is_never_skipped(
    data: ActivityDataView,
    last_end: Option<int>,
    show_when_paused: bool,
    display_mode: DiscordDisplayMode,
    now_ms: int,
)
    requires
        data.status == PlaybackStatus::Paused,
    ensures
        ({
            let plan = update_plan(data, last_end, show_when_paused, display_mode, now_ms);
            &&& plan.remembered_end is None
            &&& show_when_paused ==> plan.request is Send
            &&& !show_when_paused ==> plan.request == UpdateRequestView::Clear
            &&& plan == update_plan(data, None, show_when_paused, display_mode, now_ms)
        }),
{
}

} // verus!
