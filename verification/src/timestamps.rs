//! Synthetic start and end timestamps for the presence display.
//!
//! The display only understands an absolute countdown window in epoch seconds.
//! While a track plays, the window is anchored so that it ends when the track
//! ends. While it is paused, the window is moved one year ahead, which the
//! display renders as a frozen progress bar.

use vstd::prelude::*;

verus! {

/// Milliseconds in the 365 days by which a paused window is moved ahead.
pub const ONE_YEAR_MS: i64 = 31_536_000_000;

/// The window shown while playing: `(start, end)` in epoch seconds, or `(0, 0)`
/// when the position has reached the end of the track and nothing should be
/// shown.
pub open spec fn playing_anchor(now_ms: int, current_time: int, duration: int) -> (int, int) {
    if current_time >= duration {
        (0, 0)
    } else {
        ((now_ms - current_time) / 1000, (now_ms + (duration - current_time)) / 1000)
    }
}

/// The window shown while paused: the start lies one year after the moment the
/// track would have started, and the window is as long as the track, in whole
/// seconds.
pub open spec fn paused_anchor(now_ms: int, current_time: int, duration: int) -> (int, int) {
    let start = (now_ms - current_time + 31_536_000_000) / 1000;
    (start, start + duration / 1000)
}

/// Floor of `x / 1000`, for every `x` whose quotient fits.
fn floor_seconds(x: i128) -> (q: i64)
    requires
        -9_000_000_000_000_000_000_000 <= x <= 9_000_000_000_000_000_000_000,
    ensures
        q == x / 1000,
{
    if x >= 0 {
        (x / 1000) as i64
    } else {
        let up: i128 = (999 - x) / 1000;
        (-up) as i64
    }
}

/// Computes the window to show while playing at wall-clock time `now_ms`.
pub fn calc_playing_timestamps(current_time: i64, duration: i64, now_ms: i64) -> (r: (i64, i64))
    ensures
        r.0 == playing_anchor(now_ms as int, current_time as int, duration as int).0,
        r.1 == playing_anchor(now_ms as int, current_time as int, duration as int).1,
{
    if current_time >= duration {
        return (0, 0);
    }
    let remaining: i128 = duration as i128 - current_time as i128;
    let end = floor_seconds(now_ms as i128 + remaining);
    let start = floor_seconds(now_ms as i128 - current_time as i128);
    (start, end)
}

/// Computes the window to show while paused at wall-clock time `now_ms`.
pub fn calc_paused_timestamps(current_time: i64, duration: i64, now_ms: i64) -> (r: (i64, i64))
    ensures
        r.0 == paused_anchor(now_ms as int, current_time as int, duration as int).0,
        r.1 == paused_anchor(now_ms as int, current_time as int, duration as int).1,
{
    let future_start = floor_seconds(now_ms as i128 - current_time as i128 + ONE_YEAR_MS as i128);
    let length = floor_seconds(duration as i128);
    (future_start, future_start + length)
}

/// While a track plays and has not reached its end, the window is as long as
/// the track, give or take the second lost to rounding: its length in seconds
/// is the track's length in whole seconds, or one more.
pub proof fn lemma_playing_window_spans_duration(now_ms: int, current_time: int, duration: int)
    requires
        current_time < duration,
    ensures
        ({
            let (start, end) = playing_anchor(now_ms, current_time, duration);
            &&& duration / 1000 <= end - start <= duration / 1000 + 1
            &&& duration - 1000 < 1000 * (end - start) < duration + 1000
        }),
{
}

/// Once the position has reached the end of the track, the playing window is
/// the pair `(0, 0)`.
pub proof fn lemma_playing_window_ends_with_track(now_ms: int, current_time: int, duration: int)
    requires
        current_time >= duration,
    ensures
        playing_anchor(now_ms, current_time, duration) == (0int, 0int),
{
}

/// A paused window is exactly as long as the track in whole seconds, and its
/// start lies at least 364 days after the current second exactly when the
/// position is no more than one day (plus the milliseconds already elapsed in
/// the current second) into the track.
pub proof fn lemma_paused_window_is_a_year_ahead(now_ms: int, current_time: int, duration: int)
    ensures
        ({
            let (start, end) = paused_anchor(now_ms, current_time, duration);
            &&& end - start == duration / 1000
            &&& start >= now_ms / 1000 + 364 * 86_400 <==> current_time <= 86_400_000 + now_ms % 1000
        }),
{
}

} // verus!
