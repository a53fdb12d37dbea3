//! What holds of the presence worker in every state that it can reach.

use crate::channel::RpcMessageView;
use crate::model::{MetadataView, PlaybackStatus};
use crate::update::has_length;
use crate::worker::{PendingView, WorkerActionView, WorkerEventView, WorkerView};
use vstd::prelude::*;

verus! {

impl WorkerView {
    /// What holds whenever the worker is asked: an end is remembered, or a
    /// send or clear is under way, only on an open connection with a track;
    /// a connect is under way only while enabled and not connected; and the
    /// end that a send will leave behind belongs to a playing track of known
    /// length.
    pub open spec fn consistent(self) -> bool {
        &&& self.last_sent_end_timestamp is Some ==> self.connected && self.data is Some
        &&& self.pending is Connect ==> self.is_enabled && !self.connected && self.data is Some
        &&& self.pending is Update ==> self.is_enabled && self.connected && self.data is Some
        &&& self.pending matches PendingView::Update(Some(_)) ==> self.data->0.status
            == PlaybackStatus::Playing && has_length(self.data->0)
    }

    /// What holds once a synchronisation is over: a connection is open only
    /// while the presence is enabled, and an end is remembered only for a
    /// playing track of known length.
    pub open spec fn settled(self) -> bool {
        &&& self.pending is Nothing
        &&& self.connected ==> self.is_enabled
        &&& self.last_sent_end_timestamp is Some ==> self.data is Some && self.data->0.status
            == PlaybackStatus::Playing && has_length(self.data->0)
    }

    /// The invariant of the worker: it is consistent, and settled whenever
    /// it waits for no outcome.
    pub open spec fn inv(self) -> bool {
        self.consistent() && (self.pending is Nothing ==> self.settled())
    }

    /// Whether `event` may come next: while the worker waits for the outcome
    /// of a request, only that outcome.
    pub open spec fn admits(self, event: WorkerEventView) -> bool {
        self.pending is Nothing || event is Finished
    }
}

/// A new worker satisfies the invariant.
pub proof fn lemma_initial_worker_is_settled()
    ensures
        WorkerView::initial().inv(),
        WorkerView::initial().settled(),
{
}

/// Every event that may come next keeps the invariant: after it the worker
/// has either asked for a request whose outcome it awaits, or it is settled.
pub proof fn lemma_step_keeps_invariant(worker: WorkerView, event: WorkerEventView, now_ms: int)
    requires
        worker.inv(),
        worker.admits(event),
    ensures
        worker.step(event, now_ms).0.inv(),
{
}

/// The worker awaits an outcome exactly when it has asked for a connect, a
/// send or a checked clear.
pub proof fn lemma_pending_matches_action(worker: WorkerView, event: WorkerEventView, now_ms: int)
    requires
        worker.inv(),
        worker.admits(event),
    ensures
        ({
            let (next, action) = worker.step(event, now_ms);
            &&& next.pending is Connect <==> action is Connect
            &&& next.pending is Update <==> action is SetActivity || action is ClearActivity
        }),
{
}

/// A command that announces a track puts the position back to 0 and forgets
/// the remembered end, whatever the state was; the record holds the new
/// metadata with the texts derived from it, and keeps the playback status.
pub proof fn lemma_metadata_resets_progress(worker: WorkerView, metadata: MetadataView)
    ensures
        ({
            let next = worker.handle_message(RpcMessageView::Metadata(metadata));
            &&& next.data is Some
            &&& next.data->0.current_time == 0
            &&& next.data->0.metadata == metadata
            &&& next.data->0.well_formed()
            &&& next.data->0.status == if worker.data is Some {
                worker.data->0.status
            } else {
                PlaybackStatus::Paused
            }
            &&& next.last_sent_end_timestamp is None
        }),
{
}

/// The same, seen from the driver: right after the command, whatever the
/// synchronisation asks for, no end is remembered and the position is 0.
pub proof fn lemma_metadata_step_resets_progress(
    worker: WorkerView,
    metadata: MetadataView,
    now_ms: int,
)
    ensures
        ({
            let (next, _action) = worker.step(
                WorkerEventView::Message(RpcMessageView::Metadata(metadata)),
                now_ms,
            );
            &&& next.data is Some
            &&& next.data->0.current_time == 0
            &&& next.last_sent_end_timestamp is None
        }),
{
}

/// While the worker is enabled, has a track and no connection, an idle tick
/// during the cooldown only shortens the cooldown; a tick after it asks for a
/// connect.
pub proof fn lemma_cooldown_tick(worker: WorkerView, now_ms: int)
    requires
        worker.is_enabled,
        worker.data is Some,
        !worker.connected,
        worker.pending is Nothing,
    ensures
        ({
            let (next, action) = worker.step(WorkerEventView::Timeout, now_ms);
            &&& worker.connect_retry_count > 0 ==> action is Idle && next == WorkerView {
                connect_retry_count: (worker.connect_retry_count - 1) as u8,
                ..worker
            }
            &&& worker.connect_retry_count == 0 ==> action is Connect && next == WorkerView {
                pending: PendingView::Connect,
                ..worker
            }
        }),
{
}

/// A connect that failed starts a cooldown of five ticks and changes nothing
/// else.
pub proof fn lemma_failed_connect_starts_cooldown(worker: WorkerView, now_ms: int)
    requires
        worker.pending is Connect,
    ensures
        worker.step(WorkerEventView::Finished(false), now_ms) == (
            WorkerView { connect_retry_count: 5, pending: PendingView::Nothing, ..worker },
            WorkerActionView::Idle,
        ),
{
}

/// A send or clear that failed gives up the connection and forgets the
/// remembered end.
pub proof fn lemma_failed_update_disconnects(worker: WorkerView, now_ms: int)
    requires
        worker.pending is Update,
        worker.connected,
    ensures
        ({
            let (next, action) = worker.step(WorkerEventView::Finished(false), now_ms);
            &&& action is Close
            &&& !next.connected
            &&& next.last_sent_end_timestamp is None
            &&& next.pending is Nothing
        }),
{
}

/// While the presence is disabled nothing is sent: a command or a tick asks
/// at most for the connection to be closed, and leaves none open.
pub proof fn lemma_disabled_worker_is_silent(worker: WorkerView, event: WorkerEventView, now_ms: int)
    requires
        !(event is Finished),
        !(event is Closed),
        !(event matches WorkerEventView::Message(RpcMessageView::Enable)),
        !worker.is_enabled,
    ensures
        ({
            let (next, action) = worker.step(event, now_ms);
            &&& action is Idle || action is Close
            &&& action is Close <==> worker.connected && event is Message
            &&& event is Message ==> !next.connected
            &&& !next.is_enabled
        }),
{
}

} // verus!
