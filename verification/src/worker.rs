//! The presence worker: a state machine that keeps the display in sync.
//!
//! The worker owns no connection. It is told what happened (a command
//! arrived, a second passed, the channel was closed, a request finished) and
//! answers with what to do on the connection next. Whoever drives it performs
//! that and, for `Connect`, `SetActivity` and `ClearActivity`, reports the
//! outcome before it reports anything else.

use crate::channel::{RpcMessage, RpcMessageView};
use crate::model::{DiscordDisplayMode, PlaybackStatus};
use crate::payload::{ActivityPayload, ActivityPayloadView};
use crate::snapshot::{ActivityData, ActivityDataView};
use crate::update::{
    end_view, perform_update, update_plan, UpdatePlan, UpdateRequest, UpdateRequestView,
};
use vstd::prelude::*;

verus! {

/// For how many idle ticks the worker waits after a failed connect before it
/// tries again.
pub const RECONNECT_COOLDOWN_SECONDS: u8 = 5;

/// The request whose outcome the worker waits for.
#[derive(Debug, Clone, Copy, PartialEq, Eq)]
pub enum Pending {
    /// None.
    Nothing,
    /// A connect.
    Connect,
    /// A send or a clear, with the end timestamp to remember if it succeeds.
    Update(Option<i64>),
}

/// A `Pending` over mathematical values.
pub enum PendingView {
    Nothing,
    Connect,
    Update(Option<int>),
}

impl View for Pending {
    type V = PendingView;

    open spec fn view(&self) -> PendingView {
        match *self {
            Pending::Nothing => PendingView::Nothing,
            Pending::Connect => PendingView::Connect,
            Pending::Update(end) => PendingView::Update(end_view(end)),
        }
    }
}

/// What happened, as the worker is told.
#[derive(Debug, Clone, PartialEq, Eq)]
pub enum WorkerEvent {
    /// A command arrived.
    Message(RpcMessage),
    /// A second passed without a command.
    Timeout,
    /// The channel was closed: no command will come any more.
    Closed,
    /// The request that the worker asked for last succeeded (`true`) or
    /// failed.
    Finished(bool),
}

/// A `WorkerEvent` with its text as sequences of characters.
pub enum WorkerEventView {
    Message(RpcMessageView),
    Timeout,
    Closed,
    Finished(bool),
}

impl View for WorkerEvent {
    type V = WorkerEventView;

    open spec fn view(&self) -> WorkerEventView {
        match *self {
            WorkerEvent::Message(msg) => WorkerEventView::Message(msg@),
            WorkerEvent::Timeout => WorkerEventView::Timeout,
            WorkerEvent::Closed => WorkerEventView::Closed,
            WorkerEvent::Finished(ok) => WorkerEventView::Finished(ok),
        }
    }
}

/// What the worker wants done on the connection.
#[derive(Debug, Clone, PartialEq, Eq)]
pub enum WorkerAction {
    /// Nothing.
    Idle,
    /// Open a connection and report the outcome.
    Connect,
    /// Send the activity and report the outcome.
    SetActivity(ActivityPayload),
    /// Clear the activity and report the outcome.
    ClearActivity,
    /// Clear the activity; the outcome does not matter.
    ClearActivityUnchecked,
    /// Close the connection; the outcome does not matter.
    Close,
    /// Stop driving the worker, after closing the connection if `close` says
    /// so.
    Shutdown { close: bool },
}

/// A `WorkerAction` with its text as sequences of characters.
pub enum WorkerActionView {
    Idle,
    Connect,
    SetActivity(ActivityPayloadView),
    ClearActivity,
    ClearActivityUnchecked,
    Close,
    Shutdown { close: bool },
}

impl View for WorkerAction {
    type V = WorkerActionView;

    open spec fn view(&self) -> WorkerActionView {
        match *self {
            WorkerAction::Idle => WorkerActionView::Idle,
            WorkerAction::Connect => WorkerActionView::Connect,
            WorkerAction::SetActivity(activity) => WorkerActionView::SetActivity(activity@),
            WorkerAction::ClearActivity => WorkerActionView::ClearActivity,
            WorkerAction::ClearActivityUnchecked => WorkerActionView::ClearActivityUnchecked,
            WorkerAction::Close => WorkerActionView::Close,
            WorkerAction::Shutdown { close } => WorkerActionView::Shutdown { close },
        }
    }
}

/// The state of the presence worker.
#[derive(Debug, Clone, PartialEq, Eq)]
pub struct RpcWorker {
    /// Whether a connection is open.
    pub connected: bool,
    /// The active track, once one was announced.
    pub data: Option<ActivityData>,
    /// Whether the presence is to be shown at all.
    pub is_enabled: bool,
    /// How many idle ticks to let pass before the next connect.
    pub connect_retry_count: u8,
    /// The end of the window that the display was last given while playing.
    pub last_sent_end_timestamp: Option<i64>,
    /// Whether the presence stays visible while playback is paused.
    pub show_when_paused: bool,
    pub display_mode: DiscordDisplayMode,
    /// The request whose outcome has not been reported yet.
    pub pending: Pending,
}

/// An `RpcWorker` over mathematical values.
pub struct WorkerView {
    pub connected: bool,
    pub data: Option<ActivityDataView>,
    pub is_enabled: bool,
    pub connect_retry_count: u8,
    pub last_sent_end_timestamp: Option<int>,
    pub show_when_paused: bool,
    pub display_mode: DiscordDisplayMode,
    pub pending: PendingView,
}

impl View for RpcWorker {
    type V = WorkerView;

    open spec fn view(&self) -> WorkerView {
        WorkerView {
            connected: self.connected,
            data: match self.data {
                Some(data) => Some(data@),
                None => None,
            },
            is_enabled: self.is_enabled,
            connect_retry_count: self.connect_retry_count,
            last_sent_end_timestamp: end_view(self.last_sent_end_timestamp),
            show_when_paused: self.show_when_paused,
            display_mode: self.display_mode,
            pending: self.pending@,
        }
    }
}

impl WorkerView {
    /// The worker before anything happened: disabled, not connected, no track.
    pub open spec fn initial() -> WorkerView {
        WorkerView {
            connected: false,
            data: None,
            is_enabled: false,
            connect_retry_count: 0,
            last_sent_end_timestamp: None,
            show_when_paused: false,
            display_mode: DiscordDisplayMode::Name,
            pending: PendingView::Nothing,
        }
    }

    /// The worker after it gave up its connection.
    pub open spec fn disconnect(self) -> WorkerView {
        WorkerView { connected: false, last_sent_end_timestamp: None, ..self }
    }

    /// The worker after it took in the command `msg`.
    pub open spec fn handle_message(self, msg: RpcMessageView) -> WorkerView {
        match msg {
            RpcMessageView::Enable => WorkerView {
                is_enabled: true,
                connect_retry_count: 0,
                ..self
            },
            RpcMessageView::Disable => WorkerView { is_enabled: false, ..self }.disconnect(),
            RpcMessageView::Config(payload) => WorkerView {
                show_when_paused: payload.show_when_paused,
                display_mode: match payload.display_mode {
                    Some(mode) => mode,
                    None => self.display_mode,
                },
                last_sent_end_timestamp: None,
                ..self
            },
            RpcMessageView::Metadata(payload) => WorkerView {
                data: Some(
                    ActivityDataView::of(
                        payload,
                        match self.data {
                            Some(data) => data.status,
                            None => PlaybackStatus::Paused,
                        },
                        0,
                    ),
                ),
                last_sent_end_timestamp: None,
                ..self
            },
            RpcMessageView::PlayState(status) => match self.data {
                Some(data) => WorkerView {
                    data: Some(ActivityDataView { status, ..data }),
                    last_sent_end_timestamp: if status == PlaybackStatus::Playing && data.status
                        != PlaybackStatus::Playing {
                        None
                    } else {
                        self.last_sent_end_timestamp
                    },
                    ..self
                },
                None => self,
            },
            RpcMessageView::Timeline(payload) => match self.data {
                Some(data) => WorkerView {
                    data: Some(ActivityDataView { current_time: payload.current_time, ..data }),
                    ..self
                },
                None => self,
            },
        }
    }

    /// Runs the update protocol on the open connection: the worker afterwards
    /// and what it asks for. Meant for a worker with a track.
    pub open spec fn start_update(self, now_ms: int) -> (WorkerView, WorkerActionView) {
        let plan = update_plan(
            self.data->0,
            self.last_sent_end_timestamp,
            self.show_when_paused,
            self.display_mode,
            now_ms,
        );
        match plan.request {
            UpdateRequestView::Skip => (self, WorkerActionView::Idle),
            UpdateRequestView::Clear => (
                WorkerView { pending: PendingView::Update(plan.remembered_end), ..self },
                WorkerActionView::ClearActivity,
            ),
            UpdateRequestView::Send(activity) => (
                WorkerView { pending: PendingView::Update(plan.remembered_end), ..self },
                WorkerActionView::SetActivity(activity),
            ),
        }
    }

    /// One synchronisation: the worker afterwards and what it asks for.
    pub open spec fn sync_discord(self, now_ms: int) -> (WorkerView, WorkerActionView) {
        if !self.is_enabled {
            if self.connected {
                (self.disconnect(), WorkerActionView::Close)
            } else {
                (self, WorkerActionView::Idle)
            }
        } else if self.data is None {
            if self.connected {
                (
                    WorkerView { last_sent_end_timestamp: None, ..self },
                    WorkerActionView::ClearActivityUnchecked,
                )
            } else {
                (self, WorkerActionView::Idle)
            }
        } else if !self.connected {
            if self.connect_retry_count > 0 {
                (
                    WorkerView {
                        connect_retry_count: (self.connect_retry_count - 1) as u8,
                        ..self
                    },
                    WorkerActionView::Idle,
                )
            } else {
                (WorkerView { pending: PendingView::Connect, ..self }, WorkerActionView::Connect)
            }
        } else {
            self.start_update(now_ms)
        }
    }

    /// The worker after the pending request finished, and what it asks for
    /// next.
    pub open spec fn request_finished(self, ok: bool, now_ms: int) -> (
        WorkerView,
        WorkerActionView,
    ) {
        let settled = WorkerView { pending: PendingView::Nothing, ..self };
        match self.pending {
            PendingView::Nothing => (self, WorkerActionView::Idle),
            PendingView::Connect => {
                if !ok {
                    (
                        WorkerView { connect_retry_count: 5, ..settled },
                        WorkerActionView::Idle,
                    )
                } else {
                    let connected = WorkerView {
                        connected: true,
                        last_sent_end_timestamp: None,
                        ..settled
                    };
                    if connected.data is Some {
                        connected.start_update(now_ms)
                    } else {
                        (connected, WorkerActionView::Idle)
                    }
                }
            },
            PendingView::Update(remembered_end) => {
                if ok {
                    (
                        WorkerView { last_sent_end_timestamp: remembered_end, ..settled },
                        WorkerActionView::Idle,
                    )
                } else if self.connected {
                    (settled.disconnect(), WorkerActionView::Close)
                } else {
                    (settled.disconnect(), WorkerActionView::Idle)
                }
            },
        }
    }

    /// The worker after `event`, and what it asks for.
    pub open spec fn step(self, event: WorkerEventView, now_ms: int) -> (
        WorkerView,
        WorkerActionView,
    ) {
        let fresh = WorkerView { pending: PendingView::Nothing, ..self };
        match event {
            WorkerEventView::Message(msg) => {
                let (next, action) = fresh.handle_message(msg).sync_discord(now_ms);
                if msg is Disable && self.connected {
                    (next, WorkerActionView::Close)
                } else {
                    (next, action)
                }
            },
            WorkerEventView::Timeout => {
                if self.connected {
                    (fresh, WorkerActionView::Idle)
                } else {
                    fresh.sync_discord(now_ms)
                }
            },
            WorkerEventView::Closed => (
                fresh.disconnect(),
                WorkerActionView::Shutdown { close: self.connected },
            ),
            WorkerEventView::Finished(ok) => self.request_finished(ok, now_ms),
        }
    }
}

impl Default for RpcWorker {
    fn default() -> (worker: RpcWorker)
        ensures
            worker@ == WorkerView::initial(),
    {
        RpcWorker {
            connected: false,
            data: None,
            is_enabled: false,
            connect_retry_count: 0,
            last_sent_end_timestamp: None,
            show_when_paused: false,
            display_mode: DiscordDisplayMode::Name,
            pending: Pending::Nothing,
        }
    }
}

impl RpcWorker {
    /// A worker before anything happened: disabled, not connected, no track.
    pub fn new() -> (worker: RpcWorker)
        ensures
            worker@ == WorkerView::initial(),
    {
        RpcWorker {
            connected: false,
            data: None,
            is_enabled: false,
            connect_retry_count: 0,
            last_sent_end_timestamp: None,
            show_when_paused: false,
            display_mode: DiscordDisplayMode::Name,
            pending: Pending::Nothing,
        }
    }

    /// Gives up the connection and forgets the remembered end. Returns
    /// whether there was a connection, which then has to be closed.
    pub fn disconnect(&mut self) -> (close: bool)
        ensures
            final(self)@ == old(self)@.disconnect(),
            close == old(self).connected,
    {
        let close = self.connected;
        self.connected = false;
        self.last_sent_end_timestamp = None;
        close
    }

    /// Takes in one command. Returns whether a connection has to be closed,
    /// which is so when the presence is disabled while connected.
    pub fn handle_message(&mut self, msg: RpcMessage) -> (close: bool)
        ensures
            final(self)@ == old(self)@.handle_message(msg@),
            close == (msg is Disable && old(self).connected),
    {
        match msg {
            RpcMessage::Enable => {
                self.is_enabled = true;
                self.connect_retry_count = 0;
                false
            },
            RpcMessage::Disable => {
                self.is_enabled = false;
                self.disconnect()
            },
            RpcMessage::Config(payload) => {
                self.show_when_paused = payload.show_when_paused;
                if let Some(mode) = payload.display_mode {
                    self.display_mode = mode;
                }
                self.last_sent_end_timestamp = None;
                false
            },
            RpcMessage::Metadata(payload) => {
                let new_data = match self.data.take() {
                    Some(mut data) => {
                        data.update_metadata(payload);
                        data
                    },
                    None => ActivityData::from_metadata(payload),
                };
                self.data = Some(new_data);
                self.last_sent_end_timestamp = None;
                false
            },
            RpcMessage::PlayState(status) => {
                match self.data.take() {
                    Some(mut data) => {
                        let resumed = match (status, data.status) {
                            (PlaybackStatus::Playing, PlaybackStatus::Paused) => true,
                            _ => false,
                        };
                        if resumed {
                            self.last_sent_end_timestamp = None;
                        }
                        data.status = status;
                        self.data = Some(data);
                    },
                    None => {},
                }
                false
            },
            RpcMessage::Timeline(payload) => {
                match self.data.take() {
                    Some(mut data) => {
                        data.current_time = payload.current_time;
                        self.data = Some(data);
                    },
                    None => {},
                }
                false
            },
        }
    }

    /// Decides whether to try to connect now: not while the cooldown runs,
    /// which this call shortens by one tick.
    pub fn connect(&mut self) -> (attempt: bool)
        ensures
            attempt == (old(self).connect_retry_count == 0),
            final(self)@ == if attempt {
                WorkerView { pending: PendingView::Connect, ..old(self)@ }
            } else {
                WorkerView {
                    connect_retry_count: (old(self).connect_retry_count - 1) as u8,
                    ..old(self)@
                }
            },
    {
        if self.connect_retry_count > 0 {
            self.connect_retry_count -= 1;
            false
        } else {
            self.pending = Pending::Connect;
            true
        }
    }

    /// Runs the update protocol on the open connection.
    fn start_update(&mut self, now_ms: i64) -> (action: WorkerAction)
        requires
            old(self).data is Some,
        ensures
            (final(self)@, action@) == old(self)@.start_update(now_ms as int),
    {
        let plan = match &self.data {
            Some(data) => perform_update(
                data,
                self.last_sent_end_timestamp,
                self.show_when_paused,
                self.display_mode,
                now_ms,
            ),
            None => UpdatePlan { request: UpdateRequest::Skip, remembered_end: None },
        };
        match plan.request {
            UpdateRequest::Skip => WorkerAction::Idle,
            UpdateRequest::Clear => {
                self.pending = Pending::Update(plan.remembered_end);
                WorkerAction::ClearActivity
            },
            UpdateRequest::Send(activity) => {
                self.pending = Pending::Update(plan.remembered_end);
                WorkerAction::SetActivity(activity)
            },
        }
    }

    /// Brings the display in line with the state: closes when disabled,
    /// clears when there is no track, connects when the cooldown allows it,
    /// and runs the update protocol when connected.
    pub fn sync_discord(&mut self, now_ms: i64) -> (action: WorkerAction)
        ensures
            (final(self)@, action@) == old(self)@.sync_discord(now_ms as int),
    {
        if !self.is_enabled {
            if self.disconnect_if_connected() {
                return WorkerAction::Close;
            }
            return WorkerAction::Idle;
        }
        if self.data.is_none() {
            if self.connected {
                self.last_sent_end_timestamp = None;
                return WorkerAction::ClearActivityUnchecked;
            }
            return WorkerAction::Idle;
        }
        if !self.connected {
            if self.connect() {
                return WorkerAction::Connect;
            }
            return WorkerAction::Idle;
        }
        self.start_update(now_ms)
    }

    /// Gives up the connection if there is one, and says whether there was.
    fn disconnect_if_connected(&mut self) -> (close: bool)
        ensures
            close == old(self).connected,
            final(self)@ == if close {
                old(self)@.disconnect()
            } else {
                old(self)@
            },
    {
        if self.connected {
            self.disconnect()
        } else {
            false
        }
    }

    /// Takes in the outcome of the pending request. A connect that succeeded
    /// is followed by the update protocol at once; one that failed starts the
    /// cooldown. A send or clear that succeeded settles the remembered end;
    /// one that failed gives up the connection.
    pub fn request_finished(&mut self, ok: bool, now_ms: i64) -> (action: WorkerAction)
        ensures
            (final(self)@, action@) == old(self)@.request_finished(ok, now_ms as int),
    {
        let pending = self.pending;
        match pending {
            Pending::Nothing => WorkerAction::Idle,
            Pending::Connect => {
                self.pending = Pending::Nothing;
                if !ok {
                    self.connect_retry_count = RECONNECT_COOLDOWN_SECONDS;
                    WorkerAction::Idle
                } else {
                    self.connected = true;
                    self.last_sent_end_timestamp = None;
                    if self.data.is_some() {
                        self.start_update(now_ms)
                    } else {
                        WorkerAction::Idle
                    }
                }
            },
            Pending::Update(remembered_end) => {
                self.pending = Pending::Nothing;
                if ok {
                    self.last_sent_end_timestamp = remembered_end;
                    WorkerAction::Idle
                } else if self.disconnect() {
                    WorkerAction::Close
                } else {
                    WorkerAction::Idle
                }
            },
        }
    }

    /// Takes in one event and answers with what to do on the connection.
    pub fn step(&mut self, event: WorkerEvent, now_ms: i64) -> (action: WorkerAction)
        ensures
            (final(self)@, action@) == old(self)@.step(event@, now_ms as int),
    {
        match event {
            WorkerEvent::Message(msg) => {
                self.pending = Pending::Nothing;
                let close = self.handle_message(msg);
                let action = self.sync_discord(now_ms);
                if close {
                    WorkerAction::Close
                } else {
                    action
                }
            },
            WorkerEvent::Timeout => {
                self.pending = Pending::Nothing;
                if self.connected {
                    WorkerAction::Idle
                } else {
                    self.sync_discord(now_ms)
                }
            },
            WorkerEvent::Closed => {
                self.pending = Pending::Nothing;
                let close = self.disconnect();
                WorkerAction::Shutdown { close }
            },
            WorkerEvent::Finished(ok) => self.request_finished(ok, now_ms),
        }
    }
}

} // verus!
