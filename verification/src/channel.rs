//! The commands that callers send to the presence worker, and the queue that
//! carries them.
//!
//! The queue keeps the commands in the order in which they were sent. Sending
//! never waits: on a channel that was shut down the command is dropped. The
//! worker takes the commands out one by one; once the channel is shut down and
//! empty, it is told so and stops.

use crate::model::{
    DiscordConfigPayload, MetadataPayload, MetadataView, PlaybackStatus, TimelinePayload,
};
use std::collections::VecDeque;
use vstd::prelude::*;

verus! {

/// A command for the presence worker.
#[derive(Debug, Clone, PartialEq, Eq)]
pub enum RpcMessage {
    /// A new track: replaces the metadata.
    Metadata(MetadataPayload),
    /// Playback started or paused.
    PlayState(PlaybackStatus),
    /// The playback position changed.
    Timeline(TimelinePayload),
    /// Show the presence.
    Enable,
    /// Hide the presence and give up the connection.
    Disable,
    /// New display settings.
    Config(DiscordConfigPayload),
}

/// An `RpcMessage` with its text as sequences of characters.
pub enum RpcMessageView {
    Metadata(MetadataView),
    PlayState(PlaybackStatus),
    Timeline(TimelinePayload),
    Enable,
    Disable,
    Config(DiscordConfigPayload),
}

impl View for RpcMessage {
    type V = RpcMessageView;

    open spec fn view(&self) -> RpcMessageView {
        match *self {
            RpcMessage::Metadata(payload) => RpcMessageView::Metadata(payload@),
            RpcMessage::PlayState(status) => RpcMessageView::PlayState(status),
            RpcMessage::Timeline(payload) => RpcMessageView::Timeline(payload),
            RpcMessage::Enable => RpcMessageView::Enable,
            RpcMessage::Disable => RpcMessageView::Disable,
            RpcMessage::Config(payload) => RpcMessageView::Config(payload),
        }
    }
}

/// The channel between the callers and the worker.
pub struct RpcChannel {
    queue: VecDeque<RpcMessage>,
    open: bool,
}

/// What the worker finds when it looks into the channel.
#[derive(Debug, Clone, PartialEq, Eq)]
pub enum Received {
    /// The oldest command that was waiting.
    Message(RpcMessage),
    /// Nothing is waiting, and more may come.
    Empty,
    /// Nothing is waiting, and nothing will come: the channel was shut down.
    Disconnected,
}

/// A `Received` with its text as sequences of characters.
pub enum ReceivedView {
    Message(RpcMessageView),
    Empty,
    Disconnected,
}

impl View for Received {
    type V = ReceivedView;

    open spec fn view(&self) -> ReceivedView {
        match *self {
            Received::Message(msg) => ReceivedView::Message(msg@),
            Received::Empty => ReceivedView::Empty,
            Received::Disconnected => ReceivedView::Disconnected,
        }
    }
}

/// What looking into a channel gives: the oldest of the waiting commands, or
/// the reason why there is none.
pub open spec fn oldest_of(pending: Seq<RpcMessageView>, open: bool) -> ReceivedView {
    if pending.len() > 0 {
        ReceivedView::Message(pending[0])
    } else if open {
        ReceivedView::Empty
    } else {
        ReceivedView::Disconnected
    }
}

/// What waits in a channel after `msg` was sent on it.
pub open spec fn pending_after_send(
    pending: Seq<RpcMessageView>,
    open: bool,
    msg: RpcMessageView,
) -> Seq<RpcMessageView> {
    if open {
        pending.push(msg)
    } else {
        pending
    }
}

impl RpcChannel {
    /// The commands that wait in the channel, oldest first.
    pub closed spec fn pending(&self) -> Seq<RpcMessageView> {
        self.queue@.map_values(|msg: RpcMessage| msg@)
    }

    /// Whether commands are still accepted.
    pub closed spec fn is_open(&self) -> bool {
        self.open
    }

    /// Takes the oldest waiting command out of the channel.
    pub fn recv(&mut self) -> (received: Received)
        ensures
            received@ == oldest_of(old(self).pending(), old(self).is_open()),
            final(self).is_open() == old(self).is_open(),
            final(self).pending() == if old(self).pending().len() > 0 {
                old(self).pending().skip(1)
            } else {
                old(self).pending()
            },
    {
        match self.queue.pop_front() {
            Some(msg) => {
                proof {
                    assert(self.queue@ =~= old(self).queue@.skip(1));
                    assert(self.pending() =~= old(self).pending().skip(1));
                }
                Received::Message(msg)
            },
            None => {
                if self.open {
                    Received::Empty
                } else {
                    Received::Disconnected
                }
            },
        }
    }

    /// How many commands wait in the channel.
    pub fn len(&self) -> (n: usize)
        ensures
            n == self.pending().len(),
    {
        self.queue.len()
    }

    /// Whether commands are still accepted.
    pub fn accepts(&self) -> (open: bool)
        ensures
            open == self.is_open(),
    {
        self.open
    }
}

/// Opens a channel: empty, and accepting commands.
pub fn init() -> (channel: RpcChannel)
    ensures
        channel.is_open(),
        channel.pending() == Seq::<RpcMessageView>::empty(),
{
    let channel = RpcChannel { queue: VecDeque::new(), open: true };
    assert(channel.pending() =~= Seq::<RpcMessageView>::empty());
    channel
}

/// Puts `msg` at the end of the channel, or drops it if the channel was shut
/// down.
pub fn send(channel: &mut RpcChannel, msg: RpcMessage)
    ensures
        final(channel).is_open() == old(channel).is_open(),
        final(channel).pending() == pending_after_send(
            old(channel).pending(),
            old(channel).is_open(),
            msg@,
        ),
{
    if channel.open {
        channel.queue.push_back(msg);
        proof {
            assert(channel.pending() =~= old(channel).pending().push(msg@));
        }
    }
}

/// Asks the worker to show the presence.
pub fn enable(channel: &mut RpcChannel)
    ensures
        final(channel).is_open() == old(channel).is_open(),
        final(channel).pending() == pending_after_send(
            old(channel).pending(),
            old(channel).is_open(),
            RpcMessageView::Enable,
        ),
{
    send(channel, RpcMessage::Enable);
}

/// Asks the worker to hide the presence and give up the connection.
pub fn disable(channel: &mut RpcChannel)
    ensures
        final(channel).is_open() == old(channel).is_open(),
        final(channel).pending() == pending_after_send(
            old(channel).pending(),
            old(channel).is_open(),
            RpcMessageView::Disable,
        ),
{
    send(channel, RpcMessage::Disable);
}

/// Hands new display settings to the worker.
pub fn update_config(channel: &mut RpcChannel, payload: DiscordConfigPayload)
    ensures
        final(channel).is_open() == old(channel).is_open(),
        final(channel).pending() == pending_after_send(
            old(channel).pending(),
            old(channel).is_open(),
            RpcMessageView::Config(payload),
        ),
{
    send(channel, RpcMessage::Config(payload));
}

/// Announces a new track to the worker.
pub fn update_metadata(channel: &mut RpcChannel, payload: MetadataPayload)
    ensures
        final(channel).is_open() == old(channel).is_open(),
        final(channel).pending() == pending_after_send(
            old(channel).pending(),
            old(channel).is_open(),
            RpcMessageView::Metadata(payload@),
        ),
{
    send(channel, RpcMessage::Metadata(payload));
}

/// Tells the worker that playback started or paused.
pub fn update_play_state(channel: &mut RpcChannel, status: PlaybackStatus)
    ensures
        final(channel).is_open() == old(channel).is_open(),
        final(channel).pending() == pending_after_send(
            old(channel).pending(),
            old(channel).is_open(),
            RpcMessageView::PlayState(status),
        ),
{
    send(channel, RpcMessage::PlayState(status));
}

/// Tells the worker the playback position.
pub fn update_timeline(channel: &mut RpcChannel, payload: TimelinePayload)
    ensures
        final(channel).is_open() == old(channel).is_open(),
        final(channel).pending() == pending_after_send(
            old(channel).pending(),
            old(channel).is_open(),
            RpcMessageView::Timeline(payload),
        ),
{
    send(channel, RpcMessage::Timeline(payload));
}

/// Shuts the channel down: what waits in it stays, nothing more is accepted.
/// Returns whether the channel was open.
pub fn shutdown(channel: &mut RpcChannel) -> (was_open: bool)
    ensures
        was_open == old(channel).is_open(),
        !final(channel).is_open(),
        final(channel).pending() == old(channel).pending(),
{
    let was_open = channel.open;
    channel.open = false;
    was_open
}

} // verus!
