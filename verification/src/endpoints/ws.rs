//! Live updates: the events that mutations publish, and what a live
//! connection does with what reaches it.

use vstd::prelude::*;
use crate::db::tags::Tag;
use crate::db::tasks::Task;

verus! {

/// The tags that changed.
#[derive(Debug, PartialEq, Eq)]
pub struct TagSyncMessage {
    pub d: Vec<Tag>,
}

/// The tasks that changed.
#[derive(Debug, PartialEq, Eq)]
pub struct TaskSyncMessage {
    pub d: Vec<Task>,
}

/// The body of a live-update event.
#[derive(Debug, PartialEq, Eq)]
pub enum WsData {
    Tags(TagSyncMessage),
    Tasks(TaskSyncMessage),
}

/// A live-update event: its kind `t` and its body `d`.
#[derive(Debug, PartialEq, Eq)]
pub struct WsMessage {
    pub t: String,
    pub d: WsData,
}

/// The body of an event as plain values.
pub ghost enum WsDataView {
    Tags(Seq<Tag>),
    Tasks(Seq<Task>),
}

/// An event as plain values.
pub ghost struct WsMessageView {
    pub t: Seq<char>,
    pub d: WsDataView,
}

impl View for WsData {
    type V = WsDataView;

    open spec fn view(&self) -> WsDataView {
        match self {
            WsData::Tags(message) => WsDataView::Tags(message.d@),
            WsData::Tasks(message) => WsDataView::Tasks(message.d@),
        }
    }
}

impl View for WsMessage {
    type V = WsMessageView;

    open spec fn view(&self) -> WsMessageView {
        WsMessageView { t: self.t@, d: self.d@ }
    }
}

/// An event on its way to the hub, with the user whose data it carries.
#[derive(Debug, PartialEq, Eq)]
pub struct LiveEvent {
    pub owner: String,
    pub message: WsMessage,
}

/// An event on its way to the hub, as plain values.
pub ghost struct LiveEventView {
    pub owner: String,
    pub message: WsMessageView,
}

impl View for LiveEvent {
    type V = LiveEventView;

    open spec fn view(&self) -> LiveEventView {
        LiveEventView { owner: self.owner, message: self.message@ }
    }
}

/// The event that tells the devices of `owner` which tags changed.
pub open spec fn tags_changed(owner: String, tags: Seq<Tag>) -> LiveEventView {
    LiveEventView { owner, message: WsMessageView { t: "sync"@, d: WsDataView::Tags(tags) } }
}

impl LiveEvent {
    /// The event that tells the devices of `owner` which tags changed.
    pub fn sync_tags(owner: String, tags: Vec<Tag>) -> (event: LiveEvent)
        ensures
            event@ == tags_changed(owner, tags@),
    {
        LiveEvent {
            owner,
            message: WsMessage { t: "sync".to_owned(), d: WsData::Tags(TagSyncMessage { d: tags }) },
        }
    }
}

/// An event as it travels through the hub: serialised, with its owner.
#[derive(Debug, PartialEq, Eq)]
pub struct Broadcast {
    pub owner: String,
    pub text: String,
}

impl Clone for Broadcast {
    fn clone(&self) -> (copy: Self)
        ensures
            copy == *self,
    {
        Broadcast { owner: self.owner.clone(), text: self.text.clone() }
    }
}

/// What a subscription to the hub yields.
#[derive(Debug, PartialEq, Eq)]
pub enum HubEvent {
    /// An event was published.
    Message(Broadcast),
    /// The connection was too slow, and this many events were dropped for it.
    Lagged(u64),
    /// The hub is gone.
    Closed,
}

/// A frame on a live connection.
#[derive(Debug, PartialEq, Eq)]
pub enum Frame {
    Ping(Vec<u8>),
    Pong(Vec<u8>),
    Text(String),
    Binary(Vec<u8>),
    Close,
}

/// What the outbound loop does with what the hub yields.
#[derive(Debug, PartialEq, Eq)]
pub enum Outbound {
    /// Send the text to the peer.
    Forward(String),
    /// Nothing to send: wait for the next event.
    Skip,
    /// The loop is over.
    Stop,
}

/// What the inbound loop heard.
#[derive(Debug, PartialEq, Eq, Clone, Copy)]
pub enum Heard {
    Ping,
    Pong,
    Unknown,
    /// The peer is gone: the loop is over.
    Gone,
}

/// One live connection: whose device it serves, and which of its two loops
/// still run.
#[derive(Debug, PartialEq, Eq)]
pub struct Connection {
    pub owner: String,
    pub outbound_running: bool,
    pub inbound_running: bool,
}

/// What the outbound loop does with `event` on a connection of `owner`. A
/// loop that is over stays over. While it runs, an event of that user is
/// forwarded and one of another user is passed over; events that were
/// dropped for a slow connection are passed over too; a hub that is gone ends
/// the loop.
pub open spec fn outbound_for(owner: Seq<char>, running: bool, event: HubEvent) -> Outbound {
    if !running {
        Outbound::Stop
    } else {
        match event {
            HubEvent::Message(broadcast) => if broadcast.owner@ == owner {
                Outbound::Forward(broadcast.text)
            } else {
                Outbound::Skip
            },
            HubEvent::Lagged(_) => Outbound::Skip,
            HubEvent::Closed => Outbound::Stop,
        }
    }
}

/// What the inbound loop hears in what it read: a frame, or the end of the
/// connection.
pub open spec fn heard_in(frame: Option<Frame>) -> Heard {
    match frame {
        Some(Frame::Ping(_)) => Heard::Ping,
        Some(Frame::Pong(_)) => Heard::Pong,
        Some(_) => Heard::Unknown,
        None => Heard::Gone,
    }
}

/// The payload of the liveness probe that opens a connection.
pub open spec fn probe() -> Seq<u8> {
    seq![1u8]
}

/// Accepts a connection for a device of `owner`: both loops run, and the
/// frame to send at once is a liveness probe.
pub fn handle_socket(owner: String) -> (accepted: (Connection, Frame))
    ensures
        accepted.0.owner == owner,
        accepted.0.outbound_running,
        accepted.0.inbound_running,
        accepted.1 matches Frame::Ping(payload) && payload@ == probe(),
{
    let mut payload: Vec<u8> = Vec::new();
    payload.push(1u8);
    assert(payload@ =~= probe());
    (Connection { owner, outbound_running: true, inbound_running: true }, Frame::Ping(payload))
}

impl Connection {
    /// The connection counts as closed as soon as either loop is over.
    pub open spec fn closed(self) -> bool {
        !self.outbound_running || !self.inbound_running
    }

    pub fn is_closed(&self) -> (closed: bool)
        ensures
            closed == self.closed(),
    {
        !self.outbound_running || !self.inbound_running
    }

    /// The outbound loop's move on what the hub yielded.
    pub fn on_broadcast(&mut self, event: HubEvent) -> (action: Outbound)
        ensures
            action == outbound_for(old(self).owner@, old(self).outbound_running, event),
            final(self).owner == old(self).owner,
            final(self).inbound_running == old(self).inbound_running,
            final(self).outbound_running == !(action is Stop),
    {
        if !self.outbound_running {
            return Outbound::Stop;
        }
        match event {
            HubEvent::Message(broadcast) => if broadcast.owner == self.owner {
                Outbound::Forward(broadcast.text)
            } else {
                Outbound::Skip
            },
            HubEvent::Lagged(_) => Outbound::Skip,
            HubEvent::Closed => {
                self.outbound_running = false;
                Outbound::Stop
            },
        }
    }

    /// The outbound loop's move when the peer took a forwarded event, or did
    /// not: a failed send ends the loop.
    pub fn on_forwarded(&mut self, sent: bool)
        ensures
            final(self).owner == old(self).owner,
            final(self).inbound_running == old(self).inbound_running,
            final(self).outbound_running == (old(self).outbound_running && sent),
    {
        if !sent {
            self.outbound_running = false;
        }
    }

    /// The inbound loop's move on what it read: frames are noted and not
    /// acted on; the end of the connection ends the loop.
    pub fn on_frame(&mut self, frame: Option<Frame>) -> (heard: Heard)
        ensures
            heard == heard_in(frame),
            final(self).owner == old(self).owner,
            final(self).outbound_running == old(self).outbound_running,
            final(self).inbound_running == (old(self).inbound_running && !(heard is Gone)),
    {
        match frame {
            Some(Frame::Ping(_)) => Heard::Ping,
            Some(Frame::Pong(_)) => Heard::Pong,
            Some(_) => Heard::Unknown,
            None => {
                self.inbound_running = false;
                Heard::Gone
            },
        }
    }
}

} // verus!
