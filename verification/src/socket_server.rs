//! The socket server is what publishes updates to clients: it owns the
//! process-wide broadcast bus and the per-connection settings.

use vstd::prelude::*;

use crate::bus;
use crate::user::User;

verus! {

/// What kind of frame the server is sending to a client.
/// `SYSTEM` is for command replies, `ERROR` for error reports.
#[derive(Debug, Clone, PartialEq, Eq, Structural)]
pub enum UpdateType {
    MESSAGE,
    SYSTEM,
    ERROR,
}

/// One frame on its way out to a client.
#[derive(Debug)]
pub struct SocketMessage {
    pub message_type: UpdateType,
    pub content: String,
    pub sender: Option<User>,
}

/// An envelope in flight on the broadcast bus: a routing key, the body text,
/// and the authenticated sender. Immutable once published.
#[derive(Debug)]
pub struct ChannelMessage {
    pub channel: String,
    pub content: String,
    pub sender: User,
}

impl Clone for ChannelMessage {
    fn clone(&self) -> (res: Self)
        ensures
            res == *self,
    {
        ChannelMessage {
            channel: self.channel.clone(),
            content: self.content.clone(),
            sender: self.sender.clone(),
        }
    }
}

impl PartialEq for ChannelMessage {
    fn eq(&self, other: &ChannelMessage) -> (r: bool) {
        self.channel == other.channel && self.content == other.content && self.sender
            == other.sender
    }
}

impl vstd::std_specs::cmp::PartialEqSpecImpl for ChannelMessage {
    open spec fn obeys_eq_spec() -> bool {
        true
    }

    open spec fn eq_spec(&self, other: &ChannelMessage) -> bool {
        &&& self.channel@ == other.channel@
        &&& self.content@ == other.content@
        &&& crate::user::user_eq(&self.sender, &other.sender)
    }
}

/// The public values of a given sender; never holds private fields such as
/// passwords.
#[derive(Debug, Clone)]
pub struct MessageSender {
    pub name: String,
    pub handle: String,
    pub provider: String,
}

impl User {
    /// Projects the publicly shareable part of an identity; a missing
    /// contact reference becomes the empty string.
    pub fn message_sender(&self) -> (r: MessageSender)
        ensures
            r.name@ == self.username@,
            r.handle@ == self.handle@,
            match self.provider_site {
                Option::Some(p) => r.provider@ == p@,
                Option::None => r.provider@ == Seq::<char>::empty(),
            },
    {
        MessageSender {
            name: self.username.clone(),
            handle: self.handle.clone(),
            provider: match &self.provider_site {
                Option::Some(p) => p.clone(),
                Option::None => String::new(),
            },
        }
    }
}

/// The state every connection shares: one send handle onto the broadcast bus.
pub struct AppState {
    pub tx: bus::BusSender,
}

impl Clone for AppState {
    fn clone(&self) -> (res: Self)
        ensures
            res.tx.log == self.tx.log,
            bus::bus_capacity_of(res.tx.raw) == bus::bus_capacity_of(self.tx.raw),
    {
        AppState { tx: self.tx.clone() }
    }
}

impl AppState {
    /// Opens the process-wide broadcast bus at its fixed capacity; nothing
    /// has been published through the fresh handle yet.
    pub fn new() -> (r: AppState)
        ensures
            bus::bus_capacity_of(r.tx.raw) == bus::BUS_CAPACITY as nat,
            r.tx.log@ == Seq::<ChannelMessage>::empty(),
    {
        AppState {
            tx: bus::BusSender { raw: bus::bus_channel(bus::BUS_CAPACITY), log: Ghost(Seq::empty()) },
        }
    }

    /// Hands out one dedicated subscriber handle, for the outbound half of a
    /// new connection; it has received nothing yet.
    pub fn subscribe(&self) -> (r: bus::BusReceiver)
        ensures
            r.log@ == Seq::<ChannelMessage>::empty(),
    {
        bus::bus_subscribe(&self.tx)
    }
}

/// The websocket endpoint of the relay.
pub struct SocketServer {
    port: usize,
}

impl SocketServer {
    /// Which port the endpoint will listen on.
    pub closed spec fn spec_port(&self) -> usize {
        self.port
    }

    pub fn new(port: usize) -> (r: Self)
        ensures
            r.spec_port() == port,
    {
        SocketServer { port }
    }

    pub fn port(&self) -> (r: usize)
        ensures
            r == self.spec_port(),
    {
        self.port
    }
}

} // verus!
