//! The broadcast bus: one bounded, multi-publisher, multi-subscriber channel
//! of envelopes, shared process-wide.
//!
//! The channel itself is tokio's broadcast channel, reached only through the
//! trusted wrappers below. Every subscriber owns an independent logical copy
//! of the stream; a subscriber that falls behind by more than the capacity is
//! told so explicitly (`Lagged`, carrying the number of missed envelopes)
//! instead of silently losing messages, and a slow subscriber never blocks
//! publishers or other subscribers.
//!
//! Each handle carries a ghost log of the envelopes that went through it —
//! what this handle published, what this handle received — so contracts can
//! speak of the traffic per handle. The sharing between handles is the
//! channel's own concurrent state, which no per-handle contract can pin.

use vstd::prelude::*;

use crate::socket_server::ChannelMessage;

verus! {

/// How many envelopes the bus retains for slow subscribers.
pub const BUS_CAPACITY: usize = 1024;

#[verifier::external_type_specification]
#[verifier::external_body]
#[verifier::reject_recursive_types(T)]
pub struct ExBroadcastSender<T>(tokio::sync::broadcast::Sender<T>);

#[verifier::external_type_specification]
#[verifier::external_body]
#[verifier::reject_recursive_types(T)]
pub struct ExBroadcastReceiver<T>(tokio::sync::broadcast::Receiver<T>);

/// The capacity the bounded channel behind a send handle was created with.
pub uninterp spec fn bus_capacity_of(tx: tokio::sync::broadcast::Sender<ChannelMessage>) -> nat;

/// What a subscriber observes when it asks the bus for the next envelope.
#[derive(Debug)]
pub enum BusEvent {
    /// The next envelope, in publish order.
    Message(ChannelMessage),
    /// The subscriber fell behind and this many envelopes were dropped from
    /// its private queue before it caught up.
    Lagged(u64),
    /// The bus itself is gone: every publisher dropped its send handle.
    Closed,
}

/// A send handle onto the bus, together with the log of what was published
/// through this very handle.
pub struct BusSender {
    pub raw: tokio::sync::broadcast::Sender<ChannelMessage>,
    pub log: Ghost<Seq<ChannelMessage>>,
}

/// A subscriber handle, together with the log of what this handle has
/// received so far.
pub struct BusReceiver {
    pub raw: tokio::sync::broadcast::Receiver<ChannelMessage>,
    pub log: Ghost<Seq<ChannelMessage>>,
}

impl Clone for BusSender {
    /// A cloned send handle reaches the same channel, with the same
    /// capacity; its per-handle log starts as a copy.
    fn clone(&self) -> (res: Self)
        ensures
            res.log == self.log,
            bus_capacity_of(res.raw) == bus_capacity_of(self.raw),
    {
        BusSender { raw: clone_sender_raw(&self.raw), log: Ghost(self.log@) }
    }
}

/// Relies on tokio::sync::broadcast::Sender::clone: the clone shares the
/// same channel, so it keeps the capacity the channel was created with.
#[verifier::external_body]
pub(crate) fn clone_sender_raw(tx: &tokio::sync::broadcast::Sender<ChannelMessage>) -> (res:
    tokio::sync::broadcast::Sender<ChannelMessage>)
    ensures
        bus_capacity_of(res) == bus_capacity_of(*tx),
{
    tx.clone()
}

/// Relies on tokio::sync::broadcast::channel: creates the bus with the given
/// capacity. The call panics when the capacity is zero or exceeds half of
/// usize::MAX, so those capacities are excluded here.
#[verifier::external_body]
pub(crate) fn bus_channel(capacity: usize) -> (r: tokio::sync::broadcast::Sender<ChannelMessage>)
    requires
        1 <= capacity <= usize::MAX / 2,
    ensures
        bus_capacity_of(r) == capacity as nat,
{
    tokio::sync::broadcast::channel(capacity).0
}

/// Relies on tokio::sync::broadcast::Sender::send: enqueues the envelope to
/// every current subscriber's private queue without blocking, and reports an
/// error, handing the envelope back unchanged, exactly when there is no
/// subscriber at all.
#[verifier::external_body]
fn bus_send_raw(
    tx: &tokio::sync::broadcast::Sender<ChannelMessage>,
    m: ChannelMessage,
) -> (r: Result<usize, ChannelMessage>)
    ensures
        r matches Err(e) ==> e == m,
{
    match tx.send(m) {
        Ok(n) => Ok(n),
        Err(tokio::sync::broadcast::error::SendError(v)) => Err(v),
    }
}

/// Publishes one envelope through this handle: the handle's log grows by
/// exactly that envelope, whether or not anybody was listening, and the
/// error case hands the envelope back unchanged.
pub fn bus_send(h: &mut BusSender, m: ChannelMessage) -> (r: Result<usize, ChannelMessage>)
    ensures
        final(h).log@ == old(h).log@.push(m),
        final(h).raw == old(h).raw,
        r matches Err(e) ==> e == m,
{
    h.log = Ghost(h.log@.push(m));
    bus_send_raw(&h.raw, m)
}

/// Relies on tokio::sync::broadcast::Sender::subscribe: returns a fresh
/// receive handle that will see every envelope published after this call.
#[verifier::external_body]
fn bus_subscribe_raw(
    tx: &tokio::sync::broadcast::Sender<ChannelMessage>,
) -> tokio::sync::broadcast::Receiver<ChannelMessage> {
    tx.subscribe()
}

/// Takes a fresh subscriber handle; it has received nothing yet.
pub fn bus_subscribe(h: &BusSender) -> (r: BusReceiver)
    ensures
        r.log@ == Seq::<ChannelMessage>::empty(),
{
    BusReceiver { raw: bus_subscribe_raw(&h.raw), log: Ghost(Seq::empty()) }
}

/// Relies on tokio::sync::broadcast::Receiver::try_recv: returns the next
/// pending envelope, a lag report, or the closed notice, each mapped to the
/// matching `BusEvent` variant, and `None` when nothing is pending yet.
#[verifier::external_body]
fn bus_try_recv(
    rx: &mut tokio::sync::broadcast::Receiver<ChannelMessage>,
) -> Option<BusEvent> {
    match rx.try_recv() {
        Ok(m) => Some(BusEvent::Message(m)),
        Err(tokio::sync::broadcast::error::TryRecvError::Empty) => None,
        Err(tokio::sync::broadcast::error::TryRecvError::Lagged(n)) => Some(BusEvent::Lagged(n)),
        Err(tokio::sync::broadcast::error::TryRecvError::Closed) => Some(BusEvent::Closed),
    }
}

/// Polls the bus without suspending: the next event for this subscriber, or
/// `None` while its queue is empty. A received envelope is appended to this
/// handle's receive log, in arrival order; every other outcome leaves the
/// log as it was. The suspending receive that the outbound half of a live
/// connection uses reports the same three events.
pub fn bus_poll(rx: &mut BusReceiver) -> (r: Option<BusEvent>)
    ensures
        (match r {
            Option::Some(BusEvent::Message(m)) => final(rx).log@ == old(rx).log@.push(m),
            _ => final(rx).log@ == old(rx).log@,
        }),
{
    let r = bus_try_recv(&mut rx.raw);
    match &r {
        Option::Some(BusEvent::Message(m)) => {
            rx.log = Ghost(rx.log@.push(*m));
        },
        _ => {},
    }
    r
}

} // verus!
