//! One client connection, from handshake to teardown.
//!
//! A session runs as two independently scheduled halves over one transport:
//! the inbound half reads frames (subscription commands, pings, close), the
//! outbound half forwards bus envelopes that pass the connection's filter.
//! Everything either half decides is decided here, on plain values; the
//! surrounding program only performs the transport reads and writes and the
//! suspending bus receive, and hands the outcomes back in as events.

use vstd::prelude::*;
use vstd::string::StrSliceExecFns;
use vstd::string::StringExecFns;

use crate::bus::BusEvent;
use crate::filter::UserActiveChannel;
use crate::socket_server::{ChannelMessage, SocketMessage, UpdateType};
use crate::user::User;
use crate::wire;

verus! {

broadcast use vstd::slice::group_slice_axioms;

/// Longest accepted subscription command, in bytes: thirty characters at the
/// widest a character can be.
pub const MAX_CHANNEL_NAME_LENGTH_BYTES: usize = 4 * 30;

/// How many non-conforming frames a connection may send before it is closed
/// for a policy violation.
pub const MAX_NON_CONFORMING_FRAMES: u8 = 10;

/// The close code sent with the policy-violation close frame: the standard
/// "unsupported data" code.
pub const CLOSE_CODE_UNSUPPORTED: u16 = 1003;

/// One frame read from the client's transport.
#[derive(Debug)]
pub enum Frame {
    Text(String),
    Binary(Vec<u8>),
    Ping(Vec<u8>),
    Pong(Vec<u8>),
    Close,
}

/// What the inbound half observed when it asked the transport for a frame.
#[derive(Debug)]
pub enum InboundEvent {
    Received(Frame),
    /// The stream ended: the peer is gone.
    StreamEnd,
    /// The transport failed mid-read.
    ReadError,
}

/// Where a session stands in its lifecycle.
#[derive(Debug, Clone, PartialEq, Eq, Structural)]
pub enum SessionPhase {
    /// The transport upgrade is still in progress.
    Connecting,
    /// Waiting for the first frame, which must carry the token.
    Authenticating,
    /// Both halves are running.
    Active,
    /// One half has terminated; the other is to be cancelled and the
    /// transport closed.
    Closing,
    /// Torn down; both halves are gone and the transport is closed.
    Closed,
}

/// What the session tells the inbound half to do after a frame.
#[derive(Debug)]
pub enum InboundAction {
    /// Nothing to send; read the next frame.
    Proceed,
    /// Answer a ping by writing a pong with this payload.
    Pong(Vec<u8>),
    /// Write this text frame, then read the next frame.
    Reply(String),
    /// Write the policy-violation close frame, then terminate.
    CloseUnsupported,
    /// Terminate the inbound half cleanly.
    Stop,
    /// Terminate the inbound half on a transport error.
    Abort,
}

/// What the session tells the outbound half to do with a bus event.
#[derive(Debug)]
pub enum OutboundAction {
    /// Write this text frame to the client.
    Forward(String),
    /// The envelope did not pass the filter; take the next event.
    Ignore,
    /// Terminate the outbound half and with it the session.
    Disconnect,
}

/// What the session answers to the first inbound frame.
#[derive(Debug)]
pub enum HandshakeAction {
    /// Send this welcome frame; the session is active and its outbound half
    /// may now subscribe to the bus.
    Accept(String),
    /// Send this error frame, then a close frame; the session is closed and
    /// never subscribes.
    Reject(String),
}

/// The per-connection state both halves share: the lifecycle phase, the
/// authenticated identity, the subscription filter, and the count of
/// non-conforming frames seen so far.
#[derive(Debug)]
pub struct Session {
    pub phase: SessionPhase,
    pub user: Option<User>,
    pub filter: UserActiveChannel,
    pub junk_frames: u8,
}

/// The JSON text greeting a successfully authenticated client.
pub open spec fn welcome_json() -> Seq<char> {
    "{\"error\": false, \"value\": \"welcome\"}"@
}

/// The JSON text sent before closing a connection whose handshake failed.
pub open spec fn invalid_token_json() -> Seq<char> {
    "{\"error\":true,\"value\":\"invalid token\"}"@
}

/// The JSON text answering a subscription command that exceeds the byte
/// budget.
pub open spec fn channel_too_long_json() -> Seq<char> {
    "{\"content\":\"Channel name too long in bytes. Max is 120\",\"error\":true,\"value\":null}"@
}

/// The JSON text acknowledging a subscription command, echoing the payload.
pub open spec fn channel_changed_json(t: Seq<char>) -> Seq<char> {
    "{\"content\":\"successfully changed channel\",\"error\":false,\"value\":{\"String\":"@
        + wire::json_string(t) + "}}"@
}

/// The reason text on the policy-violation close frame.
pub open spec fn unsupported_reason() -> Seq<char> {
    "This server supports pings and text (utf-8 formatted)."@
}

/// The JSON text of a delivered envelope: a MESSAGE frame carrying the
/// envelope's content and its sender.
pub open spec fn delivered_json(m: ChannelMessage) -> Seq<char> {
    wire::socket_message_json(
        SocketMessage {
            message_type: UpdateType::MESSAGE,
            content: m.content,
            sender: Option::Some(m.sender),
        },
    )
}

/// Which filter a subscription command selects: the two keywords pick the
/// all- and the no-channel filter, anything else names a channel literally.
pub open spec fn spec_parse_command(t: Seq<char>, f: UserActiveChannel) -> bool {
    if t == "ALL"@ {
        f is All
    } else if t == "NONE"@ {
        f is NoChannel
    } else {
        f matches UserActiveChannel::Named(c) && c@ == t
    }
}

pub fn welcome_reply() -> (r: String)
    ensures
        r@ == welcome_json(),
{
    "{\"error\": false, \"value\": \"welcome\"}".to_owned()
}

pub fn invalid_token_reply() -> (r: String)
    ensures
        r@ == invalid_token_json(),
{
    "{\"error\":true,\"value\":\"invalid token\"}".to_owned()
}

pub fn channel_too_long_reply() -> (r: String)
    ensures
        r@ == channel_too_long_json(),
{
    "{\"content\":\"Channel name too long in bytes. Max is 120\",\"error\":true,\"value\":null}".to_owned()
}

pub fn channel_changed_reply(t: &str) -> (r: String)
    ensures
        r@ == channel_changed_json(t@),
{
    let mut out = String::new();
    out.append("{\"content\":\"successfully changed channel\",\"error\":false,\"value\":{\"String\":");
    wire::append_json_string(&mut out, t);
    out.append("}}");
    proof {
        assert(out@ =~= channel_changed_json(t@));
    }
    out
}

pub fn unsupported_close_reason() -> (r: String)
    ensures
        r@ == unsupported_reason(),
{
    "This server supports pings and text (utf-8 formatted).".to_owned()
}

impl InboundEvent {
    /// The token candidate of a handshake: the payload of a text frame, and
    /// nothing for every other event — those can never authenticate.
    pub fn first_frame_token(&self) -> (r: Option<&String>)
        ensures
            match r {
                Option::Some(t) => self matches InboundEvent::Received(Frame::Text(p)) && p == *t,
                Option::None => !(self matches InboundEvent::Received(Frame::Text(_))),
            },
    {
        match self {
            InboundEvent::Received(Frame::Text(t)) => Option::Some(t),
            _ => Option::None,
        }
    }
}

impl Session {
    /// The state both halves must preserve: the junk counter stays within
    /// its threshold, and an active session always has an identity bound.
    pub open spec fn wf(&self) -> bool {
        &&& self.junk_frames <= MAX_NON_CONFORMING_FRAMES
        &&& self.phase is Active ==> self.user is Some
    }

    /// A fresh session: transport upgrade in progress, nobody authenticated,
    /// nothing subscribed.
    pub fn new() -> (r: Session)
        ensures
            r.phase is Connecting,
            r.user is None,
            r.filter is NoChannel,
            r.junk_frames == 0,
            r.wf(),
    {
        Session {
            phase: SessionPhase::Connecting,
            user: Option::None,
            filter: UserActiveChannel::NoChannel,
            junk_frames: 0,
        }
    }

    /// The transport upgrade succeeded; the first frame is now awaited.
    pub fn on_upgrade(&mut self)
        requires
            old(self).phase is Connecting,
            old(self).wf(),
        ensures
            final(self).phase is Authenticating,
            final(self).user == old(self).user,
            final(self).filter == old(self).filter,
            final(self).junk_frames == old(self).junk_frames,
            final(self).wf(),
    {
        self.phase = SessionPhase::Authenticating;
    }

    /// Settles the handshake. `auth` is the identity check's verdict on the
    /// first frame's text payload (see [`InboundEvent::first_frame_token`]);
    /// for an event that carries no text payload it plays no part. The
    /// session becomes active exactly when the first frame was a text frame
    /// and its token validated; on any failure — no frame, a
    /// non-text frame, a rejected token — it goes straight to closed, and
    /// the dual-half loop never starts.
    pub fn on_first_frame(&mut self, ev: &InboundEvent, auth: Option<User>) -> (r: HandshakeAction)
        requires
            old(self).phase is Authenticating,
            old(self).wf(),
        ensures
            final(self).wf(),
            final(self).junk_frames == old(self).junk_frames,
            final(self).filter == old(self).filter,
            final(self).phase is Active <==> (ev matches InboundEvent::Received(Frame::Text(_))
                && auth is Some),
            (if ev matches InboundEvent::Received(Frame::Text(_)) && auth is Some {
                &&& final(self).phase is Active
                &&& final(self).user == auth
                &&& r matches HandshakeAction::Accept(w) && w@ == welcome_json()
            } else {
                &&& final(self).phase is Closed
                &&& final(self).user == old(self).user
                &&& r matches HandshakeAction::Reject(e) && e@ == invalid_token_json()
            }),
    {
        match ev {
            InboundEvent::Received(Frame::Text(_)) => {
                match auth {
                    Option::Some(u) => {
                        self.phase = SessionPhase::Active;
                        self.user = Option::Some(u);
                        HandshakeAction::Accept(welcome_reply())
                    },
                    Option::None => {
                        self.phase = SessionPhase::Closed;
                        HandshakeAction::Reject(invalid_token_reply())
                    },
                }
            },
            _ => {
                self.phase = SessionPhase::Closed;
                HandshakeAction::Reject(invalid_token_reply())
            },
        }
    }

    /// The inbound half's step: decides the response to one transport event
    /// while the session is active.
    ///
    /// A close frame, the end of the stream, and a read error each terminate
    /// the half. A ping is answered with a pong carrying the same payload. A
    /// text frame is a subscription command: if its byte length exceeds the
    /// budget it earns the length-error reply and changes nothing; otherwise
    /// the filter is replaced at once and the change acknowledged. Any other
    /// frame counts against the non-conforming threshold, and the frame
    /// after the threshold closes the connection for policy violation.
    pub fn on_frame(&mut self, ev: InboundEvent) -> (r: InboundAction)
        requires
            old(self).phase is Active,
            old(self).wf(),
        ensures
            final(self).wf(),
            final(self).user == old(self).user,
            (match ev {
                InboundEvent::StreamEnd => {
                    &&& r is Stop
                    &&& final(self).phase is Closing
                    &&& final(self).filter == old(self).filter
                    &&& final(self).junk_frames == old(self).junk_frames
                },
                InboundEvent::ReadError => {
                    &&& r is Abort
                    &&& final(self).phase is Closing
                    &&& final(self).filter == old(self).filter
                    &&& final(self).junk_frames == old(self).junk_frames
                },
                InboundEvent::Received(f) => match f {
                    Frame::Close => {
                        &&& r is Stop
                        &&& final(self).phase is Closing
                        &&& final(self).filter == old(self).filter
                        &&& final(self).junk_frames == old(self).junk_frames
                    },
                    Frame::Ping(p) => {
                        &&& r matches InboundAction::Pong(q) && q@ == p@
                        &&& final(self).phase is Active
                        &&& final(self).filter == old(self).filter
                        &&& final(self).junk_frames == old(self).junk_frames
                    },
                    Frame::Text(t) => {
                        if vstd::utf8::encode_utf8(t@).len() > MAX_CHANNEL_NAME_LENGTH_BYTES {
                            &&& r matches InboundAction::Reply(m) && m@ == channel_too_long_json()
                            &&& final(self).phase is Active
                            &&& final(self).filter == old(self).filter
                            &&& final(self).junk_frames == old(self).junk_frames
                        } else {
                            &&& r matches InboundAction::Reply(m) && m@ == channel_changed_json(
                                t@,
                            )
                            &&& final(self).phase is Active
                            &&& spec_parse_command(t@, final(self).filter)
                            &&& final(self).junk_frames == old(self).junk_frames
                        }
                    },
                    Frame::Binary(_) | Frame::Pong(_) => {
                        if old(self).junk_frames == MAX_NON_CONFORMING_FRAMES {
                            &&& r is CloseUnsupported
                            &&& final(self).phase is Closing
                            &&& final(self).filter == old(self).filter
                            &&& final(self).junk_frames == old(self).junk_frames
                        } else {
                            &&& r is Proceed
                            &&& final(self).phase is Active
                            &&& final(self).filter == old(self).filter
                            &&& final(self).junk_frames == old(self).junk_frames + 1
                        }
                    },
                },
            }),
    {
        match ev {
            InboundEvent::StreamEnd => {
                self.phase = SessionPhase::Closing;
                InboundAction::Stop
            },
            InboundEvent::ReadError => {
                self.phase = SessionPhase::Closing;
                InboundAction::Abort
            },
            InboundEvent::Received(f) => match f {
                Frame::Close => {
                    self.phase = SessionPhase::Closing;
                    InboundAction::Stop
                },
                Frame::Ping(p) => InboundAction::Pong(p),
                Frame::Text(t) => {
                    if t.as_str().as_bytes().len() > MAX_CHANNEL_NAME_LENGTH_BYTES {
                        InboundAction::Reply(channel_too_long_reply())
                    } else {
                        let reply = channel_changed_reply(t.as_str());
                        if t == "ALL".to_owned() {
                            self.filter = UserActiveChannel::All;
                        } else if t == "NONE".to_owned() {
                            self.filter = UserActiveChannel::NoChannel;
                        } else {
                            self.filter = UserActiveChannel::Named(t);
                        }
                        InboundAction::Reply(reply)
                    }
                },
                Frame::Binary(_) | Frame::Pong(_) => {
                    if self.junk_frames == MAX_NON_CONFORMING_FRAMES {
                        self.phase = SessionPhase::Closing;
                        InboundAction::CloseUnsupported
                    } else {
                        self.junk_frames = self.junk_frames + 1;
                        InboundAction::Proceed
                    }
                },
            },
        }
    }

    /// The outbound half's step: decides what to do with one bus event while
    /// the session is active.
    ///
    /// An envelope is forwarded exactly when it passes the filter now in
    /// force, serialized as a MESSAGE frame; otherwise it is discarded
    /// without a trace. A lag report is fatal for this connection — a
    /// subscriber that cannot keep up is disconnected rather than allowed to
    /// miss content silently — and so is the bus closing.
    pub fn on_bus_event(&mut self, ev: BusEvent) -> (r: OutboundAction)
        requires
            old(self).phase is Active,
            old(self).wf(),
        ensures
            final(self).wf(),
            final(self).user == old(self).user,
            final(self).filter == old(self).filter,
            final(self).junk_frames == old(self).junk_frames,
            (match ev {
                BusEvent::Message(m) => {
                    &&& final(self).phase is Active
                    &&& (if old(self).filter.spec_matches(m.channel@) {
                        r matches OutboundAction::Forward(s) && s@ == delivered_json(m)
                    } else {
                        r is Ignore
                    })
                },
                BusEvent::Lagged(_) => r is Disconnect && final(self).phase is Closing,
                BusEvent::Closed => r is Disconnect && final(self).phase is Closing,
            }),
    {
        match ev {
            BusEvent::Message(m) => {
                if self.filter.matches(m.channel.as_str()) {
                    let frame = SocketMessage {
                        message_type: UpdateType::MESSAGE,
                        content: m.content,
                        sender: Option::Some(m.sender),
                    };
                    OutboundAction::Forward(frame.to_json())
                } else {
                    OutboundAction::Ignore
                }
            },
            BusEvent::Lagged(_) => {
                self.phase = SessionPhase::Closing;
                OutboundAction::Disconnect
            },
            BusEvent::Closed => {
                self.phase = SessionPhase::Closing;
                OutboundAction::Disconnect
            },
        }
    }

    /// The surviving half has been cancelled and the transport closed: the
    /// session's resources are gone.
    pub fn on_teardown(&mut self)
        requires
            old(self).phase is Closing || old(self).phase is Closed,
            old(self).wf(),
        ensures
            final(self).phase is Closed,
            final(self).user == old(self).user,
            final(self).filter == old(self).filter,
            final(self).junk_frames == old(self).junk_frames,
            final(self).wf(),
    {
        self.phase = SessionPhase::Closed;
    }
}

/// Everything a filter lets through from a burst of envelopes: exactly the
/// matching envelopes, each serialized as a MESSAGE frame, kept in publish
/// order — an envelope's frame is appended after the frames of everything
/// published before it.
pub open spec fn spec_deliveries(f: UserActiveChannel, msgs: Seq<ChannelMessage>) -> Seq<Seq<char>>
    decreases msgs.len(),
{
    if msgs.len() == 0 {
        Seq::empty()
    } else {
        let rest = spec_deliveries(f, msgs.drop_last());
        if f.spec_matches(msgs.last().channel@) {
            rest.push(delivered_json(msgs.last()))
        } else {
            rest
        }
    }
}

/// The views of a batch of frames.
pub open spec fn frame_views(out: Seq<String>) -> Seq<Seq<char>> {
    out.map_values(|s: String| s@)
}

/// The outbound half over a whole burst of envelopes: what a connection
/// holding `filter` forwards is decided by that filter alone — whatever
/// filter the connection held earlier plays no part — and the envelopes
/// that match are forwarded in publish order, unchanged.
pub fn forward_batch(filter: &UserActiveChannel, msgs: &Vec<ChannelMessage>) -> (out: Vec<
    String,
>)
    ensures
        frame_views(out@) == spec_deliveries(*filter, msgs@),
{
    let mut out: Vec<String> = Vec::new();
    proof {
        assert(msgs@.subrange(0, 0) =~= Seq::<ChannelMessage>::empty());
        assert(frame_views(out@) =~= spec_deliveries(*filter, msgs@.subrange(0, 0)));
    }
    let n = msgs.len();
    let mut i: usize = 0;
    while i < n
        invariant
            i <= n,
            n == msgs@.len(),
            frame_views(out@) == spec_deliveries(*filter, msgs@.subrange(0, i as int)),
        decreases n - i,
    {
        let m = &msgs[i];
        let forwarded = filter.matches(m.channel.as_str());
        if forwarded {
            let frame = SocketMessage {
                message_type: UpdateType::MESSAGE,
                content: m.content.clone(),
                sender: Option::Some(m.sender.clone()),
            };
            out.push(frame.to_json());
        }
        proof {
            let prev = msgs@.subrange(0, i as int);
            let cur = msgs@.subrange(0, i + 1);
            assert(cur.drop_last() =~= prev);
            assert(cur.last() == msgs@[i as int]);
            assert(frame_views(out@) =~= spec_deliveries(*filter, cur));
        }
        i = i + 1;
    }
    proof {
        assert(msgs@.subrange(0, n as int) =~= msgs@);
    }
    out
}

} // verus!
