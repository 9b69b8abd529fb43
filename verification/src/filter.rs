//! Per-connection subscription state: which channel, if any, a connection
//! wants to hear from.

use vstd::prelude::*;

verus! {

/// The channel a connection is currently subscribed to. The default on
/// connect is `NoChannel`: nothing is delivered until the client opts in.
/// A named channel is an opaque routing key compared for exact equality;
/// it is a distinct variant rather than a nullable string so that "no
/// subscription" can never be confused with "subscribed to the empty-string
/// channel".
#[derive(Debug)]
pub enum UserActiveChannel {
    /// Subscribed to exactly one channel, by name.
    Named(String),
    /// Deliver nothing.
    NoChannel,
    /// Deliver every published envelope.
    All,
}

impl UserActiveChannel {
    /// Whether an envelope published to `channel` is forwarded under this
    /// filter: `NoChannel` matches nothing, `All` matches everything, and
    /// `Named(c)` matches exactly the channel `c`, case-sensitively.
    pub open spec fn spec_matches(&self, channel: Seq<char>) -> bool {
        match self {
            UserActiveChannel::Named(c) => c@ == channel,
            UserActiveChannel::NoChannel => false,
            UserActiveChannel::All => true,
        }
    }

    /// Decides whether an envelope routed to `channel` passes this filter.
    pub fn matches(&self, channel: &str) -> (r: bool)
        ensures
            r == self.spec_matches(channel@),
    {
        match self {
            UserActiveChannel::Named(c) => *c == channel.to_owned(),
            UserActiveChannel::NoChannel => false,
            UserActiveChannel::All => true,
        }
    }
}

/// Matching is total and deterministic: every filter gives a verdict on every
/// channel, `NoChannel` never matches, `All` always matches, and `Named(c)`
/// matches exactly when the channel names are equal.
pub proof fn lemma_matches_total(f: UserActiveChannel, channel: Seq<char>)
    ensures
        f is NoChannel ==> !f.spec_matches(channel),
        f is All ==> f.spec_matches(channel),
        forall|c: String| f == UserActiveChannel::Named(c) ==> (f.spec_matches(channel) <==> c@
            == channel),
{
}

} // verus!
