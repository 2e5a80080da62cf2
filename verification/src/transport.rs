//! The in-process transport: a pair of shared FIFO queues of wire
//! messages, plus a liveness token so each endpoint can observe whether
//! the peer endpoint still exists.

use vstd::prelude::*;
use vstd::rwlock::RwLock;
use vstd::rwlock::RwLockPredicate;
use std::collections::VecDeque;
use std::sync::Arc;
use crate::chan::Chan;
use crate::proto::Protocol;
use crate::proto::Value;
use crate::proto::dual;
use crate::proto::dual_of;
use crate::proto::dual_spec;

verus! {

/// How many times a blocking wait polls before giving up; in effect it
/// waits until data arrives or the peer goes away.
pub(crate) const POLL_BUDGET: u64 = 0xffff_ffff_ffff_ffff;

/// One message on the wire: either a payload or the boolean discriminant
/// of a branch choice.
#[derive(Debug)]
pub enum Message {
    Val(Value),
    Choice(bool),
}

/// The lock predicate for a wire queue; any sequence of messages may sit
/// in the queue.
pub struct WirePred {}

impl RwLockPredicate<VecDeque<Message>> for WirePred {
    open spec fn inv(self, v: VecDeque<Message>) -> bool {
        true
    }
}

/// One direction of a wire: a FIFO queue shared by the two endpoints.
pub type Wire = Arc<RwLock<VecDeque<Message>, WirePred>>;

/// A liveness probe for the peer endpoint: it observes the peer's token
/// without keeping it alive.  It holds a `std::sync::Weak`, which the
/// verifier cannot model, so the whole struct is opaque to it.
#[verifier::external_body]
pub struct PeerProbe {
    w: std::sync::Weak<u8>,
}

/// Relies on `Arc::downgrade`: makes a weak pointer to the token that does
/// not keep it alive.
#[verifier::external_body]
pub(crate) fn probe_of(token: &Arc<u8>) -> PeerProbe {
    PeerProbe { w: Arc::downgrade(token) }
}

/// Relies on `Weak::strong_count`: the number of live strong pointers to
/// the token, zero once the token has been dropped.
#[verifier::external_body]
pub(crate) fn probe_count(p: &PeerProbe) -> usize {
    p.w.strong_count()
}

/// Relies on `Weak::clone`: the clone observes the same token.
#[verifier::external_body]
pub(crate) fn probe_duplicate(p: &PeerProbe) -> PeerProbe {
    PeerProbe { w: p.w.clone() }
}

/// Relies on `Arc::clone`: the clone points at the same allocation, so it
/// holds the same value.
#[verifier::external_body]
pub(crate) fn arc_share<T>(x: &Arc<T>) -> (r: Arc<T>)
    ensures
        r == *x,
{
    Arc::clone(x)
}

/// Make a fresh, empty wire.
pub(crate) fn new_wire() -> Wire {
    Arc::new(RwLock::new(VecDeque::new(), Ghost(WirePred {})))
}

/// Append a message to a wire.
pub(crate) fn wire_push(w: &Wire, m: Message) {
    let (mut q, handle) = w.acquire_write();
    q.push_back(m);
    handle.release_write(q);
}

/// Take the oldest message off a wire, if one is there.
pub(crate) fn wire_take(w: &Wire) -> Option<Message> {
    let (mut q, handle) = w.acquire_write();
    let m = q.pop_front();
    handle.release_write(q);
    m
}

/// Whether a message is waiting on a wire.
pub(crate) fn wire_ready(w: &Wire) -> bool {
    let handle = w.acquire_read();
    let n = handle.borrow().len();
    handle.release_read();
    n > 0
}

/// One endpoint of a bidirectional transport: an outgoing and an incoming
/// wire, this endpoint's liveness token, and a probe on the peer's token.
pub struct Channel {
    pub outgoing: Wire,
    pub incoming: Wire,
    pub token: Arc<u8>,
    pub peer: PeerProbe,
}

impl Channel {
    /// Whether the peer endpoint still exists.
    pub fn peer_live(&self) -> bool {
        probe_count(&self.peer) > 0
    }

    /// Write a message to the peer.
    pub fn send_msg(&self, m: Message) {
        wire_push(&self.outgoing, m);
    }

    /// Whether an incoming message is waiting.
    pub fn ready(&self) -> bool {
        wire_ready(&self.incoming)
    }

    /// Block until an incoming message arrives; `None` once the peer
    /// endpoint is gone and nothing is left to drain.  The wait is a poll
    /// loop with a budget so large it never runs out in practice.
    pub fn recv_blocking(&self) -> Option<Message> {
        let mut fuel: u64 = POLL_BUDGET;
        loop
            decreases fuel,
        {
            let m = wire_take(&self.incoming);
            if m.is_some() {
                return m;
            }
            if probe_count(&self.peer) == 0 {
                // The peer cannot write any more: one final drain decides.
                return wire_take(&self.incoming);
            }
            if fuel == 0 {
                return None;
            }
            fuel = fuel - 1;
        }
    }
}

/// Make a fresh transport pair whose endpoints are wired to each other.
pub fn channel_pair() -> (r: (Channel, Channel))
    ensures
        r.0.outgoing == r.1.incoming,
        r.0.incoming == r.1.outgoing,
{
    let ab = new_wire();
    let ba = new_wire();
    let ta = Arc::new(0u8);
    let tb = Arc::new(0u8);
    let a = Channel {
        outgoing: arc_share(&ab),
        incoming: arc_share(&ba),
        token: ta,
        peer: probe_of(&tb),
    };
    let pa = probe_of(&a.token);
    let b = Channel { outgoing: ba, incoming: ab, token: tb, peer: pa };
    (a, b)
}

/// Create a pair of dual handles over a fresh transport: one typed at
/// `p`, the other at the structural dual of `p`, both with empty
/// environment stacks.
pub fn session_channel(p: Protocol) -> (r: (Chan, Chan))
    ensures
        r.0.proto == p,
        r.1.proto == dual_spec(p),
        dual(r.0.proto, r.1.proto),
        r.0.env@.len() == 0,
        r.1.env@.len() == 0,
        r.0.carrier.outgoing == r.1.carrier.incoming,
        r.0.carrier.incoming == r.1.carrier.outgoing,
{
    let q = dual_of(&p);
    let (ca, cb) = channel_pair();
    (Chan::new(ca, p), Chan::new(cb, q))
}

} // verus!
