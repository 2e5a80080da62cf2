//! Session establishment: pairing two dual handles over a fresh
//! transport, and a registration channel over which a server publishes
//! newly created handles for clients to retrieve.

use vstd::prelude::*;
use vstd::rwlock::RwLock;
use vstd::rwlock::RwLockPredicate;
use std::collections::VecDeque;
use std::sync::Arc;
use crate::chan::Chan;
use crate::chan::SessionError;
use crate::proto::Protocol;
use crate::proto::are_dual;
use crate::proto::dual;
use crate::proto::dual_of;
use crate::proto::dual_spec;
use crate::transport::PeerProbe;
use crate::transport::POLL_BUDGET;
use crate::transport::arc_share;
use crate::transport::channel_pair;
use crate::transport::probe_count;
use crate::transport::probe_of;

verus! {

/// Create a pair of handles over a fresh transport, one at each of the
/// two given descriptors, with empty environment stacks.  Descriptors
/// that are not dual are a protocol mismatch, caught here before any
/// message is exchanged.
pub fn session_channel(p: Protocol, q: Protocol) -> (r: Result<(Chan, Chan), SessionError>)
    ensures
        r is Ok <==> dual(p, q),
        r matches Ok((a, b)) ==> a.proto == p && b.proto == q && a.env@.len() == 0 && b.env@.len()
            == 0 && a.carrier.outgoing == b.carrier.incoming && a.carrier.incoming
            == b.carrier.outgoing,
        r matches Err(e) ==> e == SessionError::ProtocolMismatch,
{
    if are_dual(&p, &q) {
        let (ca, cb) = channel_pair();
        Ok((Chan::new(ca, p), Chan::new(cb, q)))
    } else {
        Err(SessionError::ProtocolMismatch)
    }
}

/// Lock predicate for a registration queue: every handle waiting in the
/// queue is typed at the agreed descriptor with an empty environment
/// stack.
pub struct RegPred {
    pub expected: Protocol,
}

impl RwLockPredicate<VecDeque<Chan>> for RegPred {
    open spec fn inv(self, v: VecDeque<Chan>) -> bool {
        forall|i: int|
            0 <= i < v@.len() ==> v@[i].proto == self.expected && v@[i].env@.len() == 0
    }
}

/// The shared queue of a registration channel.
pub type RegWire = Arc<RwLock<VecDeque<Chan>, RegPred>>;

/// The producer end of a registration channel.  Accepting creates a
/// fresh dual pair, keeps the end typed at this sender's descriptor and
/// publishes the dual end.
pub struct RegSender {
    wire: RegWire,
    token: Arc<u8>,
    peer: PeerProbe,
    proto: Protocol,
}

impl RegSender {
    /// The descriptor at which accepted handles are typed.
    pub closed spec fn protocol_spec(&self) -> Protocol {
        self.proto
    }

    #[verifier::type_invariant]
    spec fn wf(&self) -> bool {
        self.wire.pred() == (RegPred { expected: dual_spec(self.proto) })
    }
}

/// The consumer end of a registration channel.
pub struct RegReceiver {
    wire: RegWire,
    token: Arc<u8>,
    peer: PeerProbe,
}

impl RegReceiver {
    /// The descriptor at which retrieved handles arrive.
    pub closed spec fn expected_spec(&self) -> Protocol {
        self.wire.pred().expected
    }
}

/// Make a registration channel for sessions rooted at `p`: the sender
/// keeps handles typed at `p`, the receiver retrieves handles typed at
/// the dual of `p`.
pub fn reg_channel(p: Protocol) -> (r: (RegSender, RegReceiver))
    ensures
        r.0.protocol_spec() == p,
        r.1.expected_spec() == dual_spec(p),
{
    let wire: RegWire = Arc::new(
        RwLock::new(VecDeque::new(), Ghost(RegPred { expected: dual_spec(p) })),
    );
    let ts = Arc::new(0u8);
    let tr = Arc::new(0u8);
    let ps = probe_of(&tr);
    let pr = probe_of(&ts);
    let sender = RegSender { wire: arc_share(&wire), token: ts, peer: ps, proto: p };
    let receiver = RegReceiver { wire, token: tr, peer: pr };
    (sender, receiver)
}

/// Take the next queued handle, if one is waiting; what comes out is
/// typed as the queue's predicate promises.
fn reg_take(w: &RegWire) -> (r: Option<Chan>)
    ensures
        r matches Some(c) ==> c.proto == w.pred().expected && c.env@.len() == 0,
{
    let (mut q, handle) = w.acquire_write();
    let m = q.pop_front();
    handle.release_write(q);
    m
}

/// Create a fresh dual pair, publish the requester's end, and keep the
/// end typed at the sender's own descriptor; `None` once the requesting
/// side is gone.
pub fn borrow_accept(tx: &RegSender) -> (r: Option<Chan>)
    ensures
        r matches Some(c) ==> c.proto == tx.protocol_spec() && c.env@.len() == 0,
{
    proof {
        use_type_invariant(tx);
    }
    if probe_count(&tx.peer) == 0 {
        return None;
    }
    let (ca, cb) = channel_pair();
    let mine = Chan::new(ca, tx.proto.duplicate());
    let theirs = Chan::new(cb, dual_of(&tx.proto));
    let (mut q, handle) = tx.wire.acquire_write();
    q.push_back(theirs);
    handle.release_write(q);
    Some(mine)
}

/// As `borrow_accept`, consuming the sender: the registration channel is
/// closed for this producer afterwards.
pub fn accept(tx: RegSender) -> (r: Option<Chan>)
    ensures
        r matches Some(c) ==> c.proto == tx.protocol_spec() && c.env@.len() == 0,
{
    borrow_accept(&tx)
}

/// Retrieve the next published handle, blocking until one arrives;
/// `None` once the producing side is gone with nothing pending.
pub fn borrow_request(rx: &RegReceiver) -> (r: Option<Chan>)
    ensures
        r matches Some(c) ==> c.proto == rx.expected_spec() && c.env@.len() == 0,
{
    let mut fuel: u64 = POLL_BUDGET;
    loop
        decreases fuel,
    {
        let c = reg_take(&rx.wire);
        if c.is_some() {
            return c;
        }
        if probe_count(&rx.peer) == 0 {
            // The producer cannot publish any more: one final drain.
            return reg_take(&rx.wire);
        }
        if fuel == 0 {
            return None;
        }
        fuel = fuel - 1;
    }
}

/// As `borrow_request`, consuming the receiver.
pub fn request(rx: RegReceiver) -> (r: Option<Chan>)
    ensures
        r matches Some(c) ==> c.proto == rx.expected_spec() && c.env@.len() == 0,
{
    borrow_request(&rx)
}

} // verus!
