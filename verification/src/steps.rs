//! A small-step model of one conversation: how each operation moves a
//! descriptor, the wire between the two parties, and the environment
//! stack.  The laws proved here relate the two ends of a dual pair: what
//! one side puts on the wire is exactly what the dual side takes off it.

use vstd::prelude::*;
use crate::chan::branch_of;
use crate::chan::payload_of;
use crate::proto::Kind;
use crate::proto::Protocol;
use crate::proto::Value;
use crate::proto::kind_of;
use crate::proto::dual;
use crate::proto::env_dual;
use crate::transport::Message;

verus! {

/// Sending `v` at `p` appends the payload to the wire and steps to the
/// continuation; it is undefined unless `p` is a send of `v`'s kind.
pub open spec fn send_step(p: Protocol, w: Seq<Message>, v: Value) -> Option<
    (Protocol, Seq<Message>),
> {
    match p {
        Protocol::Send(k, r) => if kind_of(v) == k {
            Some((*r, w.push(Message::Val(v))))
        } else {
            None
        },
        _ => None,
    }
}

/// Receiving at `p` takes the oldest wire message, which must be a payload
/// of the expected kind, and steps to the continuation.
pub open spec fn recv_step(p: Protocol, w: Seq<Message>) -> Option<
    (Protocol, Seq<Message>, Value),
> {
    match p {
        Protocol::Recv(k, r) => if w.len() > 0 {
            match w[0] {
                Message::Val(v) => if kind_of(v) == k {
                    Some((*r, w.skip(1), v))
                } else {
                    None
                },
                Message::Choice(_) => None,
            }
        } else {
            None
        },
        _ => None,
    }
}

/// An active choice appends its discriminant to the wire and steps into
/// the picked branch: left on true, right on false.
pub open spec fn select_step(p: Protocol, w: Seq<Message>, left: bool) -> Option<
    (Protocol, Seq<Message>),
> {
    match p {
        Protocol::Choose(l, r) => Some(
            (if left {
                *l
            } else {
                *r
            }, w.push(Message::Choice(left))),
        ),
        _ => None,
    }
}

/// A passive choice takes the oldest wire message, which must be a
/// discriminant, and steps into the branch it names.
pub open spec fn offer_step(p: Protocol, w: Seq<Message>) -> Option<
    (Protocol, Seq<Message>, bool),
> {
    match p {
        Protocol::Offer(l, r) => if w.len() > 0 {
            match w[0] {
                Message::Choice(b) => Some(
                    (if b {
                        *l
                    } else {
                        *r
                    }, w.skip(1), b),
                ),
                Message::Val(_) => None,
            }
        } else {
            None
        },
        _ => None,
    }
}

/// The wire-level receive step agrees with the per-message payload
/// classification that the executable receive is contracted over: at a
/// receive of kind `k` with a nonempty wire, the step is defined exactly
/// when the head message carries an accepted payload, and it hands over
/// exactly that payload.
pub proof fn lemma_recv_step_matches_payload(k: Kind, r: Protocol, w: Seq<Message>)
    requires
        w.len() > 0,
    ensures
        ({
            let p = Protocol::Recv(k, Box::new(r));
            match payload_of(Some(w[0]), k) {
                Some(v) => recv_step(p, w) == Some((r, w.skip(1), v)),
                None => recv_step(p, w) is None,
            }
        }),
{
}

/// The wire-level offer step agrees with the per-message branch
/// classification that the executable offer is contracted over: at an
/// offer with a nonempty wire, the step is defined exactly when the head
/// message is a discriminant, and it follows exactly that discriminant.
pub proof fn lemma_offer_step_matches_branch(l: Protocol, s: Protocol, w: Seq<Message>)
    requires
        w.len() > 0,
    ensures
        ({
            let p = Protocol::Offer(Box::new(l), Box::new(s));
            match branch_of(Some(w[0])) {
                Some(b) => offer_step(p, w) == Some(
                    (if b {
                        l
                    } else {
                        s
                    }, w.skip(1), b),
                ),
                None => offer_step(p, w) is None,
            }
        }),
{
}

/// Where repeated popping lands: from a recursion variable of depth `d`
/// over stack `e`, pop `d` frames, then continue at the body recorded on
/// top; undefined once the stack would be popped past empty.
pub open spec fn recurse_out(d: nat, e: Seq<Protocol>) -> Option<(Protocol, Seq<Protocol>)>
    decreases d,
{
    if e.len() == 0 {
        None
    } else if d == 0 {
        Some((e.last(), e))
    } else {
        recurse_out((d - 1) as nat, e.drop_last())
    }
}

/// Round-trip fidelity: for any value `v` of the sent kind, a handle at a
/// send descriptor that sends `v`, paired with a dual handle that
/// receives, hands the very value `v` to the receiver, empties the wire
/// again, and leaves the two continuations dual.
pub proof fn lemma_send_recv_round_trip(p: Protocol, q: Protocol, v: Value)
    requires
        dual(p, q),
        p matches Protocol::Send(k, _) && kind_of(v) == k,
    ensures
        send_step(p, Seq::empty(), v) matches Some(sw) && recv_step(q, sw.1) matches Some(rw)
            && rw.2 == v && rw.1.len() == 0 && dual(sw.0, rw.0),
{
    match (p, q) {
        (Protocol::Send(a, r), Protocol::Recv(b, s)) => {
            let w = Seq::empty().push(Message::Val(v));
            assert(w[0] == Message::Val(v));
            assert(w.skip(1).len() == 0);
        },
        _ => {
            assert(false);
        },
    }
}

/// Branch resolution: selecting the left branch makes the dual offer
/// resolve to its left branch, selecting the right makes it resolve to
/// its right branch, the discriminant read equals the one written, and no
/// third outcome exists.  The continuations stepped into are dual again.
pub proof fn lemma_choose_offer_resolution(p: Protocol, q: Protocol, left: bool)
    requires
        dual(p, q),
        p is Choose,
    ensures
        select_step(p, Seq::empty(), left) matches Some(sw) && offer_step(q, sw.1) matches Some(
            ow,
        ) && ow.2 == left && ow.1.len() == 0 && dual(sw.0, ow.0),
        left ==> (q matches Protocol::Offer(l, _) && offer_step(
            q,
            select_step(p, Seq::empty(), left)->Some_0.1,
        )->Some_0.0 == *l),
        !left ==> (q matches Protocol::Offer(_, s) && offer_step(
            q,
            select_step(p, Seq::empty(), left)->Some_0.1,
        )->Some_0.0 == *s),
{
    match (p, q) {
        (Protocol::Choose(l1, s1), Protocol::Offer(l2, s2)) => {
            let w = Seq::empty().push(Message::Choice(left));
            assert(w[0] == Message::Choice(left));
            assert(w.skip(1).len() == 0);
        },
        _ => {
            assert(false);
        },
    }
}

/// Stack balance: after entering loop bodies `bs` in order on top of a
/// stack `e0`, recursing out through all the entered layers lands exactly
/// at the state reached right after the first entry: the first body, over
/// the stack that recorded it.
pub proof fn lemma_recursion_balance(e0: Seq<Protocol>, bs: Seq<Protocol>)
    requires
        bs.len() >= 1,
    ensures
        recurse_out((bs.len() - 1) as nat, e0 + bs) == Some((bs[0], e0.push(bs[0]))),
    decreases bs.len(),
{
    if bs.len() == 1 {
        assert(e0 + bs =~= e0.push(bs[0]));
    } else {
        lemma_recursion_balance(e0, bs.drop_last());
        assert((e0 + bs).drop_last() =~= e0 + bs.drop_last());
        assert(bs.drop_last()[0] == bs[0]);
    }
}

/// Recursion jumps agree across a dual pair: over environment stacks that
/// are dual frame by frame, recursing out the same number of layers lands
/// both sides on dual bodies over stacks that are dual again.
pub proof fn lemma_recurse_out_dual(d: nat, e1: Seq<Protocol>, e2: Seq<Protocol>)
    requires
        env_dual(e1, e2),
        d < e1.len(),
    ensures
        recurse_out(d, e1) matches Some(a) && recurse_out(d, e2) matches Some(b) && dual(
            a.0,
            b.0,
        ) && env_dual(a.1, b.1),
    decreases d,
{
    if d == 0 {
        assert(dual(e1[e1.len() - 1], e2[e2.len() - 1]));
    } else {
        assert(env_dual(e1.drop_last(), e2.drop_last()));
        lemma_recurse_out_dual((d - 1) as nat, e1.drop_last(), e2.drop_last());
    }
}

/// Recursing out more layers than were ever entered is rejected: the jump
/// has no defined landing state.
pub proof fn lemma_recursion_overflow(d: nat, e: Seq<Protocol>)
    requires
        d >= e.len(),
    ensures
        recurse_out(d, e) is None,
    decreases d,
{
    if e.len() == 0 {
    } else {
        lemma_recursion_overflow((d - 1) as nat, e.drop_last());
    }
}

} // verus!
