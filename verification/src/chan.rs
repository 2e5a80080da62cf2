//! The session-typed channel handle.
//!
//! A handle owns one transport endpoint together with its current protocol
//! descriptor and the environment stack of entered recursion bodies.  Every
//! operation consumes the handle; on success it returns a fresh handle at
//! the successor descriptor.  An operation invoked at the wrong descriptor
//! is detected and reported as a usage error, so a handle can never be
//! driven past its protocol.

use vstd::prelude::*;
use crate::proto::Kind;
use crate::proto::Protocol;
use crate::proto::Value;
use crate::proto::kind_of;
use crate::transport::Channel;
use crate::transport::Message;

verus! {

/// Everything that can go wrong in a session.
#[derive(Clone, Copy, PartialEq, Eq, Structural, Debug)]
pub enum SessionError {
    /// The two descriptors handed to session establishment are not dual,
    /// or a handle arrived typed at an unexpected descriptor.
    ProtocolMismatch,
    /// The peer endpoint is gone, or the wire delivered something the
    /// current descriptor cannot accept.
    TransportError,
    /// An operation was invoked on a handle whose descriptor does not
    /// allow it.
    UsageError,
    /// Every transport under selection is disconnected.
    SelectionError,
    /// Selection was attempted over no registrations at all.
    EmptySelection,
}

/// A session-typed channel handle.
pub struct Chan {
    pub carrier: Channel,
    pub env: Vec<Protocol>,
    pub proto: Protocol,
}

/// The two ways a passive choice can resolve.
pub enum Either {
    Left(Chan),
    Right(Chan),
}

/// Whether `p` lets a holder send the value `v` now.
pub open spec fn send_allowed(p: Protocol, v: Value) -> bool {
    p matches Protocol::Send(k, _) && kind_of(v) == k
}

/// The continuation a send or receive descriptor steps to.
pub open spec fn cont_of(p: Protocol) -> Protocol {
    match p {
        Protocol::Send(_, r) => *r,
        Protocol::Recv(_, r) => *r,
        _ => p,
    }
}

/// The descriptor reached from a nest of active choices by picking the
/// right branch `n` times; `None` if the nest is not that deep.
pub open spec fn rskip(p: Protocol, n: nat) -> Option<Protocol>
    decreases n,
{
    if n == 0 {
        Some(p)
    } else {
        match p {
            Protocol::Choose(_, s) => rskip(*s, (n - 1) as nat),
            _ => None,
        }
    }
}

/// The payload accepted from one wire message at a receive of kind `k`:
/// the carried value when the message is a payload of that kind, nothing
/// otherwise.
pub open spec fn payload_of(m: Option<Message>, k: Kind) -> Option<Value> {
    match m {
        Some(Message::Val(v)) => if kind_of(v) == k {
            Some(v)
        } else {
            None
        },
        _ => None,
    }
}

/// The branch named by one wire message at an offer: the discriminant
/// when the message is one, nothing otherwise.
pub open spec fn branch_of(m: Option<Message>) -> Option<bool> {
    match m {
        Some(Message::Choice(b)) => Some(b),
        _ => None,
    }
}

/// Turn what came off the wire at a receive descriptor into the
/// operation's outcome: a payload of the expected kind yields exactly
/// that value and the handle at the continuation; anything else — no
/// message, a discriminant, or a payload of the wrong kind — is a
/// transport error.  This fixes the result for every possible message,
/// so a receive can never fabricate a value it was not handed.
pub fn accept_payload(
    m: Option<Message>,
    k: Kind,
    rest: Box<Protocol>,
    env: Vec<Protocol>,
    carrier: Channel,
) -> (r: Result<(Chan, Value), SessionError>)
    ensures
        payload_of(m, k) matches Some(v) ==> (r matches Ok(cv) && cv.1 == v && cv.0.proto == *rest
            && cv.0.env@ == env@ && cv.0.carrier == carrier),
        payload_of(m, k) is None ==> r == Err::<(Chan, Value), SessionError>(
            SessionError::TransportError,
        ),
{
    match m {
        Some(Message::Val(v)) => {
            if v.kind() == k {
                Ok((Chan { carrier, env, proto: *rest }, v))
            } else {
                Err(SessionError::TransportError)
            }
        },
        _ => Err(SessionError::TransportError),
    }
}

/// Turn what came off the wire at an offer into the operation's outcome:
/// a true discriminant resolves to the left continuation, a false one to
/// the right, and nothing else resolves at all.  This fixes the branch
/// for every possible message, so an offer can never pick a branch the
/// peer did not name.
pub fn resolve_offer(
    m: Option<Message>,
    left: Box<Protocol>,
    right: Box<Protocol>,
    env: Vec<Protocol>,
    carrier: Channel,
) -> (r: Result<Either, SessionError>)
    ensures
        branch_of(m) == Some(true) ==> (r matches Ok(Either::Left(c)) && c.proto == *left
            && c.env@ == env@ && c.carrier == carrier),
        branch_of(m) == Some(false) ==> (r matches Ok(Either::Right(c)) && c.proto == *right
            && c.env@ == env@ && c.carrier == carrier),
        branch_of(m) is None ==> r == Err::<Either, SessionError>(SessionError::TransportError),
{
    match m {
        Some(Message::Choice(true)) => Ok(Either::Left(Chan { carrier, env, proto: *left })),
        Some(Message::Choice(false)) => Ok(Either::Right(Chan { carrier, env, proto: *right })),
        _ => Err(SessionError::TransportError),
    }
}

impl Chan {
    /// Wrap a transport endpoint into a handle at the given descriptor
    /// with an empty environment stack.
    pub fn new(carrier: Channel, proto: Protocol) -> (c: Chan)
        ensures
            c.carrier == carrier,
            c.proto == proto,
            c.env@ == Seq::<Protocol>::empty(),
    {
        Chan { carrier, env: Vec::new(), proto }
    }

    /// Close the session.  Legal only once the descriptor has reached the
    /// end; no transport traffic happens.
    pub fn close(self) -> (r: Result<(), SessionError>)
        ensures
            r is Ok <==> self.proto is Eps,
            r matches Err(e) ==> e == SessionError::UsageError,
    {
        match self.proto {
            Protocol::Eps => Ok(()),
            _ => Err(SessionError::UsageError),
        }
    }

    /// Send `v` to the peer.  Legal only at a send descriptor of `v`'s
    /// kind; fails with a transport error when the peer endpoint is gone.
    pub fn send(self, v: Value) -> (r: Result<Chan, SessionError>)
        ensures
            r matches Ok(c) ==> send_allowed(self.proto, v) && c.proto == cont_of(self.proto)
                && c.env@ == self.env@ && c.carrier == self.carrier,
            r matches Err(e) ==> (e == SessionError::UsageError || e
                == SessionError::TransportError) && (e == SessionError::UsageError
                <==> !send_allowed(self.proto, v)),
    {
        let Chan { carrier, env, proto } = self;
        match proto {
            Protocol::Send(k, rest) => {
                if v.kind() == k {
                    if carrier.peer_live() {
                        carrier.send_msg(Message::Val(v));
                        Ok(Chan { carrier, env, proto: *rest })
                    } else {
                        Err(SessionError::TransportError)
                    }
                } else {
                    Err(SessionError::UsageError)
                }
            },
            _ => Err(SessionError::UsageError),
        }
    }

    /// Receive a value from the peer.  Legal only at a receive descriptor;
    /// blocks until a message arrives, and fails with a transport error
    /// when the peer is gone or what arrives is not a payload of the
    /// expected kind.
    pub fn recv(self) -> (r: Result<(Chan, Value), SessionError>)
        ensures
            r matches Ok((c, v)) ==> (self.proto matches Protocol::Recv(k, _) && kind_of(v) == k)
                && c.proto == cont_of(self.proto) && c.env@ == self.env@ && c.carrier
                == self.carrier,
            r matches Err(e) ==> (e == SessionError::UsageError || e
                == SessionError::TransportError) && (e == SessionError::UsageError
                <==> !(self.proto is Recv)),
    {
        let Chan { carrier, env, proto } = self;
        match proto {
            Protocol::Recv(k, rest) => {
                let m = carrier.recv_blocking();
                accept_payload(m, k, rest, env, carrier)
            },
            _ => Err(SessionError::UsageError),
        }
    }

    /// Actively pick the left continuation of a choice and tell the peer.
    pub fn sel1(self) -> (r: Result<Chan, SessionError>)
        ensures
            r matches Ok(c) ==> (self.proto matches Protocol::Choose(l, _) && c.proto == *l)
                && c.env@ == self.env@ && c.carrier == self.carrier,
            r matches Err(e) ==> (e == SessionError::UsageError || e
                == SessionError::TransportError) && (e == SessionError::UsageError
                <==> !(self.proto is Choose)),
    {
        let Chan { carrier, env, proto } = self;
        match proto {
            Protocol::Choose(l, _) => {
                if carrier.peer_live() {
                    carrier.send_msg(Message::Choice(true));
                    Ok(Chan { carrier, env, proto: *l })
                } else {
                    Err(SessionError::TransportError)
                }
            },
            _ => Err(SessionError::UsageError),
        }
    }

    /// Actively pick the right continuation of a choice and tell the peer.
    pub fn sel2(self) -> (r: Result<Chan, SessionError>)
        ensures
            r matches Ok(c) ==> (self.proto matches Protocol::Choose(_, s) && c.proto == *s)
                && c.env@ == self.env@ && c.carrier == self.carrier,
            r matches Err(e) ==> (e == SessionError::UsageError || e
                == SessionError::TransportError) && (e == SessionError::UsageError
                <==> !(self.proto is Choose)),
    {
        let Chan { carrier, env, proto } = self;
        match proto {
            Protocol::Choose(_, s) => {
                if carrier.peer_live() {
                    carrier.send_msg(Message::Choice(false));
                    Ok(Chan { carrier, env, proto: *s })
                } else {
                    Err(SessionError::TransportError)
                }
            },
            _ => Err(SessionError::UsageError),
        }
    }

    /// Skip one branch: pick the right continuation once.
    pub fn skip(self) -> (r: Result<Chan, SessionError>)
        ensures
            r matches Ok(c) ==> rskip(self.proto, 1) == Some(c.proto) && c.env@ == self.env@
                && c.carrier == self.carrier,
            r matches Err(e) ==> (e == SessionError::UsageError || e
                == SessionError::TransportError) && (e == SessionError::UsageError ==> rskip(
                self.proto,
                1,
            ) is None),
    {
        proof {
            reveal_with_fuel(rskip, 9);
        }
        self.sel2()
    }

    /// Skip two branches: pick the right continuation twice.
    pub fn skip2(self) -> (r: Result<Chan, SessionError>)
        ensures
            r matches Ok(c) ==> rskip(self.proto, 2) == Some(c.proto) && c.env@ == self.env@
                && c.carrier == self.carrier,
            r matches Err(e) ==> (e == SessionError::UsageError || e
                == SessionError::TransportError) && (e == SessionError::UsageError ==> rskip(
                self.proto,
                2,
            ) is None),
    {
        proof {
            reveal_with_fuel(rskip, 9);
        }
        let c = match self.sel2() {
            Ok(c) => c,
            Err(e) => {
                return Err(e);
            },
        };
        c.sel2()
    }

    /// Skip three branches.
    pub fn skip3(self) -> (r: Result<Chan, SessionError>)
        ensures
            r matches Ok(c) ==> rskip(self.proto, 3) == Some(c.proto) && c.env@ == self.env@
                && c.carrier == self.carrier,
            r matches Err(e) ==> (e == SessionError::UsageError || e
                == SessionError::TransportError) && (e == SessionError::UsageError ==> rskip(
                self.proto,
                3,
            ) is None),
    {
        proof {
            reveal_with_fuel(rskip, 9);
        }
        let c = match self.skip2() {
            Ok(c) => c,
            Err(e) => {
                return Err(e);
            },
        };
        c.sel2()
    }

    /// Skip four branches.
    pub fn skip4(self) -> (r: Result<Chan, SessionError>)
        ensures
            r matches Ok(c) ==> rskip(self.proto, 4) == Some(c.proto) && c.env@ == self.env@
                && c.carrier == self.carrier,
            r matches Err(e) ==> (e == SessionError::UsageError || e
                == SessionError::TransportError) && (e == SessionError::UsageError ==> rskip(
                self.proto,
                4,
            ) is None),
    {
        proof {
            reveal_with_fuel(rskip, 9);
        }
        let c = match self.skip3() {
            Ok(c) => c,
            Err(e) => {
                return Err(e);
            },
        };
        c.sel2()
    }

    /// Skip five branches.
    pub fn skip5(self) -> (r: Result<Chan, SessionError>)
        ensures
            r matches Ok(c) ==> rskip(self.proto, 5) == Some(c.proto) && c.env@ == self.env@
                && c.carrier == self.carrier,
            r matches Err(e) ==> (e == SessionError::UsageError || e
                == SessionError::TransportError) && (e == SessionError::UsageError ==> rskip(
                self.proto,
                5,
            ) is None),
    {
        proof {
            reveal_with_fuel(rskip, 9);
        }
        let c = match self.skip4() {
            Ok(c) => c,
            Err(e) => {
                return Err(e);
            },
        };
        c.sel2()
    }

    /// Skip six branches.
    pub fn skip6(self) -> (r: Result<Chan, SessionError>)
        ensures
            r matches Ok(c) ==> rskip(self.proto, 6) == Some(c.proto) && c.env@ == self.env@
                && c.carrier == self.carrier,
            r matches Err(e) ==> (e == SessionError::UsageError || e
                == SessionError::TransportError) && (e == SessionError::UsageError ==> rskip(
                self.proto,
                6,
            ) is None),
    {
        proof {
            reveal_with_fuel(rskip, 9);
        }
        let c = match self.skip5() {
            Ok(c) => c,
            Err(e) => {
                return Err(e);
            },
        };
        c.sel2()
    }

    /// Skip seven branches.
    pub fn skip7(self) -> (r: Result<Chan, SessionError>)
        ensures
            r matches Ok(c) ==> rskip(self.proto, 7) == Some(c.proto) && c.env@ == self.env@
                && c.carrier == self.carrier,
            r matches Err(e) ==> (e == SessionError::UsageError || e
                == SessionError::TransportError) && (e == SessionError::UsageError ==> rskip(
                self.proto,
                7,
            ) is None),
    {
        proof {
            reveal_with_fuel(rskip, 9);
        }
        let c = match self.skip6() {
            Ok(c) => c,
            Err(e) => {
                return Err(e);
            },
        };
        c.sel2()
    }

    /// Wait for the peer's pick on an offered choice and step into the
    /// branch it chose: left on a true discriminant, right on a false one,
    /// and nothing else.
    pub fn offer(self) -> (r: Result<Either, SessionError>)
        ensures
            r matches Ok(b) ==> self.proto is Offer,
            r matches Ok(Either::Left(c)) ==> (self.proto matches Protocol::Offer(l, _)
                && c.proto == *l) && c.env@ == self.env@ && c.carrier == self.carrier,
            r matches Ok(Either::Right(c)) ==> (self.proto matches Protocol::Offer(_, s)
                && c.proto == *s) && c.env@ == self.env@ && c.carrier == self.carrier,
            r matches Err(e) ==> (e == SessionError::UsageError || e
                == SessionError::TransportError) && (e == SessionError::UsageError
                <==> !(self.proto is Offer)),
    {
        let Chan { carrier, env, proto } = self;
        match proto {
            Protocol::Offer(l, s) => {
                let m = carrier.recv_blocking();
                resolve_offer(m, l, s, env, carrier)
            },
            _ => Err(SessionError::UsageError),
        }
    }

    /// Enter a recursive body, recording it on the environment stack.
    /// Pure bookkeeping: no transport traffic.
    pub fn enter(self) -> (r: Result<Chan, SessionError>)
        ensures
            r is Ok <==> self.proto is Rec,
            r matches Ok(c) ==> (self.proto matches Protocol::Rec(b) && c.proto == *b && c.env@
                == self.env@.push(*b)) && c.carrier == self.carrier,
            r matches Err(e) ==> e == SessionError::UsageError,
    {
        let Chan { carrier, mut env, proto } = self;
        match proto {
            Protocol::Rec(b) => {
                let body = *b;
                env.push(body.duplicate());
                Ok(Chan { carrier, env, proto: body })
            },
            _ => Err(SessionError::UsageError),
        }
    }

    /// Jump to the recursion body on top of the environment stack.  Legal
    /// only at a zero-depth recursion variable with at least one entered
    /// body; the stack is kept, so the loop can be taken again.
    pub fn zero(self) -> (r: Result<Chan, SessionError>)
        ensures
            r is Ok <==> (self.proto matches Protocol::Var(d) && d == 0 && self.env@.len() > 0),
            r matches Ok(c) ==> c.proto == self.env@.last() && c.env@ == self.env@ && c.carrier
                == self.carrier,
            r matches Err(e) ==> e == SessionError::UsageError,
    {
        let Chan { carrier, env, proto } = self;
        match proto {
            Protocol::Var(d) => {
                if d == 0 && env.len() > 0 {
                    let body = env[env.len() - 1].duplicate();
                    Ok(Chan { carrier, env, proto: body })
                } else {
                    Err(SessionError::UsageError)
                }
            },
            _ => Err(SessionError::UsageError),
        }
    }

    /// Pop one recursion body off the environment stack, stepping a
    /// recursion variable one level outward.  Popping past the outermost
    /// entered body is rejected.
    pub fn succ(self) -> (r: Result<Chan, SessionError>)
        ensures
            r is Ok <==> (self.proto matches Protocol::Var(d) && d >= 1 && self.env@.len() > 0),
            r matches Ok(c) ==> (self.proto matches Protocol::Var(d) && c.proto == Protocol::Var(
                (d - 1) as u64,
            )) && c.env@ == self.env@.drop_last() && c.carrier == self.carrier,
            r matches Err(e) ==> e == SessionError::UsageError,
    {
        let Chan { carrier, mut env, proto } = self;
        match proto {
            Protocol::Var(d) => {
                if d >= 1 && env.len() > 0 {
                    env.pop();
                    Ok(Chan { carrier, env, proto: Protocol::Var(d - 1) })
                } else {
                    Err(SessionError::UsageError)
                }
            },
            _ => Err(SessionError::UsageError),
        }
    }
}

} // verus!
