//! The protocol algebra: payload kinds, protocol descriptors and duality.

use vstd::prelude::*;

verus! {

/// The kind of payload a protocol step carries.
#[derive(Clone, Copy, PartialEq, Eq, Structural, Debug)]
pub enum Kind {
    Unit,
    Int,
    Bool,
    Str,
}

/// A payload value; each variant carries one kind of payload.
#[derive(Clone, Debug)]
pub enum Value {
    Unit,
    Int(i64),
    Bool(bool),
    Str(String),
}

/// The kind that classifies a payload value.
pub open spec fn kind_of(v: Value) -> Kind {
    match v {
        Value::Unit => Kind::Unit,
        Value::Int(_) => Kind::Int,
        Value::Bool(_) => Kind::Bool,
        Value::Str(_) => Kind::Str,
    }
}

impl Value {
    /// Report the kind of this value.
    pub fn kind(&self) -> (k: Kind)
        ensures
            k == kind_of(*self),
    {
        match self {
            Value::Unit => Kind::Unit,
            Value::Int(_) => Kind::Int,
            Value::Bool(_) => Kind::Bool,
            Value::Str(_) => Kind::Str,
        }
    }
}

/// A protocol descriptor: the next required communication action and its
/// continuation.
///
/// `Var(d)` jumps `d` enclosing recursion entries outward; its continuation
/// is the loop body recorded on the environment stack at that level.
#[derive(Debug)]
pub enum Protocol {
    /// The session ends here.
    Eps,
    /// Emit a value of the given kind, then continue.
    Send(Kind, Box<Protocol>),
    /// Accept a value of the given kind, then continue.
    Recv(Kind, Box<Protocol>),
    /// Actively pick the left or the right continuation and tell the peer.
    Choose(Box<Protocol>, Box<Protocol>),
    /// Wait to learn which continuation the peer picked.
    Offer(Box<Protocol>, Box<Protocol>),
    /// Enter a recursive body, extending the environment stack.
    Rec(Box<Protocol>),
    /// Jump back the given number of enclosing recursion entries.
    Var(u64),
}

/// Duality: `p` and `q` describe the two complementary views of one
/// conversation.  A send matches a receive of the same kind, an active
/// choice matches an offer branch by branch, recursion entries match when
/// their bodies do, and recursion jumps match only at the same depth.
pub open spec fn dual(p: Protocol, q: Protocol) -> bool
    decreases p,
{
    match (p, q) {
        (Protocol::Eps, Protocol::Eps) => true,
        (Protocol::Send(a, r), Protocol::Recv(b, s)) => a == b && dual(*r, *s),
        (Protocol::Recv(a, r), Protocol::Send(b, s)) => a == b && dual(*r, *s),
        (Protocol::Choose(r1, s1), Protocol::Offer(r2, s2)) => dual(*r1, *r2) && dual(*s1, *s2),
        (Protocol::Offer(r1, s1), Protocol::Choose(r2, s2)) => dual(*r1, *r2) && dual(*s1, *s2),
        (Protocol::Rec(r), Protocol::Rec(s)) => dual(*r, *s),
        (Protocol::Var(d1), Protocol::Var(d2)) => d1 == d2,
        _ => false,
    }
}

/// The structural dual of a descriptor: sends and receives swap, choices
/// and offers swap, recursion is kept.
pub open spec fn dual_spec(p: Protocol) -> Protocol
    decreases p,
{
    match p {
        Protocol::Eps => Protocol::Eps,
        Protocol::Send(a, r) => Protocol::Recv(a, Box::new(dual_spec(*r))),
        Protocol::Recv(a, r) => Protocol::Send(a, Box::new(dual_spec(*r))),
        Protocol::Choose(r, s) => Protocol::Offer(
            Box::new(dual_spec(*r)),
            Box::new(dual_spec(*s)),
        ),
        Protocol::Offer(r, s) => Protocol::Choose(
            Box::new(dual_spec(*r)),
            Box::new(dual_spec(*s)),
        ),
        Protocol::Rec(r) => Protocol::Rec(Box::new(dual_spec(*r))),
        Protocol::Var(d) => Protocol::Var(d),
    }
}

/// Decide duality of two descriptors.
pub fn are_dual(p: &Protocol, q: &Protocol) -> (r: bool)
    ensures
        r == dual(*p, *q),
    decreases *p,
{
    match (p, q) {
        (Protocol::Eps, Protocol::Eps) => true,
        (Protocol::Send(a, r), Protocol::Recv(b, s)) => *a == *b && are_dual(r, s),
        (Protocol::Recv(a, r), Protocol::Send(b, s)) => *a == *b && are_dual(r, s),
        (Protocol::Choose(r1, s1), Protocol::Offer(r2, s2)) => are_dual(r1, r2) && are_dual(
            s1,
            s2,
        ),
        (Protocol::Offer(r1, s1), Protocol::Choose(r2, s2)) => are_dual(r1, r2) && are_dual(
            s1,
            s2,
        ),
        (Protocol::Rec(r), Protocol::Rec(s)) => are_dual(r, s),
        (Protocol::Var(d1), Protocol::Var(d2)) => *d1 == *d2,
        _ => false,
    }
}

impl Protocol {
    /// Structural equality of two descriptors.
    pub fn equals(&self, other: &Protocol) -> (r: bool)
        ensures
            r == (*self == *other),
        decreases *self,
    {
        match (self, other) {
            (Protocol::Eps, Protocol::Eps) => true,
            (Protocol::Send(a, r), Protocol::Send(b, s)) => *a == *b && r.equals(s),
            (Protocol::Recv(a, r), Protocol::Recv(b, s)) => *a == *b && r.equals(s),
            (Protocol::Choose(r1, s1), Protocol::Choose(r2, s2)) => r1.equals(r2) && s1.equals(
                s2,
            ),
            (Protocol::Offer(r1, s1), Protocol::Offer(r2, s2)) => r1.equals(r2) && s1.equals(s2),
            (Protocol::Rec(r), Protocol::Rec(s)) => r.equals(s),
            (Protocol::Var(d1), Protocol::Var(d2)) => *d1 == *d2,
            _ => false,
        }
    }

    /// A structurally equal copy of this descriptor.
    pub fn duplicate(&self) -> (r: Protocol)
        ensures
            r == *self,
        decreases *self,
    {
        match self {
            Protocol::Eps => Protocol::Eps,
            Protocol::Send(a, r) => Protocol::Send(*a, Box::new(r.duplicate())),
            Protocol::Recv(a, r) => Protocol::Recv(*a, Box::new(r.duplicate())),
            Protocol::Choose(r, s) => Protocol::Choose(
                Box::new(r.duplicate()),
                Box::new(s.duplicate()),
            ),
            Protocol::Offer(r, s) => Protocol::Offer(
                Box::new(r.duplicate()),
                Box::new(s.duplicate()),
            ),
            Protocol::Rec(r) => Protocol::Rec(Box::new(r.duplicate())),
            Protocol::Var(d) => Protocol::Var(*d),
        }
    }
}

/// Build the dual of a descriptor.
pub fn dual_of(p: &Protocol) -> (q: Protocol)
    ensures
        q == dual_spec(*p),
        dual(*p, q),
    decreases *p,
{
    proof {
        lemma_dual_of_spec(*p);
    }
    match p {
        Protocol::Eps => Protocol::Eps,
        Protocol::Send(a, r) => Protocol::Recv(*a, Box::new(dual_of(r))),
        Protocol::Recv(a, r) => Protocol::Send(*a, Box::new(dual_of(r))),
        Protocol::Choose(r, s) => Protocol::Offer(Box::new(dual_of(r)), Box::new(dual_of(s))),
        Protocol::Offer(r, s) => Protocol::Choose(Box::new(dual_of(r)), Box::new(dual_of(s))),
        Protocol::Rec(r) => Protocol::Rec(Box::new(dual_of(r))),
        Protocol::Var(d) => Protocol::Var(*d),
    }
}

/// The structural dual is in fact a dual.
pub proof fn lemma_dual_of_spec(p: Protocol)
    ensures
        dual(p, dual_spec(p)),
    decreases p,
{
    match p {
        Protocol::Eps => {},
        Protocol::Send(a, r) => lemma_dual_of_spec(*r),
        Protocol::Recv(a, r) => lemma_dual_of_spec(*r),
        Protocol::Choose(r, s) => {
            lemma_dual_of_spec(*r);
            lemma_dual_of_spec(*s);
        },
        Protocol::Offer(r, s) => {
            lemma_dual_of_spec(*r);
            lemma_dual_of_spec(*s);
        },
        Protocol::Rec(r) => lemma_dual_of_spec(*r),
        Protocol::Var(_) => {},
    }
}

/// Duality pins the partner down: `q` is dual to `p` exactly when `q` is
/// the structural dual of `p`.
pub proof fn lemma_dual_unique(p: Protocol, q: Protocol)
    ensures
        dual(p, q) <==> q == dual_spec(p),
    decreases p,
{
    lemma_dual_of_spec(p);
    match (p, q) {
        (Protocol::Send(a, r), Protocol::Recv(b, s)) => lemma_dual_unique(*r, *s),
        (Protocol::Recv(a, r), Protocol::Send(b, s)) => lemma_dual_unique(*r, *s),
        (Protocol::Choose(r1, s1), Protocol::Offer(r2, s2)) => {
            lemma_dual_unique(*r1, *r2);
            lemma_dual_unique(*s1, *s2);
        },
        (Protocol::Offer(r1, s1), Protocol::Choose(r2, s2)) => {
            lemma_dual_unique(*r1, *r2);
            lemma_dual_unique(*s1, *s2);
        },
        (Protocol::Rec(r), Protocol::Rec(s)) => lemma_dual_unique(*r, *s),
        _ => {},
    }
}

/// Taking the structural dual twice gives the original descriptor back.
pub proof fn lemma_dual_involution(p: Protocol)
    ensures
        dual_spec(dual_spec(p)) == p,
    decreases p,
{
    match p {
        Protocol::Eps => {},
        Protocol::Send(a, r) => lemma_dual_involution(*r),
        Protocol::Recv(a, r) => lemma_dual_involution(*r),
        Protocol::Choose(r, s) => {
            lemma_dual_involution(*r);
            lemma_dual_involution(*s);
        },
        Protocol::Offer(r, s) => {
            lemma_dual_involution(*r);
            lemma_dual_involution(*s);
        },
        Protocol::Rec(r) => lemma_dual_involution(*r),
        Protocol::Var(_) => {},
    }
}

/// Duality is symmetric: `p` is dual to `q` exactly when `q` is dual to `p`.
pub proof fn lemma_dual_symmetric(p: Protocol, q: Protocol)
    ensures
        dual(p, q) <==> dual(q, p),
    decreases p,
{
    match (p, q) {
        (Protocol::Send(a, r), Protocol::Recv(b, s)) => lemma_dual_symmetric(*r, *s),
        (Protocol::Recv(a, r), Protocol::Send(b, s)) => lemma_dual_symmetric(*r, *s),
        (Protocol::Choose(r1, s1), Protocol::Offer(r2, s2)) => {
            lemma_dual_symmetric(*r1, *r2);
            lemma_dual_symmetric(*s1, *s2);
        },
        (Protocol::Offer(r1, s1), Protocol::Choose(r2, s2)) => {
            lemma_dual_symmetric(*r1, *r2);
            lemma_dual_symmetric(*s1, *s2);
        },
        (Protocol::Rec(r), Protocol::Rec(s)) => lemma_dual_symmetric(*r, *s),
        _ => {},
    }
}

/// The terminated session is dual to itself.
pub proof fn lemma_dual_end()
    ensures
        dual(Protocol::Eps, Protocol::Eps),
{
}

/// A send is dual to a receive exactly when the kinds agree and the
/// continuations are dual in turn.
pub proof fn lemma_dual_send_recv(a: Kind, r: Protocol, b: Kind, s: Protocol)
    ensures
        dual(Protocol::Send(a, Box::new(r)), Protocol::Recv(b, Box::new(s))) <==> (a == b && dual(
            r,
            s,
        )),
{
}

/// Duality of two environment stacks, frame by frame.
pub open spec fn env_dual(e1: Seq<Protocol>, e2: Seq<Protocol>) -> bool {
    e1.len() == e2.len() && forall|i: int| 0 <= i < e1.len() ==> dual(e1[i], e2[i])
}

} // verus!
