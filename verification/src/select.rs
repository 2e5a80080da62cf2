//! The selection engine: wait on several receive-state handles at once and
//! identify exactly one that is ready, without consuming any of them.

use vstd::prelude::*;
use crate::chan::Chan;
use crate::chan::SessionError;
use crate::transport::PeerProbe;
use crate::transport::POLL_BUDGET;
use crate::transport::Wire;
use crate::transport::arc_share;
use crate::transport::probe_count;
use crate::transport::probe_duplicate;
use crate::transport::wire_ready;

verus! {

/// The winner among one round of readiness observations: the first index
/// whose flag is set, or nothing when no flag is.  This fixes the choice
/// for every possible observation, so a selection can never name a
/// handle that was not seen ready.
pub fn pick_ready(flags: &Vec<bool>) -> (r: Option<usize>)
    ensures
        r matches Some(i) ==> i < flags@.len() && flags@[i as int] && (forall|j: int|
            0 <= j < i ==> !flags@[j]),
        r is None <==> (forall|j: int| 0 <= j < flags@.len() ==> !flags@[j]),
{
    let mut i: usize = 0;
    while i < flags.len()
        invariant
            i <= flags@.len(),
            forall|j: int| 0 <= j < i ==> !flags@[j],
        decreases flags@.len() - i,
    {
        if flags[i] {
            return Some(i);
        }
        i = i + 1;
    }
    None
}

/// A registration set for heterogeneous selection.  Each registration
/// probes one handle's incoming wire and peer liveness, and carries a
/// caller-supplied tag that `wait` hands back for the winner.  The probes
/// observe the handles without consuming them.
pub struct ChanSelect<T> {
    entries: Vec<(Wire, PeerProbe, T)>,
}

impl<T> ChanSelect<T> {
    /// The tags registered so far, in registration order.
    pub closed spec fn tags(&self) -> Seq<T> {
        self.entries@.map_values(|e: (Wire, PeerProbe, T)| e.2)
    }

    /// The incoming wires registered so far, in registration order: the
    /// tag at an index is answered for readiness of the wire at the same
    /// index.
    pub closed spec fn wires(&self) -> Seq<Wire> {
        self.entries@.map_values(|e: (Wire, PeerProbe, T)| e.0)
    }

    /// An empty registration set.
    pub fn new() -> (s: ChanSelect<T>)
        ensures
            s.tags() == Seq::<T>::empty(),
            s.wires() == Seq::<Wire>::empty(),
    {
        let s = ChanSelect { entries: Vec::new() };
        proof {
            assert(s.tags() =~= Seq::<T>::empty());
            assert(s.wires() =~= Seq::<Wire>::empty());
        }
        s
    }

    /// Register a handle that is about to receive, together with the tag
    /// to hand back should it win: the handle's own incoming wire is
    /// recorded under that tag.  Registering a handle at any other
    /// descriptor is a usage error and registers nothing.
    pub fn add_ret(&mut self, chan: &Chan, ret: T) -> (r: Result<(), SessionError>)
        ensures
            r is Ok <==> chan.proto is Recv,
            r is Ok ==> final(self).tags() == old(self).tags().push(ret) && final(self).wires()
                == old(self).wires().push(chan.carrier.incoming),
            r matches Err(e) ==> e == SessionError::UsageError && final(self).tags() == old(
                self,
            ).tags() && final(self).wires() == old(self).wires(),
    {
        match &chan.proto {
            crate::proto::Protocol::Recv(_, _) => {
                self.entries.push(
                    (
                        arc_share(&chan.carrier.incoming),
                        probe_duplicate(&chan.carrier.peer),
                        ret,
                    ),
                );
                proof {
                    assert(self.tags() =~= old(self).tags().push(ret));
                    assert(self.wires() =~= old(self).wires().push(chan.carrier.incoming));
                }
                Ok(())
            },
            _ => Err(SessionError::UsageError),
        }
    }

    /// Block until one registered handle has a message waiting and hand
    /// back its tag; no registered handle is consumed or otherwise
    /// touched.  Each round observes every registered wire once and the
    /// winner is the first one seen ready, chosen by `pick_ready`.  With
    /// no registrations it fails immediately; once every registered peer
    /// is gone with nothing left to drain, or the poll budget runs out,
    /// it reports a selection failure.
    pub fn wait(self) -> (r: Result<T, SessionError>)
        ensures
            (r matches Err(SessionError::EmptySelection)) <==> self.tags().len() == 0,
            r matches Ok(t) ==> exists|i: int|
                0 <= i < self.tags().len() && self.tags()[i] == t,
            r matches Err(e) ==> e == SessionError::EmptySelection || e
                == SessionError::SelectionError,
    {
        let mut sel = self;
        if sel.entries.len() == 0 {
            return Err(SessionError::EmptySelection);
        }
        let mut fuel: u64 = POLL_BUDGET;
        loop
            invariant
                sel.tags() == self.tags(),
                sel.entries@.len() > 0,
            decreases fuel,
        {
            let n = sel.entries.len();
            let mut flags: Vec<bool> = Vec::new();
            let mut all_dead = true;
            let mut i: usize = 0;
            while i < n
                invariant
                    sel.tags() == self.tags(),
                    n == sel.entries@.len(),
                    i <= n,
                    flags@.len() == i,
                decreases n - i,
            {
                flags.push(wire_ready(&sel.entries[i].0));
                if probe_count(&sel.entries[i].1) > 0 {
                    all_dead = false;
                }
                i = i + 1;
            }
            match pick_ready(&flags) {
                Some(w) => {
                    proof {
                        assert(self.tags()[w as int] == sel.entries@[w as int].2);
                    }
                    let (_, _, t) = sel.entries.remove(w);
                    return Ok(t);
                },
                None => {},
            }
            if all_dead {
                // A message may still have arrived between the readiness
                // check and the liveness check: one final scan decides.
                let mut late: Vec<bool> = Vec::new();
                let mut j: usize = 0;
                while j < n
                    invariant
                        sel.tags() == self.tags(),
                        n == sel.entries@.len(),
                        j <= n,
                        late@.len() == j,
                    decreases n - j,
                {
                    late.push(wire_ready(&sel.entries[j].0));
                    j = j + 1;
                }
                match pick_ready(&late) {
                    Some(w) => {
                        proof {
                            assert(self.tags()[w as int] == sel.entries@[w as int].2);
                        }
                        let (_, _, t) = sel.entries.remove(w);
                        return Ok(t);
                    },
                    None => {
                        return Err(SessionError::SelectionError);
                    },
                }
            }
            if fuel == 0 {
                return Err(SessionError::SelectionError);
            }
            fuel = fuel - 1;
        }
    }
}

impl ChanSelect<usize> {
    /// Register a handle under the next free index as its tag.
    pub fn add(&mut self, c: &Chan) -> (r: Result<(), SessionError>)
        ensures
            r is Ok <==> c.proto is Recv,
            r is Ok ==> final(self).tags() == old(self).tags().push(old(self).tags().len() as usize)
                && final(self).wires() == old(self).wires().push(c.carrier.incoming),
            r matches Err(e) ==> e == SessionError::UsageError && final(self).tags() == old(
                self,
            ).tags() && final(self).wires() == old(self).wires(),
    {
        let index = self.entries.len();
        proof {
            assert(self.tags().len() == self.entries@.len());
        }
        self.add_ret(c, index)
    }
}

/// The index of a registered handle whose transport has a message
/// waiting.  Every handle must be at a receive descriptor; none is
/// consumed.  Each round observes every handle's incoming wire once and
/// the winner is the first one seen ready, chosen by `pick_ready`.  An
/// empty list fails immediately, and once every peer is gone with
/// nothing left to drain the selection fails.
pub fn iselect(chans: &Vec<Chan>) -> (r: Result<usize, SessionError>)
    ensures
        (r matches Err(SessionError::EmptySelection)) <==> chans@.len() == 0,
        (r matches Err(SessionError::UsageError)) <==> (chans@.len() > 0 && !(forall|i: int|
            0 <= i < chans@.len() ==> chans@[i].proto is Recv)),
        r matches Ok(i) ==> i < chans@.len() && chans@[i as int].proto is Recv,
        r matches Err(e) ==> e == SessionError::EmptySelection || e == SessionError::UsageError
            || e == SessionError::SelectionError,
{
    if chans.len() == 0 {
        return Err(SessionError::EmptySelection);
    }
    let n = chans.len();
    let mut k: usize = 0;
    while k < n
        invariant
            n == chans@.len(),
            k <= n,
            forall|i: int| 0 <= i < k ==> chans@[i].proto is Recv,
        decreases n - k,
    {
        match &chans[k].proto {
            crate::proto::Protocol::Recv(_, _) => {},
            _ => {
                return Err(SessionError::UsageError);
            },
        }
        k = k + 1;
    }
    let mut fuel: u64 = POLL_BUDGET;
    loop
        invariant
            n == chans@.len(),
            n > 0,
            forall|i: int| 0 <= i < n ==> chans@[i].proto is Recv,
        decreases fuel,
    {
        let mut flags: Vec<bool> = Vec::new();
        let mut all_dead = true;
        let mut i: usize = 0;
        while i < n
            invariant
                n == chans@.len(),
                i <= n,
                flags@.len() == i,
                forall|j: int| 0 <= j < n ==> chans@[j].proto is Recv,
            decreases n - i,
        {
            flags.push(chans[i].carrier.ready());
            if chans[i].carrier.peer_live() {
                all_dead = false;
            }
            i = i + 1;
        }
        match pick_ready(&flags) {
            Some(w) => {
                return Ok(w);
            },
            None => {},
        }
        if all_dead {
            let mut late: Vec<bool> = Vec::new();
            let mut j: usize = 0;
            while j < n
                invariant
                    n == chans@.len(),
                    j <= n,
                    late@.len() == j,
                    forall|m: int| 0 <= m < n ==> chans@[m].proto is Recv,
                decreases n - j,
            {
                late.push(chans[j].carrier.ready());
                j = j + 1;
            }
            match pick_ready(&late) {
                Some(w) => {
                    return Ok(w);
                },
                None => {
                    return Err(SessionError::SelectionError);
                },
            }
        }
        if fuel == 0 {
            return Err(SessionError::SelectionError);
        }
        fuel = fuel - 1;
    }
}

/// Homogeneous selection: wait until one handle of a uniform list is
/// ready to receive, take it out, and hand back both the winner and the
/// remaining handles with their relative order kept.
pub fn hselect(chans: Vec<Chan>) -> (r: Result<(Chan, Vec<Chan>), SessionError>)
    ensures
        r matches Ok((c, rest)) ==> exists|i: int|
            0 <= i < chans@.len() && c == chans@[i] && rest@ == chans@.remove(i),
        (r matches Err(SessionError::EmptySelection)) <==> chans@.len() == 0,
        (r matches Err(SessionError::UsageError)) <==> (chans@.len() > 0 && !(forall|i: int|
            0 <= i < chans@.len() ==> chans@[i].proto is Recv)),
        r matches Err(e) ==> e == SessionError::EmptySelection || e == SessionError::UsageError
            || e == SessionError::SelectionError,
{
    let mut chans = chans;
    match iselect(&chans) {
        Ok(i) => {
            let c = chans.remove(i);
            Ok((c, chans))
        },
        Err(e) => Err(e),
    }
}

} // verus!
