use vstd::prelude::*;

verus! {

/// A peer's socket address as plain values: the address family, the IP address
/// as a number (an IPv4 address in the low 32 bits), the port, and for IPv6 the
/// flow label and scope id, all of which take part in equality.
#[derive(Clone, Copy, Debug, PartialEq, Eq, Hash, Structural)]
pub struct PeerAddr {
    pub v6: bool,
    pub ip: u128,
    pub port: u16,
    pub flowinfo: u32,
    pub scope_id: u32,
}

/// The 2-byte datagram that every known peer receives when the service stops.
pub const FAREWELL_MARKER: [u8; 2] = [0xDE, 0xAD];

/// The addresses of all datagram peers seen so far, each held once.
pub struct PeerRegistry {
    pub peers: Vec<PeerAddr>,
}

/// The first-contact events that a run of datagrams from `arrivals` produces,
/// starting from a registry that already holds `seen`: an arrival is an event
/// exactly when its address is not yet registered.
pub open spec fn first_contacts(seen: Set<PeerAddr>, arrivals: Seq<PeerAddr>) -> Seq<PeerAddr>
    decreases arrivals.len(),
{
    if arrivals.len() == 0 {
        Seq::empty()
    } else {
        let a = arrivals[0];
        let rest = first_contacts(seen.insert(a), arrivals.drop_first());
        if seen.contains(a) {
            rest
        } else {
            seq![a] + rest
        }
    }
}

impl PeerRegistry {
    pub open spec fn view(&self) -> Set<PeerAddr> {
        self.peers@.to_set()
    }

    pub open spec fn wf(&self) -> bool {
        self.peers@.no_duplicates()
    }

    pub fn new() -> (r: PeerRegistry)
        ensures
            r.wf(),
            r.view() == Set::<PeerAddr>::empty(),
    {
        let r = PeerRegistry { peers: Vec::new() };
        proof {
            assert(r.view() =~= Set::<PeerAddr>::empty());
        }
        r
    }

    /// Whether `addr` was seen before.
    pub fn contains(&self, addr: &PeerAddr) -> (r: bool)
        ensures
            r == self.view().contains(*addr),
    {
        let mut i: usize = 0;
        while i < self.peers.len()
            invariant
                i <= self.peers@.len(),
                forall|j: int| 0 <= j < i ==> self.peers@[j] != *addr,
            decreases self.peers@.len() - i,
        {
            if self.peers[i] == *addr {
                proof {
                    assert(self.peers@.contains(*addr));
                }
                return true;
            }
            i = i + 1;
        }
        false
    }

    /// Records a datagram from `addr`. Returns whether this is the first contact
    /// with that address; afterwards the address is registered.
    pub fn observe(&mut self, addr: PeerAddr) -> (r: bool)
        requires
            old(self).wf(),
        ensures
            final(self).wf(),
            r == !old(self).view().contains(addr),
            final(self).view() == old(self).view().insert(addr),
    {
        if self.contains(&addr) {
            proof {
                assert(self.view() =~= self.view().insert(addr));
            }
            false
        } else {
            proof {
                self.peers@.lemma_push_to_set_commute(addr);
            }
            self.peers.push(addr);
            proof {
                assert forall|a: int, b: int|
                    0 <= a < self.peers@.len() && 0 <= b < self.peers@.len() && a != b
                    implies self.peers@[a] != self.peers@[b] by {
                    if a < self.peers@.len() - 1 && b < self.peers@.len() - 1 {
                        assert(self.peers@[a] == old(self).peers@[a]);
                        assert(self.peers@[b] == old(self).peers@[b]);
                    } else if a < self.peers@.len() - 1 {
                        assert(old(self).peers@.contains(self.peers@[a]));
                    } else {
                        assert(old(self).peers@.contains(self.peers@[b]));
                    }
                }
            }
            true
        }
    }

    /// The addresses that the farewell sweep sends to: every registered address,
    /// each exactly once, and no other. The registry is consumed.
    pub fn into_farewell_targets(self) -> (r: Vec<PeerAddr>)
        requires
            self.wf(),
        ensures
            r@.no_duplicates(),
            r@.to_set() == self.view(),
    {
        self.peers
    }
}

/// The payload of the farewell datagram.
pub fn farewell_datagram() -> (r: Vec<u8>)
    ensures
        r@ == seq![0xDEu8, 0xADu8],
{
    let mut r: Vec<u8> = Vec::new();
    r.push(FAREWELL_MARKER[0]);
    r.push(FAREWELL_MARKER[1]);
    proof {
        assert(r@ =~= seq![0xDEu8, 0xADu8]);
    }
    r
}

/// An address is announced as a first contact at most once over a registry's
/// lifetime, however many datagrams it sends, and never if it was already
/// registered; every announced address did send a datagram.
pub proof fn lemma_first_contact_at_most_once(seen: Set<PeerAddr>, arrivals: Seq<PeerAddr>)
    ensures
        first_contacts(seen, arrivals).no_duplicates(),
        forall|i: int|
            0 <= i < first_contacts(seen, arrivals).len() ==> !seen.contains(
                #[trigger] first_contacts(seen, arrivals)[i],
            ) && arrivals.contains(first_contacts(seen, arrivals)[i]),
    decreases arrivals.len(),
{
    if arrivals.len() > 0 {
        let a = arrivals[0];
        let tail = arrivals.drop_first();
        lemma_first_contact_at_most_once(seen.insert(a), tail);
        let rest = first_contacts(seen.insert(a), tail);
        assert forall|i: int| 0 <= i < rest.len() implies arrivals.contains(#[trigger] rest[i]) by {
            let k = tail.index_of(rest[i]);
            assert(arrivals[k + 1] == rest[i]);
        }
        if !seen.contains(a) {
            let ev = seq![a] + rest;
            assert forall|i: int| 0 <= i < ev.len() implies !seen.contains(#[trigger] ev[i])
                && arrivals.contains(ev[i]) by {
                if i > 0 {
                    assert(ev[i] == rest[i - 1]);
                } else {
                    assert(arrivals[0] == a);
                }
            }
            assert forall|i: int, j: int| 0 <= i < ev.len() && 0 <= j < ev.len() && i != j
                implies ev[i] != ev[j] by {
                if i > 0 && j > 0 {
                    assert(ev[i] == rest[i - 1]);
                    assert(ev[j] == rest[j - 1]);
                } else if i > 0 {
                    assert(ev[i] == rest[i - 1]);
                    assert(!seen.insert(a).contains(rest[i - 1]));
                } else {
                    assert(ev[j] == rest[j - 1]);
                    assert(!seen.insert(a).contains(rest[j - 1]));
                }
            }
        }
    }
}

/// At shutdown every registered address receives exactly one farewell datagram,
/// and an address never seen receives none.
pub proof fn lemma_farewell_exactly_once(reg: PeerRegistry, targets: Seq<PeerAddr>, a: PeerAddr)
    requires
        reg.wf(),
        targets.no_duplicates(),
        targets.to_set() == reg.view(),
    ensures
        targets.to_multiset().count(a) == if reg.view().contains(a) { 1nat } else { 0nat },
{
    targets.lemma_multiset_has_no_duplicates();
    vstd::seq_lib::to_multiset_contains(targets, a);
    assert(targets.to_set().contains(a) == targets.contains(a));
}

} // verus!
