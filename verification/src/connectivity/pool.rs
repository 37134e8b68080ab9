//! The peer pool: at most one entry per peer, found by the peer's identifier.

use crate::connectivity::peer::{ManagedPeer, PeerId, PeerState};
use vstd::prelude::*;

verus! {

/// The peers of a pool that are connected.
pub open spec fn connected_peers(peers: Map<PeerId, ManagedPeer>) -> Set<PeerId> {
    peers.dom().filter(|id: PeerId| peers[id].state is Connected)
}

/// The number of connected peers of a pool.
pub open spec fn connected_count(peers: Map<PeerId, ManagedPeer>) -> nat {
    connected_peers(peers).len()
}

/// The state of a peer: that of its entry, or `Unknown` without one.
pub open spec fn state_of(peers: Map<PeerId, ManagedPeer>, id: PeerId) -> PeerState {
    if peers.contains_key(id) {
        peers[id].state
    } else {
        PeerState::Unknown
    }
}

/// The entry of a peer, if it has one.
pub open spec fn entry_of(peers: Map<PeerId, ManagedPeer>, id: PeerId) -> Option<ManagedPeer> {
    if peers.contains_key(id) {
        Some(peers[id])
    } else {
        None
    }
}

/// A pool is keyed consistently when every entry is filed under its own
/// identifier and the entries are finitely many.
pub open spec fn keyed(peers: Map<PeerId, ManagedPeer>) -> bool {
    &&& peers.dom().finite()
    &&& forall|id: PeerId| #[trigger] peers.contains_key(id) ==> peers[id].peer_id == id
}

spec fn holds(entries: Seq<ManagedPeer>, id: PeerId) -> bool {
    exists|i: int| 0 <= i < entries.len() && #[trigger] entries[i].peer_id == id
}

spec fn place(entries: Seq<ManagedPeer>, id: PeerId) -> int {
    choose|i: int| 0 <= i < entries.len() && #[trigger] entries[i].peer_id == id
}

spec fn distinct(entries: Seq<ManagedPeer>) -> bool {
    forall|i: int, j: int|
        0 <= i < entries.len() && 0 <= j < entries.len() && i != j ==> #[trigger] entries[i].peer_id
            != #[trigger] entries[j].peer_id
}

spec fn as_map(entries: Seq<ManagedPeer>) -> Map<PeerId, ManagedPeer> {
    Map::new(|id: PeerId| holds(entries, id), |id: PeerId| entries[place(entries, id)])
}

proof fn lemma_entry_at(entries: Seq<ManagedPeer>, i: int)
    requires
        distinct(entries),
        0 <= i < entries.len(),
    ensures
        as_map(entries).contains_key(entries[i].peer_id),
        as_map(entries)[entries[i].peer_id] == entries[i],
{
    let id = entries[i].peer_id;
    assert(holds(entries, id));
    let k = place(entries, id);
    assert(k == i);
}

proof fn lemma_as_map_finite(entries: Seq<ManagedPeer>)
    requires
        distinct(entries),
    ensures
        as_map(entries).dom().finite(),
        as_map(entries).dom().len() == entries.len(),
    decreases entries.len(),
{
    if entries.len() == 0 {
        assert(as_map(entries).dom() =~= Set::<PeerId>::empty());
    } else {
        let front = entries.drop_last();
        let last = entries.last();
        assert(distinct(front)) by {
            assert forall|i: int, j: int|
                0 <= i < front.len() && 0 <= j < front.len() && i != j implies #[trigger] front[i].peer_id
                != #[trigger] front[j].peer_id by {
                assert(front[i] == entries[i]);
                assert(front[j] == entries[j]);
            }
        }
        lemma_as_map_finite(front);
        assert(!holds(front, last.peer_id)) by {
            if holds(front, last.peer_id) {
                let k = place(front, last.peer_id);
                assert(front[k] == entries[k]);
                assert(entries[k].peer_id == entries[entries.len() - 1].peer_id);
            }
        }
        assert(as_map(entries).dom() =~= as_map(front).dom().insert(last.peer_id)) by {
            assert forall|id: PeerId| holds(entries, id) <==> (holds(front, id) || id
                == last.peer_id) by {
                if holds(entries, id) {
                    let k = place(entries, id);
                    if k < front.len() {
                        assert(front[k].peer_id == id);
                    }
                }
                if holds(front, id) {
                    let k = place(front, id);
                    assert(entries[k].peer_id == id);
                }
                if id == last.peer_id {
                    assert(entries[entries.len() - 1].peer_id == id);
                }
            }
        }
    }
}

proof fn lemma_connected_bounded(peers: Map<PeerId, ManagedPeer>)
    requires
        peers.dom().finite(),
    ensures
        connected_peers(peers).finite(),
        connected_count(peers) <= peers.dom().len(),
{
    vstd::set_lib::lemma_len_subset(connected_peers(peers), peers.dom());
}

/// How the set of connected peers changes when one entry is written.
pub proof fn lemma_connected_insert(peers: Map<PeerId, ManagedPeer>, entry: ManagedPeer)
    requires
        peers.dom().finite(),
    ensures
        connected_peers(peers.insert(entry.peer_id, entry)) == if entry.state is Connected {
            connected_peers(peers).insert(entry.peer_id)
        } else {
            connected_peers(peers).remove(entry.peer_id)
        },
        connected_count(peers.insert(entry.peer_id, entry)) == connected_count(peers) - (if state_of(
            peers,
            entry.peer_id,
        ) is Connected {
            1int
        } else {
            0int
        }) + (if entry.state is Connected {
            1int
        } else {
            0int
        }),
{
    lemma_connected_bounded(peers);
    let after = peers.insert(entry.peer_id, entry);
    if entry.state is Connected {
        assert(connected_peers(after) =~= connected_peers(peers).insert(entry.peer_id));
    } else {
        assert(connected_peers(after) =~= connected_peers(peers).remove(entry.peer_id));
    }
    assert(connected_peers(peers).contains(entry.peer_id) <==> state_of(peers, entry.peer_id)
        is Connected);
}

/// How the set of connected peers changes when one entry is taken out.
pub proof fn lemma_connected_remove(peers: Map<PeerId, ManagedPeer>, id: PeerId)
    requires
        peers.dom().finite(),
    ensures
        connected_peers(peers.remove(id)) == connected_peers(peers).remove(id),
        connected_count(peers.remove(id)) == connected_count(peers) - (if state_of(peers, id)
            is Connected {
            1int
        } else {
            0int
        }),
{
    lemma_connected_bounded(peers);
    assert(connected_peers(peers.remove(id)) =~= connected_peers(peers).remove(id));
    assert(connected_peers(peers).contains(id) <==> state_of(peers, id) is Connected);
}

/// The pool of peers that the connectivity actor owns.
pub struct PeerPool {
    entries: Vec<ManagedPeer>,
    connected: usize,
}

impl View for PeerPool {
    type V = Map<PeerId, ManagedPeer>;

    closed spec fn view(&self) -> Map<PeerId, ManagedPeer> {
        as_map(self.entries@)
    }
}

impl PeerPool {
    /// No peer has two entries, and the count of connected peers is kept.
    pub closed spec fn wf(&self) -> bool {
        &&& distinct(self.entries@)
        &&& self.connected == connected_count(self@)
    }

    /// What a well-formed pool guarantees of its view.
    pub proof fn lemma_view(&self)
        requires
            self.wf(),
        ensures
            keyed(self@),
            connected_count(self@) <= self@.dom().len() <= usize::MAX,
    {
        lemma_as_map_finite(self.entries@);
        lemma_connected_bounded(self@);
        assert(self.entries.len() == self.entries@.len());
        assert forall|id: PeerId| #[trigger] self@.contains_key(id) implies self@[id].peer_id
            == id by {
            let k = place(self.entries@, id);
        }
    }

    /// A pool without entries.
    pub fn new() -> (pool: Self)
        ensures
            pool.wf(),
            pool@ == Map::<PeerId, ManagedPeer>::empty(),
    {
        let pool = PeerPool { entries: Vec::new(), connected: 0 };
        assert(pool@ =~= Map::<PeerId, ManagedPeer>::empty());
        assert(connected_peers(pool@) =~= Set::<PeerId>::empty());
        pool
    }

    fn find(&self, id: PeerId) -> (found: Option<usize>)
        requires
            self.wf(),
        ensures
            match found {
                Some(i) => i < self.entries@.len() && self.entries@[i as int].peer_id == id
                    && self@.contains_key(id) && self@[id] == self.entries@[i as int],
                None => !self@.contains_key(id),
            },
    {
        let mut i: usize = 0;
        while i < self.entries.len()
            invariant
                self.wf(),
                i <= self.entries.len(),
                forall|j: int| 0 <= j < i ==> self.entries@[j].peer_id != id,
            decreases self.entries.len() - i,
        {
            if self.entries[i].peer_id == id {
                proof {
                    lemma_entry_at(self.entries@, i as int);
                }
                return Some(i);
            }
            i += 1;
        }
        None
    }

    /// The entry of a peer, if it has one.
    pub fn get(&self, id: PeerId) -> (entry: Option<ManagedPeer>)
        requires
            self.wf(),
        ensures
            entry == entry_of(self@, id),
    {
        match self.find(id) {
            Some(i) => Some(self.entries[i]),
            None => None,
        }
    }

    /// The number of connected peers.
    pub fn connected(&self) -> (count: usize)
        requires
            self.wf(),
        ensures
            count == connected_count(self@),
    {
        self.connected
    }

    /// Writes the entry of a peer, in place of the one it had, if any.
    pub fn put(&mut self, entry: ManagedPeer)
        requires
            old(self).wf(),
        ensures
            final(self).wf(),
            final(self)@ == old(self)@.insert(entry.peer_id, entry),
    {
        let ghost before = self.entries@;
        let ghost view_before = self@;
        proof {
            lemma_as_map_finite(before);
            lemma_connected_insert(view_before, entry);
            lemma_connected_bounded(view_before);
        }
        let now = match entry.state {
            PeerState::Connected => true,
            _ => false,
        };
        let was = match self.find(entry.peer_id) {
            Some(i) => {
                let was = match self.entries[i].state {
                    PeerState::Connected => true,
                    _ => false,
                };
                self.entries.set(i, entry);
                proof {
                    let after = self.entries@;
                    assert(distinct(after)) by {
                        assert forall|a: int, b: int|
                            0 <= a < after.len() && 0 <= b < after.len() && a != b implies #[trigger] after[a].peer_id
                            != #[trigger] after[b].peer_id by {
                            assert(after[a].peer_id == before[a].peer_id);
                            assert(after[b].peer_id == before[b].peer_id);
                        }
                    }
                    assert forall|id: PeerId| holds(after, id) <==> holds(before, id) by {
                        if holds(after, id) {
                            let k = place(after, id);
                            assert(before[k].peer_id == id);
                        }
                        if holds(before, id) {
                            let k = place(before, id);
                            assert(after[k].peer_id == id);
                        }
                    }
                    assert forall|id: PeerId| holds(after, id) implies as_map(after)[id]
                        == view_before.insert(entry.peer_id, entry)[id] by {
                        let k = place(after, id);
                        lemma_entry_at(after, k);
                        if k != i {
                            assert(after[k] == before[k]);
                            lemma_entry_at(before, k);
                        }
                    }
                    assert(as_map(after) =~= view_before.insert(entry.peer_id, entry));
                }
                was
            },
            None => {
                self.entries.push(entry);
                proof {
                    let after = self.entries@;
                    assert(distinct(after)) by {
                        assert forall|a: int, b: int|
                            0 <= a < after.len() && 0 <= b < after.len() && a != b implies #[trigger] after[a].peer_id
                            != #[trigger] after[b].peer_id by {
                            if a < before.len() {
                                assert(after[a] == before[a]);
                                assert(holds(before, before[a].peer_id));
                            }
                            if b < before.len() {
                                assert(after[b] == before[b]);
                                assert(holds(before, before[b].peer_id));
                            }
                        }
                    }
                    assert forall|id: PeerId| holds(after, id) <==> (holds(before, id) || id
                        == entry.peer_id) by {
                        if holds(after, id) {
                            let k = place(after, id);
                            if k < before.len() {
                                assert(before[k].peer_id == id);
                            }
                        }
                        if holds(before, id) {
                            let k = place(before, id);
                            assert(after[k].peer_id == id);
                        }
                        if id == entry.peer_id {
                            assert(after[before.len() as int].peer_id == id);
                        }
                    }
                    assert forall|id: PeerId| holds(after, id) implies as_map(after)[id]
                        == view_before.insert(entry.peer_id, entry)[id] by {
                        let k = place(after, id);
                        lemma_entry_at(after, k);
                        if k < before.len() {
                            assert(after[k] == before[k]);
                            lemma_entry_at(before, k);
                        }
                    }
                    assert(as_map(after) =~= view_before.insert(entry.peer_id, entry));
                }
                false
            },
        };
        proof {
            lemma_as_map_finite(self.entries@);
            lemma_connected_bounded(self@);
            assert(self.entries.len() == self.entries@.len());
        }
        if now && !was {
            self.connected = self.connected + 1;
        } else if was && !now {
            self.connected = self.connected - 1;
        }
    }

    /// Takes the entry of a peer out of the pool, if it has one.
    pub fn remove(&mut self, id: PeerId)
        requires
            old(self).wf(),
        ensures
            final(self).wf(),
            final(self)@ == old(self)@.remove(id),
    {
        let ghost before = self.entries@;
        let ghost view_before = self@;
        proof {
            lemma_as_map_finite(before);
            lemma_connected_remove(view_before, id);
            lemma_connected_bounded(view_before);
        }
        match self.find(id) {
            Some(i) => {
                let was = match self.entries[i].state {
                    PeerState::Connected => true,
                    _ => false,
                };
                self.entries.remove(i);
                proof {
                    let after = self.entries@;
                    assert(after == before.remove(i as int));
                    assert forall|a: int| 0 <= a < after.len() implies #[trigger] after[a] == before[if a
                        < i {
                        a
                    } else {
                        a + 1
                    }] by {}
                    assert(distinct(after)) by {
                        assert forall|a: int, b: int|
                            0 <= a < after.len() && 0 <= b < after.len() && a != b implies #[trigger] after[a].peer_id
                            != #[trigger] after[b].peer_id by {
                            let a0 = if a < i { a } else { a + 1 };
                            let b0 = if b < i { b } else { b + 1 };
                            assert(after[a] == before[a0]);
                            assert(after[b] == before[b0]);
                        }
                    }
                    assert forall|k: PeerId| holds(after, k) <==> (holds(before, k) && k
                        != id) by {
                        if holds(after, k) {
                            let a = place(after, k);
                            let a0 = if a < i { a } else { a + 1 };
                            assert(after[a] == before[a0]);
                            assert(before[a0].peer_id == k);
                        }
                        if holds(before, k) && k != id {
                            let b = place(before, k);
                            let a = if b < i { b } else { b - 1 };
                            assert(after[a] == before[b]);
                            assert(after[a].peer_id == k);
                        }
                    }
                    assert forall|k: PeerId| holds(after, k) implies as_map(after)[k]
                        == view_before.remove(id)[k] by {
                        let a = place(after, k);
                        let a0 = if a < i { a } else { a + 1 };
                        assert(after[a] == before[a0]);
                        lemma_entry_at(after, a);
                        lemma_entry_at(before, a0);
                    }
                    assert(as_map(after) =~= view_before.remove(id));
                }
                if was {
                    self.connected = self.connected - 1;
                }
            },
            None => {
                assert(view_before.remove(id) =~= view_before);
            },
        }
    }
}

} // verus!
