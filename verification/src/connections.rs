//! Bounded registry of currently connected peers.
//!
//! The table never holds more entries than the capacity fixed at
//! construction; once full, further connect attempts are declined and
//! the table is left untouched. Entries are removed by peer identity;
//! removal may reorder the remaining entries.

use vstd::prelude::*;

use crate::types::{ConnId, Connection, PeerAddr};

verus! {

/// Index of the first entry with the given connection id, or -1.
pub open spec fn conn_index_of(s: Seq<Connection>, conn_id: ConnId) -> int
    decreases s.len(),
{
    if s.len() == 0 {
        -1
    } else if s[0].conn_id == conn_id {
        0
    } else {
        let rest = conn_index_of(s.drop_first(), conn_id);
        if rest < 0 {
            -1
        } else {
            rest + 1
        }
    }
}

/// Index of the first entry with the given peer identity, or -1.
pub open spec fn peer_index_of(s: Seq<Connection>, peer: PeerAddr) -> int
    decreases s.len(),
{
    if s.len() == 0 {
        -1
    } else if s[0].peer == peer {
        0
    } else {
        let rest = peer_index_of(s.drop_first(), peer);
        if rest < 0 {
            -1
        } else {
            rest + 1
        }
    }
}

/// `conn_index_of` finds exactly the first match, if any.
pub proof fn lemma_conn_index_of(s: Seq<Connection>, conn_id: ConnId)
    ensures
        -1 <= conn_index_of(s, conn_id) < s.len(),
        conn_index_of(s, conn_id) >= 0 ==> s[conn_index_of(s, conn_id)].conn_id == conn_id,
        forall|j: int|
            0 <= j < conn_index_of(s, conn_id) ==> s[j].conn_id != conn_id,
        conn_index_of(s, conn_id) < 0 ==> forall|j: int|
            0 <= j < s.len() ==> s[j].conn_id != conn_id,
    decreases s.len(),
{
    if s.len() > 0 && s[0].conn_id != conn_id {
        let t = s.drop_first();
        lemma_conn_index_of(t, conn_id);
        let r = conn_index_of(t, conn_id);
        if r >= 0 {
            assert(s[r + 1] == t[r]);
        }
        assert forall|j: int| 0 <= j < conn_index_of(s, conn_id) implies s[j].conn_id
            != conn_id by {
            if j > 0 {
                assert(s[j] == t[j - 1]);
            }
        }
        if conn_index_of(s, conn_id) < 0 {
            assert forall|j: int| 0 <= j < s.len() implies s[j].conn_id != conn_id by {
                if j > 0 {
                    assert(s[j] == t[j - 1]);
                }
            }
        }
    }
}

/// `peer_index_of` finds exactly the first match, if any.
pub proof fn lemma_peer_index_of(s: Seq<Connection>, peer: PeerAddr)
    ensures
        -1 <= peer_index_of(s, peer) < s.len(),
        peer_index_of(s, peer) >= 0 ==> s[peer_index_of(s, peer)].peer == peer,
        forall|j: int| 0 <= j < peer_index_of(s, peer) ==> s[j].peer != peer,
        peer_index_of(s, peer) < 0 ==> forall|j: int| 0 <= j < s.len() ==> s[j].peer != peer,
    decreases s.len(),
{
    if s.len() > 0 && s[0].peer != peer {
        let t = s.drop_first();
        lemma_peer_index_of(t, peer);
        let r = peer_index_of(t, peer);
        if r >= 0 {
            assert(s[r + 1] == t[r]);
        }
        assert forall|j: int| 0 <= j < peer_index_of(s, peer) implies s[j].peer != peer by {
            if j > 0 {
                assert(s[j] == t[j - 1]);
            }
        }
        if peer_index_of(s, peer) < 0 {
            assert forall|j: int| 0 <= j < s.len() implies s[j].peer != peer by {
                if j > 0 {
                    assert(s[j] == t[j - 1]);
                }
            }
        }
    }
}

/// Bounded table of live connections.
pub struct ConnectionTable {
    conns: Vec<Connection>,
    capacity: usize,
}

impl View for ConnectionTable {
    type V = Seq<Connection>;

    closed spec fn view(&self) -> Seq<Connection> {
        self.conns@
    }
}

impl ConnectionTable {
    /// The admission bound fixed at construction.
    pub closed spec fn cap(&self) -> int {
        self.capacity as int
    }

    /// The one resource invariant: never more entries than the capacity.
    pub open spec fn wf(&self) -> bool {
        self@.len() <= self.cap()
    }

    pub fn new(capacity: usize) -> (t: Self)
        ensures
            t@ == Seq::<Connection>::empty(),
            t.cap() == capacity as int,
            t.wf(),
    {
        ConnectionTable { conns: Vec::new(), capacity }
    }

    pub fn capacity(&self) -> (c: usize)
        ensures
            c as int == self.cap(),
    {
        self.capacity
    }

    pub fn len(&self) -> (n: usize)
        ensures
            n as int == self@.len() as int,
    {
        self.conns.len()
    }

    pub fn get(&self, i: usize) -> (c: Connection)
        requires
            i < self@.len(),
        ensures
            c == self@[i as int],
    {
        self.conns[i]
    }

    /// Position of the entry with this connection id, if any.
    pub fn find_by_conn_id(&self, conn_id: ConnId) -> (r: Option<usize>)
        ensures
            ({
                let i = conn_index_of(self@, conn_id);
                &&& i >= 0 ==> (r matches Some(k) && k as int == i)
                &&& i < 0 ==> r is None
            }),
    {
        proof {
            lemma_conn_index_of(self@, conn_id);
        }
        let n = self.conns.len();
        let mut k: usize = 0;
        while k < n
            invariant
                k <= n,
                n == self@.len(),
                forall|j: int| 0 <= j < k ==> self@[j].conn_id != conn_id,
                -1 <= conn_index_of(self@, conn_id) < self@.len() as int,
                conn_index_of(self@, conn_id) >= 0 ==> self@[conn_index_of(
                    self@,
                    conn_id,
                )].conn_id == conn_id,
                forall|j: int| 0 <= j < conn_index_of(self@, conn_id) ==> self@[j].conn_id != conn_id,
                conn_index_of(self@, conn_id) < 0 ==> forall|j: int|
                    0 <= j < self@.len() ==> self@[j].conn_id != conn_id,
            decreases n - k,
        {
            if self.conns[k].conn_id == conn_id {
                return Some(k);
            }
            k += 1;
        }
        None
    }

    /// Position of the entry with this peer identity, if any.
    pub fn find_by_peer(&self, peer: PeerAddr) -> (r: Option<usize>)
        ensures
            ({
                let i = peer_index_of(self@, peer);
                &&& i >= 0 ==> (r matches Some(k) && k as int == i)
                &&& i < 0 ==> r is None
            }),
    {
        proof {
            lemma_peer_index_of(self@, peer);
        }
        let n = self.conns.len();
        let mut k: usize = 0;
        while k < n
            invariant
                k <= n,
                n == self@.len(),
                forall|j: int| 0 <= j < k ==> self@[j].peer != peer,
                -1 <= peer_index_of(self@, peer) < self@.len() as int,
                peer_index_of(self@, peer) >= 0 ==> self@[peer_index_of(self@, peer)].peer
                    == peer,
                forall|j: int| 0 <= j < peer_index_of(self@, peer) ==> self@[j].peer != peer,
                peer_index_of(self@, peer) < 0 ==> forall|j: int|
                    0 <= j < self@.len() ==> self@[j].peer != peer,
            decreases n - k,
        {
            if self.conns[k].peer == peer {
                return Some(k);
            }
            k += 1;
        }
        None
    }

    /// Admit a newly connected peer, unless the table is full.
    ///
    /// Admission at capacity is declined and the table is unchanged;
    /// an admitted peer starts unsubscribed and with no negotiated MTU.
    pub fn on_connected(&mut self, peer: PeerAddr, conn_id: ConnId) -> (admitted: bool)
        requires
            old(self).wf(),
        ensures
            final(self).cap() == old(self).cap(),
            final(self).wf(),
            admitted == (old(self)@.len() < old(self).cap()),
            admitted ==> final(self)@ == old(self)@.push(
                Connection { peer, conn_id, subscribed: false, mtu: None },
            ),
            !admitted ==> *final(self) == *old(self),
    {
        if self.conns.len() < self.capacity {
            self.conns.push(Connection { peer, conn_id, subscribed: false, mtu: None });
            true
        } else {
            false
        }
    }

    /// Remove the entry of a disconnected peer, if it is present.
    ///
    /// Exactly the first entry with that identity goes away; every other
    /// entry is still present afterwards, though possibly reordered.
    pub fn on_disconnected(&mut self, peer: PeerAddr)
        ensures
            final(self).cap() == old(self).cap(),
            old(self).wf() ==> final(self).wf(),
            ({
                let s = old(self)@;
                let i = peer_index_of(s, peer);
                &&& i < 0 ==> *final(self) == *old(self)
                &&& i >= 0 ==> {
                    &&& final(self)@ == s.update(i, s.last()).drop_last()
                    &&& final(self)@.len() == s.len() - 1
                    &&& forall|j: int|
                        0 <= j < s.len() && j != i ==> exists|k: int|
                            0 <= k < final(self)@.len() && #[trigger] final(self)@[k]
                                == #[trigger] s[j]
                }
            }),
    {
        proof {
            lemma_peer_index_of(self@, peer);
        }
        let found = self.find_by_peer(peer);
        if let Some(i) = found {
            self.conns.swap_remove(i);
            proof {
                let s = old(self)@;
                let ii = peer_index_of(s, peer);
                assert forall|j: int| 0 <= j < s.len() && j != ii implies exists|k: int|
                    0 <= k < self@.len() && #[trigger] self@[k] == #[trigger] s[j] by {
                    if j < s.len() - 1 {
                        assert(self@[j] == s[j]);
                    } else {
                        assert(self@[ii] == s[j]);
                    }
                }
            }
        }
    }

    /// Record the negotiated MTU of a connection; no-op if the
    /// connection has already dropped.
    pub fn on_mtu(&mut self, conn_id: ConnId, mtu: u16)
        ensures
            final(self).cap() == old(self).cap(),
            old(self).wf() ==> final(self).wf(),
            ({
                let s = old(self)@;
                let i = conn_index_of(s, conn_id);
                &&& i < 0 ==> *final(self) == *old(self)
                &&& i >= 0 ==> final(self)@ == s.update(
                    i,
                    Connection { mtu: Some(mtu), ..s[i] },
                )
            }),
    {
        proof {
            lemma_conn_index_of(self@, conn_id);
        }
        let found = self.find_by_conn_id(conn_id);
        if let Some(i) = found {
            let mut c = self.conns[i];
            c.mtu = Some(mtu);
            self.conns.set(i, c);
        }
    }

    /// Flip the subscription flag of the entry at a known position.
    pub fn set_subscribed(&mut self, i: usize, subscribed: bool)
        requires
            i < old(self)@.len(),
        ensures
            final(self).cap() == old(self).cap(),
            old(self).wf() ==> final(self).wf(),
            final(self)@ == old(self)@.update(
                i as int,
                Connection { subscribed, ..old(self)@[i as int] },
            ),
    {
        let mut c = self.conns[i];
        c.subscribed = subscribed;
        self.conns.set(i, c);
    }
}

} // verus!
