//! The connection registry: the process-wide table of tunnel
//! connections, keyed by peer address.
//!
//! The registry's invariant is that no two entries share a peer address,
//! so at most one connection — and hence at most one handshake — exists
//! per peer at any time. `get_or_create` is the only way in: it returns
//! the live entry for a peer when there is one, replaces a terminally
//! failed entry with a fresh one, and otherwise appends a fresh entry.
//! Entries are never removed.

use vstd::prelude::*;

use crate::addr::PeerAddr;
use crate::conn::ConnState;
use crate::conn::TunnelConnection;

verus! {

/// Some entry holds this peer key.
pub open spec fn has_key(s: Seq<TunnelConnection>, key: u64) -> bool {
    exists|i: int| 0 <= i < s.len() && s[i].peer.key_spec() == key
}

/// Some entry holds this peer key and has not terminally failed; such an
/// entry is reused rather than replaced.
pub open spec fn has_live(s: Seq<TunnelConnection>, key: u64) -> bool {
    exists|i: int|
        0 <= i < s.len() && s[i].peer.key_spec() == key && s[i].state != ConnState::Failed
}

/// No two entries share a peer key.
pub open spec fn unique_keys(s: Seq<TunnelConnection>) -> bool {
    forall|i: int, j: int|
        0 <= i < s.len() && 0 <= j < s.len() && i != j ==> s[i].peer.key_spec()
            != s[j].peer.key_spec()
}

/// The index of the entry holding this peer key; meaningful when
/// `has_key` holds and the keys are unique.
pub open spec fn conn_ix(s: Seq<TunnelConnection>, key: u64) -> int {
    choose|i: int| 0 <= i < s.len() && s[i].peer.key_spec() == key
}

/// Under unique keys, any entry holding a key sits at `conn_ix` of it.
pub proof fn lemma_conn_ix(s: Seq<TunnelConnection>, i: int, key: u64)
    requires
        unique_keys(s),
        0 <= i < s.len(),
        s[i].peer.key_spec() == key,
    ensures
        conn_ix(s, key) == i,
        has_key(s, key),
{
    assert(has_key(s, key));
    let j = conn_ix(s, key);
    assert(0 <= j < s.len() && s[j].peer.key_spec() == key);
}

/// The connection a freshly created registry entry holds: eagerly
/// handshaking, no streams assigned, no drive running.
pub open spec fn fresh_conn(peer: PeerAddr) -> TunnelConnection {
    TunnelConnection {
        peer,
        state: ConnState::Handshaking,
        next_stream_index: 0,
        pump_phase: crate::conn::PumpPhase::Stopped,
        pump_budget: 0,
    }
}

/// What `get_or_create` did, stated over the entry sequences before and
/// after the call: the returned index holds a connection for `peer`;
/// when nothing was created the table is untouched and the entry was
/// already live; when a connection was created no live entry existed
/// before, and the fresh connection either replaced the failed entry for
/// that peer in place or was appended, all other entries unchanged.
pub open spec fn get_or_create_post(
    pre: Seq<TunnelConnection>,
    post: Seq<TunnelConnection>,
    peer: PeerAddr,
    idx: int,
    created: bool,
) -> bool {
    &&& 0 <= idx < post.len()
    &&& post[idx].peer == peer
    &&& if created {
        &&& post[idx] == fresh_conn(peer)
        &&& !has_live(pre, peer.key_spec())
        &&& if idx < pre.len() {
            &&& pre[idx].peer.key_spec() == peer.key_spec()
            &&& pre[idx].state == ConnState::Failed
            &&& post == pre.update(idx, fresh_conn(peer))
        } else {
            &&& idx == pre.len()
            &&& post == pre.push(fresh_conn(peer))
        }
    } else {
        &&& post == pre
        &&& pre[idx].state != ConnState::Failed
    }
}

/// The process-wide table of tunnel connections, keyed by peer address.
pub struct Registry {
    pub entries: Vec<TunnelConnection>,
}

impl Registry {
    /// Well-formedness: entry keys are pairwise distinct and every entry
    /// is itself well-formed.
    pub open spec fn wf(self) -> bool {
        &&& unique_keys(self.entries@)
        &&& forall|i: int| 0 <= i < self.entries@.len() ==> self.entries@[i].wf()
    }

    pub fn new() -> (r: Registry)
        ensures
            r.wf(),
            r.entries@.len() == 0,
    {
        Registry { entries: Vec::new() }
    }

    /// The index of the entry for this peer key, if any.
    pub fn find(&self, key: u64) -> (r: Option<usize>)
        ensures
            match r {
                Some(i) => i < self.entries@.len() && self.entries@[i as int].peer.key_spec()
                    == key,
                None => !has_key(self.entries@, key),
            },
    {
        let n = self.entries.len();
        let mut i: usize = 0;
        while i < n
            invariant
                n == self.entries@.len(),
                i <= n,
                forall|k: int| 0 <= k < i ==> self.entries@[k].peer.key_spec() != key,
            decreases n - i,
        {
            if self.entries[i].peer.key() == key {
                return Some(i);
            }
            i = i + 1;
        }
        None
    }

    /// Returns the entry for `peer`, creating one exactly when no live
    /// one exists: the live entry is returned untouched; a terminally
    /// failed entry is replaced in place by a fresh handshaking
    /// connection; an unseen peer gets a fresh entry appended. The
    /// second component reports whether a connection (and so a
    /// handshake) was created.
    pub fn get_or_create(&mut self, peer: PeerAddr) -> (r: (usize, bool))
        requires
            old(self).wf(),
            old(self).entries@.len() < usize::MAX,
        ensures
            final(self).wf(),
            get_or_create_post(old(self).entries@, final(self).entries@, peer, r.0 as int, r.1),
            r.1 <==> !has_live(old(self).entries@, peer.key_spec()),
    {
        let key = peer.key();
        match self.find(key) {
            Some(i) => {
                if self.entries[i].state != ConnState::Failed {
                    proof {
                        assert(has_live(self.entries@, key));
                        PeerAddr::lemma_key_injective(self.entries@[i as int].peer, peer);
                    }
                    (i, false)
                } else {
                    proof {
                        assert forall|j: int|
                            0 <= j < self.entries@.len() && self.entries@[j].peer.key_spec()
                                == key implies self.entries@[j].state
                            == ConnState::Failed by {
                            assert(j == i as int);
                        }
                    }
                    self.entries[i] = TunnelConnection::new(peer);
                    proof {
                        PeerAddr::lemma_key_injective(self.entries@[i as int].peer, peer);
                    }
                    (i, true)
                }
            },
            None => {
                proof {
                    assert(!has_live(self.entries@, key)) by {
                        assert(!has_key(self.entries@, key));
                    }
                }
                let i = self.entries.len();
                self.entries.push(TunnelConnection::new(peer));
                (i, true)
            },
        }
    }

    /// Updating an entry without touching its peer keeps the keys unique.
    pub proof fn lemma_update_same_peer(s: Seq<TunnelConnection>, i: int, c: TunnelConnection)
        requires
            unique_keys(s),
            0 <= i < s.len(),
            c.peer == s[i].peer,
        ensures
            unique_keys(s.update(i, c)),
    {
    }

    /// The engine reported handshake completion for the entry at `i`.
    pub fn apply_established(&mut self, i: usize)
        requires
            old(self).wf(),
            i < old(self).entries@.len(),
        ensures
            final(self).wf(),
            final(self).entries@ == old(self).entries@.update(
                i as int,
                crate::conn::established_step(old(self).entries@[i as int]),
            ),
    {
        let mut c = self.entries[i];
        c.on_established();
        self.entries[i] = c;
        proof {
            Self::lemma_update_same_peer(old(self).entries@, i as int, c);
        }
    }

    /// An unrecoverable protocol error struck the entry at `i`.
    pub fn apply_failed(&mut self, i: usize)
        requires
            old(self).wf(),
            i < old(self).entries@.len(),
        ensures
            final(self).wf(),
            final(self).entries@ == old(self).entries@.update(
                i as int,
                crate::conn::failed_step(old(self).entries@[i as int]),
            ),
    {
        let mut c = self.entries[i];
        c.mark_failed();
        self.entries[i] = c;
        proof {
            Self::lemma_update_same_peer(old(self).entries@, i as int, c);
        }
    }

    /// The peer finished its side of a stream on the entry at `i`.
    pub fn apply_fin(&mut self, i: usize)
        requires
            old(self).wf(),
            i < old(self).entries@.len(),
        ensures
            final(self).wf(),
            final(self).entries@ == old(self).entries@.update(
                i as int,
                crate::conn::fin_step(old(self).entries@[i as int]),
            ),
    {
        let mut c = self.entries[i];
        c.on_peer_fin();
        self.entries[i] = c;
        proof {
            Self::lemma_update_same_peer(old(self).entries@, i as int, c);
        }
    }

    /// The engine reported the close of the entry at `i` as complete.
    pub fn apply_drained(&mut self, i: usize)
        requires
            old(self).wf(),
            i < old(self).entries@.len(),
        ensures
            final(self).wf(),
            final(self).entries@ == old(self).entries@.update(
                i as int,
                crate::conn::drained_step(old(self).entries@[i as int]),
            ),
    {
        let mut c = self.entries[i];
        c.on_drained();
        self.entries[i] = c;
        proof {
            Self::lemma_update_same_peer(old(self).entries@, i as int, c);
        }
    }

    /// Assigns the next stream identifier on the entry at `i`.
    pub fn alloc_stream_at(&mut self, i: usize) -> (r: Option<u64>)
        requires
            old(self).wf(),
            i < old(self).entries@.len(),
        ensures
            final(self).wf(),
            ({
                let c = old(self).entries@[i as int];
                if c.next_stream_index < crate::conn::MAX_STREAM_INDEX {
                    &&& r == Some((c.next_stream_index * 4) as u64)
                    &&& final(self).entries@ == old(self).entries@.update(
                        i as int,
                        (TunnelConnection {
                            next_stream_index: (c.next_stream_index + 1) as u64,
                            ..c
                        }),
                    )
                } else {
                    &&& r == None::<u64>
                    &&& final(self).entries@ == old(self).entries@
                }
            }),
    {
        let mut c = self.entries[i];
        let r = c.alloc_stream();
        if r.is_some() {
            self.entries[i] = c;
            proof {
                Self::lemma_update_same_peer(old(self).entries@, i as int, c);
            }
        } else {
            proof {
                assert(self.entries@ =~= old(self).entries@);
            }
        }
        r
    }

    /// Begins a drive of the entry at `i`.
    pub fn pump_start_at(&mut self, i: usize) -> (cmd: crate::conn::PumpCmd)
        requires
            old(self).wf(),
            i < old(self).entries@.len(),
        ensures
            final(self).wf(),
            cmd == crate::conn::PumpCmd::FlushOut,
            final(self).entries@ == old(self).entries@.update(
                i as int,
                (TunnelConnection {
                    pump_phase: crate::conn::PumpPhase::Emitting,
                    pump_budget: crate::conn::MAX_PUMP_ITERS,
                    ..old(self).entries@[i as int]
                }),
            ),
    {
        let mut c = self.entries[i];
        let cmd = c.pump_start();
        self.entries[i] = c;
        proof {
            Self::lemma_update_same_peer(old(self).entries@, i as int, c);
        }
        cmd
    }

    /// One drive step of the entry at `i`.
    pub fn pump_step_at(&mut self, i: usize, ev: crate::conn::PumpEvent) -> (cmd:
        crate::conn::PumpCmd)
        requires
            old(self).wf(),
            i < old(self).entries@.len(),
        ensures
            final(self).wf(),
            ({
                let (c2, c_cmd) = TunnelConnection::pump_step_spec(
                    old(self).entries@[i as int],
                    ev,
                );
                &&& cmd == c_cmd
                &&& final(self).entries@ == old(self).entries@.update(i as int, c2)
                &&& cmd != crate::conn::PumpCmd::Stop ==> c2.pump_measure() < old(
                    self,
                ).entries@[i as int].pump_measure()
            }),
    {
        let mut c = self.entries[i];
        let cmd = c.pump_step(ev);
        self.entries[i] = c;
        proof {
            Self::lemma_update_same_peer(old(self).entries@, i as int, c);
        }
        cmd
    }

    /// Distinct entries always serve distinct peers: the registry never
    /// holds two connections for one peer address, so traffic filed
    /// under one peer cannot reach another peer's connection.
    pub proof fn lemma_one_connection_per_peer(s: Seq<TunnelConnection>, i: int, j: int)
        requires
            unique_keys(s),
            0 <= i < s.len(),
            0 <= j < s.len(),
            s[i].peer == s[j].peer,
        ensures
            i == j,
    {
    }

    /// Distinct peers are served by distinct connections: two different
    /// peer keys present in the registry are filed at two different
    /// entries, so traffic to one peer cannot touch another peer's
    /// connection or streams.
    pub proof fn lemma_distinct_peers_distinct_connections(
        s: Seq<TunnelConnection>,
        k1: u64,
        k2: u64,
    )
        requires
            unique_keys(s),
            has_key(s, k1),
            has_key(s, k2),
            k1 != k2,
        ensures
            conn_ix(s, k1) != conn_ix(s, k2),
            s[conn_ix(s, k1)].peer.key_spec() == k1,
            s[conn_ix(s, k2)].peer.key_spec() == k2,
    {
        let i = conn_ix(s, k1);
        let j = conn_ix(s, k2);
        assert(0 <= i < s.len() && s[i].peer.key_spec() == k1);
        assert(0 <= j < s.len() && s[j].peer.key_spec() == k2);
    }

    /// Getting-or-creating is idempotent: once a call has returned an
    /// entry for a peer, an immediately repeated call for the same peer
    /// returns the same entry, creates nothing, and leaves the table
    /// exactly as it was.
    pub proof fn lemma_get_or_create_idempotent(
        s0: Seq<TunnelConnection>,
        s1: Seq<TunnelConnection>,
        s2: Seq<TunnelConnection>,
        peer: PeerAddr,
        i1: int,
        c1: bool,
        i2: int,
        c2: bool,
    )
        requires
            unique_keys(s1),
            get_or_create_post(s0, s1, peer, i1, c1),
            get_or_create_post(s1, s2, peer, i2, c2),
        ensures
            !c2,
            i2 == i1,
            s2 == s1,
    {
        assert(s1[i1].peer.key_spec() == peer.key_spec());
        assert(s1[i1].state != ConnState::Failed);
        assert(has_live(s1, peer.key_spec()));
        assert(!c2);
        assert(s2 == s1);
        PeerAddr::lemma_key_injective(s1[i2].peer, s1[i1].peer);
    }

    /// At most one handshake is ever initiated per peer: a call that
    /// created a connection for a peer leaves the table with a live
    /// entry for it, so the directly following call for the same peer
    /// cannot create (and so cannot hand the engine a second handshake).
    pub proof fn lemma_handshake_once(
        s0: Seq<TunnelConnection>,
        s1: Seq<TunnelConnection>,
        s2: Seq<TunnelConnection>,
        peer: PeerAddr,
        i1: int,
        i2: int,
        c2: bool,
    )
        requires
            unique_keys(s1),
            get_or_create_post(s0, s1, peer, i1, true),
            get_or_create_post(s1, s2, peer, i2, c2),
        ensures
            !c2,
            s2 == s1,
    {
        Self::lemma_get_or_create_idempotent(s0, s1, s2, peer, i1, true, i2, c2);
    }
}

} // verus!
