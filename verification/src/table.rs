//! The virtual socket table: the caller-visible descriptors.
//!
//! Every intercepted `socket()` call hands out a fresh descriptor from a
//! process-wide monotonic counter, so a descriptor is never reused while
//! the table lives. A virtual socket records the local bind address once
//! `bind` supplies one and, once data flows, the peer it currently
//! sends to together with the stream assigned to it on that peer's
//! connection. A datagram socket may change peers between sends, so the
//! peer mapping is updatable.

use vstd::prelude::*;

use crate::addr::PeerAddr;

verus! {

/// One caller-visible descriptor and its bookkeeping.
#[derive(Clone, Copy, PartialEq, Eq, Structural, Debug)]
pub struct VirtualSocket {
    /// The caller-visible descriptor value, unique in the table.
    pub id: i32,
    /// The local address recorded by `bind`, if any.
    pub local: Option<PeerAddr>,
    /// The peer this socket currently sends to, set on first send.
    pub peer: Option<PeerAddr>,
    /// The stream assigned to this socket on that peer's connection.
    pub stream_id: Option<u64>,
}

/// Some socket carries this descriptor.
pub open spec fn has_id(s: Seq<VirtualSocket>, fd: i32) -> bool {
    exists|i: int| 0 <= i < s.len() && s[i].id == fd
}

/// No two sockets share a descriptor.
pub open spec fn unique_ids(s: Seq<VirtualSocket>) -> bool {
    forall|i: int, j: int| 0 <= i < s.len() && 0 <= j < s.len() && i != j ==> s[i].id != s[j].id
}

/// The index of the socket carrying this descriptor; meaningful when
/// `has_id` holds and the descriptors are unique.
pub open spec fn sock_ix(s: Seq<VirtualSocket>, fd: i32) -> int {
    choose|i: int| 0 <= i < s.len() && s[i].id == fd
}

/// Under unique descriptors, any socket carrying a descriptor sits at
/// `sock_ix` of it.
pub proof fn lemma_sock_ix(s: Seq<VirtualSocket>, i: int, fd: i32)
    requires
        unique_ids(s),
        0 <= i < s.len(),
        s[i].id == fd,
    ensures
        sock_ix(s, fd) == i,
        has_id(s, fd),
{
    assert(has_id(s, fd));
    let j = sock_ix(s, fd);
    assert(0 <= j < s.len() && s[j].id == fd);
}

/// The table of virtual sockets and the descriptor counter.
pub struct SocketTable {
    pub sockets: Vec<VirtualSocket>,
    pub next_id: i32,
}

impl SocketTable {
    /// Well-formedness: descriptors are positive, below the counter, and
    /// pairwise distinct; the counter never goes backwards past one.
    pub open spec fn wf(self) -> bool {
        &&& self.next_id >= 1
        &&& unique_ids(self.sockets@)
        &&& forall|i: int|
            0 <= i < self.sockets@.len() ==> 1 <= #[trigger] self.sockets@[i].id < self.next_id
    }

    pub fn new() -> (r: SocketTable)
        ensures
            r.wf(),
            r.sockets@.len() == 0,
            r.next_id == 1,
    {
        SocketTable { sockets: Vec::new(), next_id: 1 }
    }

    /// Allocates a fresh descriptor: the counter's current value, which
    /// no existing socket carries and no past socket ever carried. Fails
    /// only when the descriptor space is spent.
    pub fn create(&mut self) -> (r: i32)
        requires
            old(self).wf(),
            old(self).sockets@.len() < usize::MAX,
        ensures
            final(self).wf(),
            old(self).next_id < i32::MAX ==> {
                &&& r == old(self).next_id
                &&& r >= 1
                &&& !has_id(old(self).sockets@, r)
                &&& final(self).sockets@ == old(self).sockets@.push(
                    VirtualSocket { id: r, local: None, peer: None, stream_id: None },
                )
                &&& final(self).next_id == old(self).next_id + 1
            },
            old(self).next_id == i32::MAX ==> r == -1 && *final(self) == *old(self),
    {
        if self.next_id == i32::MAX {
            return -1;
        }
        let id = self.next_id;
        self.sockets.push(VirtualSocket { id, local: None, peer: None, stream_id: None });
        self.next_id = self.next_id + 1;
        id
    }

    /// The index of the socket carrying this descriptor, if any.
    pub fn find(&self, fd: i32) -> (r: Option<usize>)
        ensures
            match r {
                Some(i) => i < self.sockets@.len() && self.sockets@[i as int].id == fd,
                None => !has_id(self.sockets@, fd),
            },
    {
        let n = self.sockets.len();
        let mut i: usize = 0;
        while i < n
            invariant
                n == self.sockets@.len(),
                i <= n,
                forall|k: int| 0 <= k < i ==> self.sockets@[k].id != fd,
            decreases n - i,
        {
            if self.sockets[i].id == fd {
                return Some(i);
            }
            i = i + 1;
        }
        None
    }

    /// Records the local bind address of the socket at `idx`; nothing
    /// else changes.
    pub fn set_local(&mut self, idx: usize, a: PeerAddr)
        requires
            old(self).wf(),
            idx < old(self).sockets@.len(),
        ensures
            final(self).wf(),
            final(self).sockets@ == old(self).sockets@.update(
                idx as int,
                VirtualSocket { local: Some(a), ..old(self).sockets@[idx as int] },
            ),
            final(self).next_id == old(self).next_id,
    {
        let s = self.sockets[idx];
        self.sockets[idx] = VirtualSocket { local: Some(a), ..s };
    }

    /// Points the socket at `idx` at a peer and the stream assigned to
    /// it on that peer's connection; nothing else changes.
    pub fn set_peer(&mut self, idx: usize, peer: PeerAddr, stream: Option<u64>)
        requires
            old(self).wf(),
            idx < old(self).sockets@.len(),
        ensures
            final(self).wf(),
            final(self).sockets@ == old(self).sockets@.update(
                idx as int,
                VirtualSocket { peer: Some(peer), stream_id: stream, ..old(self).sockets@[idx as int] },
            ),
            final(self).next_id == old(self).next_id,
    {
        let s = self.sockets[idx];
        self.sockets[idx] = VirtualSocket { peer: Some(peer), stream_id: stream, ..s };
    }

    /// Descriptors identify sockets uniquely: two table slots carrying
    /// the same descriptor are the same slot.
    pub proof fn lemma_descriptor_unique(s: Seq<VirtualSocket>, i: int, j: int)
        requires
            unique_ids(s),
            0 <= i < s.len(),
            0 <= j < s.len(),
            s[i].id == s[j].id,
        ensures
            i == j,
    {
    }
}

} // verus!
