//! The tunnel façade: the single entry point behind the intercepted
//! socket calls.
//!
//! Each of the four intercepted operations is sequenced here: descriptor
//! bookkeeping in the virtual socket table, get-or-create in the
//! connection registry, the per-connection drive, and the translation of
//! protocol conditions into POSIX-style results. The protocol engine and
//! the real UDP transport are driven by the unverified shim, which calls
//! the step functions here, carries out the returned commands, and feeds
//! the outcomes back in. The shim holds one lock around every such
//! sequence, so each intercepted call acts on the tunnel atomically.

use vstd::prelude::*;

use crate::addr::PeerAddr;
use crate::addr::parse_sockaddr_in;
use crate::addr::parse_sockaddr_in_spec;
use crate::conn::ConnState;
use crate::conn::PumpCmd;
use crate::conn::PumpEvent;
use crate::conn::TunnelConnection;
use crate::conn::established_step;
use crate::conn::failed_step;
use crate::conn::fin_step;
use crate::errors::PosixOutcome;
use crate::errors::ShimError;
use crate::registry::Registry;
use crate::registry::conn_ix;
use crate::registry::get_or_create_post;
use crate::registry::has_key;
use crate::registry::has_live;
use crate::registry::lemma_conn_ix;
use crate::table::SocketTable;
use crate::table::VirtualSocket;
use crate::table::has_id;
use crate::table::lemma_sock_ix;
use crate::table::sock_ix;

verus! {

/// The address-family tag of IPv4 sockets (`AF_INET`).
pub const AF_INET_DOMAIN: i32 = 2;

/// The socket type of connectionless datagram sockets (`SOCK_DGRAM`).
pub const SOCK_DGRAM_TYPE: i32 = 2;

/// The datagram protocol number (`IPPROTO_UDP`).
pub const IPPROTO_UDP: i32 = 17;

/// The largest payload length whose byte count the tunnel reports
/// through a POSIX signed return value, whatever the platform width.
pub const MAX_RET_LEN: usize = 0x7fff_ffff;

/// Whether a `socket()` request asks for a connectionless IPv4 datagram
/// socket — the only kind the tunnel serves. Type flag bits above the
/// low byte (such as the non-blocking and close-on-exec flags) are
/// ignored.
pub open spec fn dgram_request(domain: i32, sock_type: i32, protocol: i32) -> bool {
    &&& domain == AF_INET_DOMAIN
    &&& sock_type & 0xff == SOCK_DGRAM_TYPE
    &&& (protocol == 0 || protocol == IPPROTO_UDP)
}

/// The process-scoped tunnel context: the virtual socket table, the
/// connection registry, and whether the shared transport socket has been
/// provisioned.
pub struct Tunnel {
    pub table: SocketTable,
    pub registry: Registry,
    pub transport_ready: bool,
}

/// The two tunnels hold exactly the same state.
pub open spec fn same_state(a: Tunnel, b: Tunnel) -> bool {
    &&& a.table.sockets@ == b.table.sockets@
    &&& a.table.next_id == b.table.next_id
    &&& a.registry.entries@ == b.registry.entries@
    &&& a.transport_ready == b.transport_ready
}

/// What `sendto` decided after its bookkeeping.
#[derive(Clone, Copy, PartialEq, Eq, Structural, Debug)]
pub enum SendtoStep {
    /// The call fails with this error; nothing changed.
    Rejected(ShimError),
    /// Drive the connection filed under `key` (at registry index
    /// `conn`, serving the socket at table index `sock`). When
    /// `created` holds, a fresh connection was filed and the shim must
    /// first hand the engine its handshake for this peer.
    Drive { key: u64, created: bool, conn: usize, sock: usize },
}

/// Whether the connection is ready to accept stream data for a send.
#[derive(Clone, Copy, PartialEq, Eq, Structural, Debug)]
pub enum SendReady {
    /// The call fails with this error; a would-block error simply means
    /// the handshake has not completed yet.
    Rejected(ShimError),
    /// Hand the payload to the engine on this stream.
    Stream(u64),
}

/// What the engine did with the payload handed to its stream.
#[derive(Clone, Copy, PartialEq, Eq, Structural, Debug)]
pub enum StreamSendOutcome {
    /// The engine accepted this many leading payload bytes.
    Accepted(usize),
    /// The engine has no capacity now; the caller must retry.
    Blocked,
    /// The peer refused further data on the stream.
    Stopped,
    /// An unrecoverable protocol error; the connection is dead.
    Fatal,
}

/// What `recvfrom` decided after its bookkeeping.
#[derive(Clone, Copy, PartialEq, Eq, Structural, Debug)]
pub enum RecvStep {
    /// The call fails with this error; nothing changed.
    Rejected(ShimError),
    /// Drive the connection filed under `key` (at registry index
    /// `conn`, serving the socket at table index `sock`), then ask
    /// whether data can be read.
    Drive { key: u64, conn: usize, sock: usize },
}

/// Whether the connection has a stream to read for this socket.
#[derive(Clone, Copy, PartialEq, Eq, Structural, Debug)]
pub enum RecvReady {
    /// The call fails with this error; a would-block error means the
    /// handshake is still in progress or nothing can have arrived.
    Rejected(ShimError),
    /// The peer has cleanly closed its side; the caller gets zero.
    PeerClosed,
    /// Ask the engine for available bytes on this stream.
    Stream(u64),
}

/// What the engine held for the stream that was read.
#[derive(Clone, Copy, PartialEq, Eq, Structural, Debug)]
pub enum StreamRecvOutcome {
    /// Bytes were read; `fin` reports whether the peer finished its
    /// side with them.
    Data { fin: bool },
    /// Nothing is available now.
    Empty,
    /// An unrecoverable protocol error; the connection is dead.
    Fatal,
}

/// `post` is `pre` with the connection currently serving descriptor
/// `sockfd` — if the descriptor exists, sends somewhere, and its peer
/// is filed — stepped by `f`; everything else is untouched.
pub open spec fn steps_conn_of(
    pre: Tunnel,
    post: Tunnel,
    sockfd: i32,
    f: spec_fn(TunnelConnection) -> TunnelConnection,
) -> bool {
    &&& post.table.sockets@ == pre.table.sockets@
    &&& post.table.next_id == pre.table.next_id
    &&& post.transport_ready == pre.transport_ready
    &&& {
        let socks = pre.table.sockets@;
        if has_id(socks, sockfd) {
            match socks[sock_ix(socks, sockfd)].peer {
                Some(p) => if has_key(pre.registry.entries@, p.key_spec()) {
                    let ci = conn_ix(pre.registry.entries@, p.key_spec());
                    post.registry.entries@ == pre.registry.entries@.update(
                        ci,
                        f(pre.registry.entries@[ci]),
                    )
                } else {
                    post.registry.entries@ == pre.registry.entries@
                },
                None => post.registry.entries@ == pre.registry.entries@,
            }
        } else {
            post.registry.entries@ == pre.registry.entries@
        }
    }
}

/// What `bind` decided.
#[derive(Clone, Copy, PartialEq, Eq, Structural, Debug)]
pub enum BindStep {
    /// The call fails with this error; nothing changed.
    Rejected(ShimError),
    /// The bind is recorded and the shared transport already exists.
    Ready,
    /// The bind is recorded; the shim must provision the shared
    /// transport (one non-blocking datagram socket) and report back.
    NeedTransport,
}

impl Tunnel {
    /// Well-formedness of the whole context.
    pub open spec fn wf(self) -> bool {
        &&& self.table.wf()
        &&& self.registry.wf()
    }

    /// A fresh context: no sockets, no connections, no transport.
    pub fn new() -> (r: Tunnel)
        ensures
            r.wf(),
            r.table.sockets@.len() == 0,
            r.table.next_id == 1,
            r.registry.entries@.len() == 0,
            !r.transport_ready,
    {
        Tunnel { table: SocketTable::new(), registry: Registry::new(), transport_ready: false }
    }

    /// The intercepted `socket()`: succeeds exactly for connectionless
    /// IPv4 datagram requests (while descriptors remain), handing out a
    /// fresh process-unique descriptor; everything else is refused with
    /// a negative result and no state change.
    pub fn socket(&mut self, domain: i32, sock_type: i32, protocol: i32) -> (r: i32)
        requires
            old(self).wf(),
            old(self).table.sockets@.len() < usize::MAX,
        ensures
            final(self).wf(),
            final(self).registry.entries@ == old(self).registry.entries@,
            final(self).transport_ready == old(self).transport_ready,
            !dgram_request(domain, sock_type, protocol) ==> r == -1 && same_state(
                *old(self),
                *final(self),
            ),
            dgram_request(domain, sock_type, protocol) && old(self).table.next_id == i32::MAX
                ==> r == -1 && same_state(*old(self), *final(self)),
            dgram_request(domain, sock_type, protocol) && old(self).table.next_id < i32::MAX
                ==> {
                &&& r == old(self).table.next_id
                &&& r >= 1
                &&& !has_id(old(self).table.sockets@, r)
                &&& final(self).table.sockets@ == old(self).table.sockets@.push(
                    (VirtualSocket { id: r, local: None, peer: None, stream_id: None }),
                )
                &&& final(self).table.next_id == old(self).table.next_id + 1
            },
    {
        if !(domain == AF_INET_DOMAIN && (sock_type & 0xff) == SOCK_DGRAM_TYPE && (protocol == 0
            || protocol == IPPROTO_UDP)) {
            return -1;
        }
        self.table.create()
    }

    /// The intercepted `bind()`: a malformed or non-IPv4 address buffer
    /// is rejected with the whole context untouched — in particular no
    /// transport is provisioned; an unknown descriptor is rejected the
    /// same way. Otherwise the local address is recorded on the socket,
    /// and the shim is told to provision the shared transport if that
    /// has not happened yet.
    pub fn bind(&mut self, sockfd: i32, addr: &Vec<u8>, addrlen: usize) -> (r: BindStep)
        requires
            old(self).wf(),
        ensures
            final(self).wf(),
            final(self).registry.entries@ == old(self).registry.entries@,
            final(self).transport_ready == old(self).transport_ready,
            final(self).table.next_id == old(self).table.next_id,
            match parse_sockaddr_in_spec(addr@, addrlen as int) {
                None => r == BindStep::Rejected(ShimError::AddressParse) && same_state(
                    *old(self),
                    *final(self),
                ),
                Some(a) => if !has_id(old(self).table.sockets@, sockfd) {
                    r == BindStep::Rejected(ShimError::BadDescriptor) && same_state(
                        *old(self),
                        *final(self),
                    )
                } else {
                    &&& final(self).table.sockets@ == old(self).table.sockets@.update(
                        sock_ix(old(self).table.sockets@, sockfd),
                        (VirtualSocket {
                            local: Some(a),
                            ..old(self).table.sockets@[sock_ix(old(self).table.sockets@, sockfd)]
                        }),
                    )
                    &&& r == if old(self).transport_ready {
                        BindStep::Ready
                    } else {
                        BindStep::NeedTransport
                    }
                },
            },
    {
        let parsed = parse_sockaddr_in(addr, addrlen);
        match parsed {
            None => BindStep::Rejected(ShimError::AddressParse),
            Some(a) => {
                match self.table.find(sockfd) {
                    None => BindStep::Rejected(ShimError::BadDescriptor),
                    Some(i) => {
                        proof {
                            lemma_sock_ix(self.table.sockets@, i as int, sockfd);
                        }
                        self.table.set_local(i, a);
                        if self.transport_ready {
                            BindStep::Ready
                        } else {
                            BindStep::NeedTransport
                        }
                    },
                }
            },
        }
    }

    /// The shim reports that the shared transport socket now exists (one
    /// real non-blocking datagram socket, created once and reused for
    /// the life of the process).
    pub fn transport_provisioned(&mut self)
        ensures
            final(self).transport_ready,
            final(self).table.sockets@ == old(self).table.sockets@,
            final(self).table.next_id == old(self).table.next_id,
            final(self).registry.entries@ == old(self).registry.entries@,
            old(self).wf() ==> final(self).wf(),
    {
        self.transport_ready = true;
    }

    /// The bookkeeping half of the intercepted `sendto()`: rejects a
    /// malformed destination before anything else is touched, requires a
    /// known descriptor and a provisioned transport, then files the
    /// destination peer in the registry — creating a connection (and so
    /// a handshake) exactly when no live one exists — and points the
    /// socket at that peer, keeping its stream only when the peer and
    /// connection are the ones it already used. The shim then drives
    /// the returned connection and asks `sendto_complete`.
    pub fn sendto(&mut self, sockfd: i32, addr: &Vec<u8>, addrlen: usize) -> (r: SendtoStep)
        requires
            old(self).wf(),
            old(self).registry.entries@.len() < usize::MAX,
        ensures
            final(self).wf(),
            final(self).transport_ready == old(self).transport_ready,
            final(self).table.next_id == old(self).table.next_id,
            match parse_sockaddr_in_spec(addr@, addrlen as int) {
                None => r == SendtoStep::Rejected(ShimError::AddressParse) && same_state(
                    *old(self),
                    *final(self),
                ),
                Some(peer) => if !has_id(old(self).table.sockets@, sockfd) {
                    r == SendtoStep::Rejected(ShimError::BadDescriptor) && same_state(
                        *old(self),
                        *final(self),
                    )
                } else if !old(self).transport_ready {
                    r == SendtoStep::Rejected(ShimError::TransportUnavailable) && same_state(
                        *old(self),
                        *final(self),
                    )
                } else {
                    let si = sock_ix(old(self).table.sockets@, sockfd);
                    let prev = old(self).table.sockets@[si];
                    &&& r matches SendtoStep::Drive { key, created, conn, sock } && {
                        &&& key == peer.key_spec()
                        &&& sock == si
                        &&& (created <==> !has_live(old(self).registry.entries@, peer.key_spec()))
                        &&& get_or_create_post(
                            old(self).registry.entries@,
                            final(self).registry.entries@,
                            peer,
                            conn as int,
                            created,
                        )
                        &&& final(self).table.sockets@ == old(self).table.sockets@.update(
                            si,
                            (VirtualSocket {
                                peer: Some(peer),
                                stream_id: if prev.peer == Some(peer) && !created {
                                    prev.stream_id
                                } else {
                                    None
                                },
                                ..prev
                            }),
                        )
                    }
                },
            },
    {
        let parsed = parse_sockaddr_in(addr, addrlen);
        let peer = match parsed {
            None => {
                return SendtoStep::Rejected(ShimError::AddressParse);
            },
            Some(p) => p,
        };
        let si = match self.table.find(sockfd) {
            None => {
                return SendtoStep::Rejected(ShimError::BadDescriptor);
            },
            Some(i) => i,
        };
        proof {
            lemma_sock_ix(self.table.sockets@, si as int, sockfd);
        }
        if !self.transport_ready {
            return SendtoStep::Rejected(ShimError::TransportUnavailable);
        }
        let created_pair = self.registry.get_or_create(peer);
        let ci = created_pair.0;
        let created = created_pair.1;
        let s = self.table.sockets[si];
        let keep = match s.peer {
            Some(p0) => p0 == peer && !created,
            None => false,
        };
        let stream = if keep {
            s.stream_id
        } else {
            None
        };
        self.table.set_peer(si, peer, stream);
        SendtoStep::Drive { key: peer.key(), created, conn: ci, sock: si }
    }

    /// Whether the connection serving this descriptor is ready for
    /// stream data, asked after the drive: still handshaking gives
    /// would-block (nothing is buffered before the handshake is done),
    /// a dead connection gives its terminal error, and an established
    /// one names the stream — assigning this socket a fresh stream on
    /// the connection if it has none yet.
    pub fn sendto_complete(&mut self, sockfd: i32) -> (r: SendReady)
        requires
            old(self).wf(),
        ensures
            final(self).wf(),
            final(self).transport_ready == old(self).transport_ready,
            final(self).table.next_id == old(self).table.next_id,
            ({
                let socks = old(self).table.sockets@;
                let entries = old(self).registry.entries@;
                if !has_id(socks, sockfd) {
                    r == SendReady::Rejected(ShimError::BadDescriptor) && same_state(
                        *old(self),
                        *final(self),
                    )
                } else {
                    let si = sock_ix(socks, sockfd);
                    match socks[si].peer {
                        None => r == SendReady::Rejected(ShimError::TransportUnavailable)
                            && same_state(*old(self), *final(self)),
                        Some(p) => if !has_key(entries, p.key_spec()) {
                            r == SendReady::Rejected(ShimError::TransportUnavailable)
                                && same_state(*old(self), *final(self))
                        } else {
                            let ci = conn_ix(entries, p.key_spec());
                            let c = entries[ci];
                            if c.state == ConnState::Handshaking {
                                r == SendReady::Rejected(ShimError::WouldBlock) && same_state(
                                    *old(self),
                                    *final(self),
                                )
                            } else if c.state == ConnState::Failed {
                                r == SendReady::Rejected(ShimError::HandshakeFailure)
                                    && same_state(*old(self), *final(self))
                            } else if c.state == ConnState::Closing || c.state
                                == ConnState::Closed {
                                r == SendReady::Rejected(ShimError::ProtocolViolation)
                                    && same_state(*old(self), *final(self))
                            } else if c.state == ConnState::Idle {
                                r == SendReady::Rejected(ShimError::TransportUnavailable)
                                    && same_state(*old(self), *final(self))
                            } else {
                                match socks[si].stream_id {
                                    Some(sid) => r == SendReady::Stream(sid) && same_state(
                                        *old(self),
                                        *final(self),
                                    ),
                                    None => if c.next_stream_index
                                        < crate::conn::MAX_STREAM_INDEX {
                                        &&& r == SendReady::Stream(
                                            (c.next_stream_index * 4) as u64,
                                        )
                                        &&& final(self).registry.entries@ == entries.update(
                                            ci,
                                            (TunnelConnection {
                                                next_stream_index: (c.next_stream_index
                                                    + 1) as u64,
                                                ..c
                                            }),
                                        )
                                        &&& final(self).table.sockets@ == socks.update(
                                            si,
                                            (VirtualSocket {
                                                stream_id: Some(
                                                    (c.next_stream_index * 4) as u64,
                                                ),
                                                ..socks[si]
                                            }),
                                        )
                                    } else {
                                        r == SendReady::Rejected(
                                            ShimError::TransportUnavailable,
                                        ) && same_state(*old(self), *final(self))
                                    },
                                }
                            }
                        },
                    }
                }
            }),
    {
        let si = match self.table.find(sockfd) {
            None => {
                return SendReady::Rejected(ShimError::BadDescriptor);
            },
            Some(i) => i,
        };
        proof {
            lemma_sock_ix(self.table.sockets@, si as int, sockfd);
        }
        let s = self.table.sockets[si];
        let p = match s.peer {
            None => {
                return SendReady::Rejected(ShimError::TransportUnavailable);
            },
            Some(p) => p,
        };
        let ci = match self.registry.find(p.key()) {
            None => {
                return SendReady::Rejected(ShimError::TransportUnavailable);
            },
            Some(c) => c,
        };
        proof {
            lemma_conn_ix(self.registry.entries@, ci as int, p.key_spec());
        }
        let st = self.registry.entries[ci].state;
        if st == ConnState::Handshaking {
            return SendReady::Rejected(ShimError::WouldBlock);
        }
        if st == ConnState::Failed {
            return SendReady::Rejected(ShimError::HandshakeFailure);
        }
        if st == ConnState::Closing || st == ConnState::Closed {
            return SendReady::Rejected(ShimError::ProtocolViolation);
        }
        if st == ConnState::Idle {
            return SendReady::Rejected(ShimError::TransportUnavailable);
        }
        match s.stream_id {
            Some(sid) => SendReady::Stream(sid),
            None => {
                match self.registry.alloc_stream_at(ci) {
                    None => SendReady::Rejected(ShimError::TransportUnavailable),
                    Some(sid) => {
                        self.table.set_peer(si, p, Some(sid));
                        SendReady::Stream(sid)
                    },
                }
            },
        }
    }

    /// Translates what the engine did with the payload into the POSIX
    /// result of `sendto`: the count of accepted bytes on success
    /// (partial writes are the caller's to retry), a would-block error
    /// while capacity is lacking, an error for a refused stream, and a
    /// terminal error that also marks the serving connection failed.
    pub fn sendto_finish(&mut self, sockfd: i32, outcome: StreamSendOutcome, payload_len: usize)
        -> (r: PosixOutcome)
        requires
            old(self).wf(),
            payload_len <= MAX_RET_LEN,
            outcome matches StreamSendOutcome::Accepted(n) ==> n <= payload_len,
        ensures
            final(self).wf(),
            match outcome {
                StreamSendOutcome::Accepted(n) => r == (PosixOutcome {
                    ret: n as isize,
                    errno: 0,
                }) && same_state(*old(self), *final(self)),
                StreamSendOutcome::Blocked => r == (PosixOutcome { ret: -1isize, errno: 11 })
                    && same_state(*old(self), *final(self)),
                StreamSendOutcome::Stopped => r == (PosixOutcome { ret: -1isize, errno: 71 })
                    && same_state(*old(self), *final(self)),
                StreamSendOutcome::Fatal => r == (PosixOutcome { ret: -1isize, errno: 71 })
                    && steps_conn_of(
                    *old(self),
                    *final(self),
                    sockfd,
                    (|c: TunnelConnection| failed_step(c)),
                ),
            },
    {
        match outcome {
            StreamSendOutcome::Accepted(n) => PosixOutcome { ret: n as isize, errno: 0 },
            StreamSendOutcome::Blocked => PosixOutcome { ret: -1isize, errno: 11 },
            StreamSendOutcome::Stopped => PosixOutcome { ret: -1isize, errno: 71 },
            StreamSendOutcome::Fatal => {
                self.fail_conn_of_sock(sockfd);
                PosixOutcome { ret: -1isize, errno: 71 }
            },
        }
    }

    /// Marks the connection serving `sockfd` as terminally failed, if
    /// the descriptor exists, sends somewhere, and its peer is filed.
    fn fail_conn_of_sock(&mut self, sockfd: i32)
        requires
            old(self).wf(),
        ensures
            final(self).wf(),
            steps_conn_of(
                *old(self),
                *final(self),
                sockfd,
                (|c: TunnelConnection| failed_step(c)),
            ),
    {
        let si = match self.table.find(sockfd) {
            None => {
                return ;
            },
            Some(i) => i,
        };
        proof {
            lemma_sock_ix(self.table.sockets@, si as int, sockfd);
        }
        let p = match self.table.sockets[si].peer {
            None => {
                return ;
            },
            Some(p) => p,
        };
        let ci = match self.registry.find(p.key()) {
            None => {
                return ;
            },
            Some(c) => c,
        };
        proof {
            lemma_conn_ix(self.registry.entries@, ci as int, p.key_spec());
        }
        self.registry.apply_failed(ci);
    }

    /// The bookkeeping half of the intercepted `recvfrom()`: nothing can
    /// have arrived for a descriptor that never sent anywhere, a dead
    /// connection reports its terminal error, and otherwise the serving
    /// connection is to be driven (which is what moves a handshake
    /// forward) before `recvfrom_complete` is asked. Touches nothing.
    pub fn recvfrom(&self, sockfd: i32) -> (r: RecvStep)
        requires
            self.wf(),
        ensures
            ({
                let socks = self.table.sockets@;
                let entries = self.registry.entries@;
                if !has_id(socks, sockfd) {
                    r == RecvStep::Rejected(ShimError::BadDescriptor)
                } else {
                    let si = sock_ix(socks, sockfd);
                    match socks[si].peer {
                        None => r == RecvStep::Rejected(ShimError::WouldBlock),
                        Some(p) => if !has_key(entries, p.key_spec()) {
                            r == RecvStep::Rejected(ShimError::TransportUnavailable)
                        } else if entries[conn_ix(entries, p.key_spec())].state
                            == ConnState::Failed {
                            r == RecvStep::Rejected(ShimError::HandshakeFailure)
                        } else {
                            r == (RecvStep::Drive {
                                key: p.key_spec(),
                                conn: conn_ix(entries, p.key_spec()) as usize,
                                sock: si as usize,
                            })
                        },
                    }
                }
            }),
    {
        let si = match self.table.find(sockfd) {
            None => {
                return RecvStep::Rejected(ShimError::BadDescriptor);
            },
            Some(i) => i,
        };
        proof {
            lemma_sock_ix(self.table.sockets@, si as int, sockfd);
        }
        let p = match self.table.sockets[si].peer {
            None => {
                return RecvStep::Rejected(ShimError::WouldBlock);
            },
            Some(p) => p,
        };
        let ci = match self.registry.find(p.key()) {
            None => {
                return RecvStep::Rejected(ShimError::TransportUnavailable);
            },
            Some(c) => c,
        };
        proof {
            lemma_conn_ix(self.registry.entries@, ci as int, p.key_spec());
        }
        if self.registry.entries[ci].state == ConnState::Failed {
            return RecvStep::Rejected(ShimError::HandshakeFailure);
        }
        RecvStep::Drive { key: p.key(), conn: ci, sock: si }
    }

    /// Whether data can be read for this descriptor, asked after the
    /// drive: a connection still handshaking gives would-block — the
    /// caller is never stalled and never handed garbage bytes before the
    /// handshake is done; a cleanly closing or closed connection reports
    /// the peer's close (the caller gets zero); an established one names
    /// the stream to read, or would-block when this socket has no stream
    /// yet. Touches nothing.
    pub fn recvfrom_complete(&self, sockfd: i32) -> (r: RecvReady)
        requires
            self.wf(),
        ensures
            ({
                let socks = self.table.sockets@;
                let entries = self.registry.entries@;
                if !has_id(socks, sockfd) {
                    r == RecvReady::Rejected(ShimError::BadDescriptor)
                } else {
                    let si = sock_ix(socks, sockfd);
                    match socks[si].peer {
                        None => r == RecvReady::Rejected(ShimError::WouldBlock),
                        Some(p) => if !has_key(entries, p.key_spec()) {
                            r == RecvReady::Rejected(ShimError::TransportUnavailable)
                        } else {
                            let c = entries[conn_ix(entries, p.key_spec())];
                            if c.state == ConnState::Handshaking {
                                r == RecvReady::Rejected(ShimError::WouldBlock)
                            } else if c.state == ConnState::Failed {
                                r == RecvReady::Rejected(ShimError::HandshakeFailure)
                            } else if c.state == ConnState::Closing || c.state
                                == ConnState::Closed {
                                r == RecvReady::PeerClosed
                            } else if c.state == ConnState::Idle {
                                r == RecvReady::Rejected(ShimError::TransportUnavailable)
                            } else {
                                match socks[si].stream_id {
                                    Some(sid) => r == RecvReady::Stream(sid),
                                    None => r == RecvReady::Rejected(ShimError::WouldBlock),
                                }
                            }
                        },
                    }
                }
            }),
    {
        let si = match self.table.find(sockfd) {
            None => {
                return RecvReady::Rejected(ShimError::BadDescriptor);
            },
            Some(i) => i,
        };
        proof {
            lemma_sock_ix(self.table.sockets@, si as int, sockfd);
        }
        let s = self.table.sockets[si];
        let p = match s.peer {
            None => {
                return RecvReady::Rejected(ShimError::WouldBlock);
            },
            Some(p) => p,
        };
        let ci = match self.registry.find(p.key()) {
            None => {
                return RecvReady::Rejected(ShimError::TransportUnavailable);
            },
            Some(c) => c,
        };
        proof {
            lemma_conn_ix(self.registry.entries@, ci as int, p.key_spec());
        }
        let st = self.registry.entries[ci].state;
        if st == ConnState::Handshaking {
            return RecvReady::Rejected(ShimError::WouldBlock);
        }
        if st == ConnState::Failed {
            return RecvReady::Rejected(ShimError::HandshakeFailure);
        }
        if st == ConnState::Closing || st == ConnState::Closed {
            return RecvReady::PeerClosed;
        }
        if st == ConnState::Idle {
            return RecvReady::Rejected(ShimError::TransportUnavailable);
        }
        match s.stream_id {
            Some(sid) => RecvReady::Stream(sid),
            None => RecvReady::Rejected(ShimError::WouldBlock),
        }
    }

    /// Translates what the engine held for the stream into the POSIX
    /// result of `recvfrom`, handing the engine's bytes through
    /// verbatim: a positive count for delivered bytes, zero exactly for
    /// the peer's clean finish with nothing left, a would-block error
    /// when nothing is available, and a terminal error that also marks
    /// the serving connection failed. A finishing peer moves the
    /// connection towards its close.
    pub fn recvfrom_finish(
        &mut self,
        sockfd: i32,
        outcome: StreamRecvOutcome,
        data: Vec<u8>,
        max_len: usize,
    ) -> (r: (PosixOutcome, Vec<u8>))
        requires
            old(self).wf(),
            data@.len() <= max_len,
            max_len <= MAX_RET_LEN,
        ensures
            final(self).wf(),
            r.1@ == data@,
            match outcome {
                StreamRecvOutcome::Empty => r.0 == (PosixOutcome { ret: -1isize, errno: 11 })
                    && same_state(*old(self), *final(self)),
                StreamRecvOutcome::Fatal => r.0 == (PosixOutcome { ret: -1isize, errno: 71 })
                    && steps_conn_of(
                    *old(self),
                    *final(self),
                    sockfd,
                    (|c: TunnelConnection| failed_step(c)),
                ),
                StreamRecvOutcome::Data { fin } => {
                    &&& data@.len() > 0 ==> r.0 == (PosixOutcome {
                        ret: data@.len() as isize,
                        errno: 0,
                    })
                    &&& (data@.len() == 0 && fin) ==> r.0 == (PosixOutcome {
                        ret: 0isize,
                        errno: 0,
                    })
                    &&& (data@.len() == 0 && !fin) ==> r.0 == (PosixOutcome {
                        ret: -1isize,
                        errno: 11,
                    })
                    &&& fin ==> steps_conn_of(
                        *old(self),
                        *final(self),
                        sockfd,
                        (|c: TunnelConnection| fin_step(c)),
                    )
                    &&& !fin ==> same_state(*old(self), *final(self))
                },
            },
    {
        match outcome {
            StreamRecvOutcome::Empty => (PosixOutcome { ret: -1, errno: 11 }, data),
            StreamRecvOutcome::Fatal => {
                self.fail_conn_of_sock(sockfd);
                (PosixOutcome { ret: -1, errno: 71 }, data)
            },
            StreamRecvOutcome::Data { fin } => {
                if fin {
                    self.fin_conn_of_sock(sockfd);
                }
                let n = data.len();
                if n > 0 {
                    (PosixOutcome { ret: n as isize, errno: 0 }, data)
                } else if fin {
                    (PosixOutcome { ret: 0, errno: 0 }, data)
                } else {
                    (PosixOutcome { ret: -1, errno: 11 }, data)
                }
            },
        }
    }

    /// Moves the connection serving `sockfd` towards its close after
    /// the peer finished its side, if the descriptor exists, sends
    /// somewhere, and its peer is filed.
    fn fin_conn_of_sock(&mut self, sockfd: i32)
        requires
            old(self).wf(),
        ensures
            final(self).wf(),
            steps_conn_of(*old(self), *final(self), sockfd, (|c: TunnelConnection| fin_step(c))),
    {
        let si = match self.table.find(sockfd) {
            None => {
                return ;
            },
            Some(i) => i,
        };
        proof {
            lemma_sock_ix(self.table.sockets@, si as int, sockfd);
        }
        let p = match self.table.sockets[si].peer {
            None => {
                return ;
            },
            Some(p) => p,
        };
        let ci = match self.registry.find(p.key()) {
            None => {
                return ;
            },
            Some(c) => c,
        };
        proof {
            lemma_conn_ix(self.registry.entries@, ci as int, p.key_spec());
        }
        self.registry.apply_fin(ci);
    }

    /// Begins one drive of the connection filed under `key`: a full
    /// iteration budget, and the first command is to flush the engine's
    /// outbound packets. An unknown key stops at once.
    pub fn pump_start(&mut self, key: u64) -> (cmd: PumpCmd)
        requires
            old(self).wf(),
        ensures
            final(self).wf(),
            final(self).table.sockets@ == old(self).table.sockets@,
            final(self).table.next_id == old(self).table.next_id,
            final(self).transport_ready == old(self).transport_ready,
            if has_key(old(self).registry.entries@, key) {
                let ci = conn_ix(old(self).registry.entries@, key);
                &&& cmd == PumpCmd::FlushOut
                &&& final(self).registry.entries@ == old(self).registry.entries@.update(
                    ci,
                    (TunnelConnection {
                        pump_phase: crate::conn::PumpPhase::Emitting,
                        pump_budget: crate::conn::MAX_PUMP_ITERS,
                        ..old(self).registry.entries@[ci]
                    }),
                )
            } else {
                cmd == PumpCmd::Stop && final(self).registry.entries@ == old(
                    self,
                ).registry.entries@
            },
    {
        match self.registry.find(key) {
            None => PumpCmd::Stop,
            Some(ci) => {
                proof {
                    lemma_conn_ix(self.registry.entries@, ci as int, key);
                }
                self.registry.pump_start_at(ci)
            },
        }
    }

    /// One step of the drive of the connection filed under `key`: takes
    /// what the shim observed while carrying out the previous command
    /// and decides the next one, shrinking the drive's termination
    /// measure on every step that does not stop. An engine failure
    /// marks the connection terminally failed. An unknown key stops at
    /// once.
    pub fn pump_step(&mut self, key: u64, ev: PumpEvent) -> (cmd: PumpCmd)
        requires
            old(self).wf(),
        ensures
            final(self).wf(),
            final(self).table.sockets@ == old(self).table.sockets@,
            final(self).table.next_id == old(self).table.next_id,
            final(self).transport_ready == old(self).transport_ready,
            if has_key(old(self).registry.entries@, key) {
                let ci = conn_ix(old(self).registry.entries@, key);
                let (c2, c_cmd) = TunnelConnection::pump_step_spec(
                    old(self).registry.entries@[ci],
                    ev,
                );
                &&& cmd == c_cmd
                &&& final(self).registry.entries@ == old(self).registry.entries@.update(ci, c2)
                &&& cmd != PumpCmd::Stop ==> c2.pump_measure() < old(
                    self,
                ).registry.entries@[ci].pump_measure()
            } else {
                cmd == PumpCmd::Stop && final(self).registry.entries@ == old(
                    self,
                ).registry.entries@
            },
    {
        match self.registry.find(key) {
            None => PumpCmd::Stop,
            Some(ci) => {
                proof {
                    lemma_conn_ix(self.registry.entries@, ci as int, key);
                }
                self.registry.pump_step_at(ci, ev)
            },
        }
    }

    /// The engine reported handshake completion for the connection
    /// filed under `key`: a handshaking connection becomes established.
    pub fn on_established(&mut self, key: u64)
        requires
            old(self).wf(),
        ensures
            final(self).wf(),
            final(self).table.sockets@ == old(self).table.sockets@,
            final(self).table.next_id == old(self).table.next_id,
            final(self).transport_ready == old(self).transport_ready,
            if has_key(old(self).registry.entries@, key) {
                let ci = conn_ix(old(self).registry.entries@, key);
                final(self).registry.entries@ == old(self).registry.entries@.update(
                    ci,
                    established_step(old(self).registry.entries@[ci]),
                )
            } else {
                final(self).registry.entries@ == old(self).registry.entries@
            },
    {
        match self.registry.find(key) {
            None => {},
            Some(ci) => {
                proof {
                    lemma_conn_ix(self.registry.entries@, ci as int, key);
                }
                self.registry.apply_established(ci);
            },
        }
    }

    /// The engine reported the close of the connection filed under
    /// `key` as complete: a closing connection becomes closed.
    pub fn on_drained(&mut self, key: u64)
        requires
            old(self).wf(),
        ensures
            final(self).wf(),
            final(self).table.sockets@ == old(self).table.sockets@,
            final(self).table.next_id == old(self).table.next_id,
            final(self).transport_ready == old(self).transport_ready,
            if has_key(old(self).registry.entries@, key) {
                let ci = conn_ix(old(self).registry.entries@, key);
                final(self).registry.entries@ == old(self).registry.entries@.update(
                    ci,
                    crate::conn::drained_step(old(self).registry.entries@[ci]),
                )
            } else {
                final(self).registry.entries@ == old(self).registry.entries@
            },
    {
        match self.registry.find(key) {
            None => {},
            Some(ci) => {
                proof {
                    lemma_conn_ix(self.registry.entries@, ci as int, key);
                }
                self.registry.apply_drained(ci);
            },
        }
    }

    /// The shim could not hand the engine a handshake for the
    /// connection filed under `key` (or the engine refused it): the
    /// connection is marked terminally failed, so a later call for the
    /// same peer files a fresh one.
    pub fn connect_failed(&mut self, key: u64)
        requires
            old(self).wf(),
        ensures
            final(self).wf(),
            final(self).table.sockets@ == old(self).table.sockets@,
            final(self).table.next_id == old(self).table.next_id,
            final(self).transport_ready == old(self).transport_ready,
            if has_key(old(self).registry.entries@, key) {
                let ci = conn_ix(old(self).registry.entries@, key);
                final(self).registry.entries@ == old(self).registry.entries@.update(
                    ci,
                    failed_step(old(self).registry.entries@[ci]),
                )
            } else {
                final(self).registry.entries@ == old(self).registry.entries@
            },
    {
        match self.registry.find(key) {
            None => {},
            Some(ci) => {
                proof {
                    lemma_conn_ix(self.registry.entries@, ci as int, key);
                }
                self.registry.apply_failed(ci);
            },
        }
    }
}

} // verus!
