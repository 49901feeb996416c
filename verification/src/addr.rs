//! IPv4 peer addresses and the parsing of raw `sockaddr_in` buffers.
//!
//! Callers of the intercepted socket functions hand in addresses as raw
//! byte buffers laid out as a `sockaddr_in` on a little-endian host:
//! a 16-byte record holding the address family in the first two bytes
//! (host order), the port in the next two bytes (network order), and the
//! IPv4 host address in the following four bytes (network order).
//! Only IPv4 datagram addresses are supported; anything else is rejected
//! here, before any deeper state is touched.

use vstd::prelude::*;

verus! {

/// The address family tag for IPv4 (`AF_INET`).
pub const AF_INET_FAMILY: u16 = 2;

/// The byte length of a `sockaddr_in` record.
pub const SOCKADDR_IN_LEN: usize = 16;

/// An IPv4 peer address: the host as a 32-bit value and a port.
/// This is the key under which tunnel connections are filed.
#[derive(Clone, Copy, PartialEq, Eq, Structural, Debug)]
pub struct PeerAddr {
    pub ip: u32,
    pub port: u16,
}

impl PeerAddr {
    /// A single integer that identifies the address.
    pub open spec fn key_spec(self) -> u64 {
        ((self.ip as u64) * 0x10000 + (self.port as u64)) as u64
    }

    pub fn key(&self) -> (r: u64)
        ensures
            r == self.key_spec(),
    {
        (self.ip as u64) * 0x10000 + (self.port as u64)
    }

    /// Distinct addresses have distinct keys.
    pub proof fn lemma_key_injective(a: PeerAddr, b: PeerAddr)
        ensures
            a.key_spec() == b.key_spec() ==> a == b,
    {
    }
}

/// The 16-bit value held by two bytes in host (little-endian) order.
pub open spec fn word_host(lo: u8, hi: u8) -> u16 {
    (lo + hi * 0x100) as u16
}

/// The 16-bit value held by two bytes in network (big-endian) order.
pub open spec fn word_net(hi: u8, lo: u8) -> u16 {
    (hi * 0x100 + lo) as u16
}

/// The 32-bit value held by four bytes in network (big-endian) order.
pub open spec fn quad_net(b0: u8, b1: u8, b2: u8, b3: u8) -> u32 {
    (b0 * 0x1000000 + b1 * 0x10000 + b2 * 0x100 + b3) as u32
}

/// What a well-formed `sockaddr_in` buffer denotes: the stated length must
/// be exactly that of a `sockaddr_in`, the buffer must hold that many
/// bytes, and the family must be `AF_INET`; the port and host address are
/// read in network order.
pub open spec fn parse_sockaddr_in_spec(bytes: Seq<u8>, addrlen: int) -> Option<PeerAddr> {
    if addrlen != SOCKADDR_IN_LEN || bytes.len() < SOCKADDR_IN_LEN {
        None
    } else if word_host(bytes[0], bytes[1]) != AF_INET_FAMILY {
        None
    } else {
        Some(PeerAddr {
            ip: quad_net(bytes[4], bytes[5], bytes[6], bytes[7]),
            port: word_net(bytes[2], bytes[3]),
        })
    }
}

/// Parses a raw address buffer into a peer address, exactly as
/// `parse_sockaddr_in_spec` describes: malformed buffers (wrong stated
/// length, short buffer, or a family other than IPv4) give `None`.
pub fn parse_sockaddr_in(bytes: &Vec<u8>, addrlen: usize) -> (r: Option<PeerAddr>)
    ensures
        r == parse_sockaddr_in_spec(bytes@, addrlen as int),
{
    if addrlen != SOCKADDR_IN_LEN || bytes.len() < SOCKADDR_IN_LEN {
        return None;
    }
    let family: u16 = (bytes[0] as u16) + (bytes[1] as u16) * 0x100;
    if family != AF_INET_FAMILY {
        return None;
    }
    let port: u16 = (bytes[2] as u16) * 0x100 + (bytes[3] as u16);
    let ip: u32 = (bytes[4] as u32) * 0x1000000 + (bytes[5] as u32) * 0x10000
        + (bytes[6] as u32) * 0x100 + (bytes[7] as u32);
    Some(PeerAddr { ip, port })
}

} // verus!
