//! The tunnel's error kinds and their translation to POSIX error codes.
//!
//! Every peer- or network-induced failure degrades to an error return
//! carried by one of these kinds; only the would-block kind is a
//! non-fatal, retry-me condition. The numeric codes are the conventional
//! Linux `errno` values under which the unverified shim reports each kind
//! to the calling application.

use vstd::prelude::*;

verus! {

/// The kinds of failure a tunnel operation can report.
#[derive(Clone, Copy, PartialEq, Eq, Structural, Debug)]
pub enum ShimError {
    /// A malformed or unsupported address buffer.
    AddressParse,
    /// The descriptor is not one handed out by the tunnel.
    BadDescriptor,
    /// Non-recoverable protocol negotiation failure; the connection is dead.
    HandshakeFailure,
    /// Malformed or disallowed peer traffic.
    ProtocolViolation,
    /// The shared transport or a fresh stream could not be provided.
    TransportUnavailable,
    /// No data or capacity right now; retry later. Never fatal.
    WouldBlock,
    /// A socket type other than a connectionless datagram socket.
    Unsupported,
}

impl ShimError {
    /// The `errno` value under which this kind is reported:
    /// `EINVAL`, `EBADF`, `ECONNRESET`, `EPROTO`, `ENETUNREACH`,
    /// `EAGAIN`, `EOPNOTSUPP` in turn.
    pub open spec fn errno_spec(self) -> i32 {
        match self {
            ShimError::AddressParse => 22,
            ShimError::BadDescriptor => 9,
            ShimError::HandshakeFailure => 104,
            ShimError::ProtocolViolation => 71,
            ShimError::TransportUnavailable => 101,
            ShimError::WouldBlock => 11,
            ShimError::Unsupported => 95,
        }
    }

    pub fn errno(&self) -> (r: i32)
        ensures
            r == self.errno_spec(),
    {
        match self {
            ShimError::AddressParse => 22,
            ShimError::BadDescriptor => 9,
            ShimError::HandshakeFailure => 104,
            ShimError::ProtocolViolation => 71,
            ShimError::TransportUnavailable => 101,
            ShimError::WouldBlock => 11,
            ShimError::Unsupported => 95,
        }
    }
}

/// A POSIX-style outcome: the value returned to the caller, and the
/// `errno` to set when that value is negative (zero otherwise).
#[derive(Clone, Copy, PartialEq, Eq, Structural, Debug)]
pub struct PosixOutcome {
    pub ret: isize,
    pub errno: i32,
}

} // verus!
