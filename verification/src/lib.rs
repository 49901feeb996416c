//! A verified translation layer for tunnelling a connectionless datagram
//! socket API over a connection-oriented, handshake-driven transport.
//!
//! The library holds the logic of the tunnel: parsing caller-supplied
//! address buffers, the virtual socket table, the per-peer connection
//! registry with its at-most-one-connection-per-peer invariant, the
//! connection state machine with its bounded drive (pump) loop, and the
//! translation of protocol conditions into POSIX-style return codes.
//! The protocol engine and the real UDP socket are external collaborators:
//! an unverified shim performs their calls and feeds the outcomes back in
//! as events.

pub mod addr;
pub mod conn;
pub mod errors;
pub mod registry;
pub mod table;
pub mod tunnel;
