//! The per-peer connection state machine and its bounded drive loop.
//!
//! A tunnel connection wraps one protocol-engine connection to one peer.
//! The engine itself is an external collaborator: the unverified shim
//! performs its calls and the real datagram I/O, and reports what happened
//! as events. This module holds the decisions: the legal state
//! transitions, the terminal character of failure, stream-identifier
//! assignment, and the drive ("pump") loop that alternates flushing the
//! engine's outbound packets with one non-blocking inbound read, bounded
//! by a fixed iteration budget so that no intercepted call can spin
//! without limit.

use vstd::prelude::*;

use crate::addr::PeerAddr;

verus! {

/// The states of a tunnel connection. A connection is constructed
/// directly into `Handshaking` (the handshake is eager); `Idle` exists
/// only as the notional pre-construction state.
#[derive(Clone, Copy, PartialEq, Eq, Structural, Debug)]
pub enum ConnState {
    Idle,
    Handshaking,
    Established,
    Closing,
    Closed,
    Failed,
}

/// The legal transitions of the connection state machine. `Failed` and
/// `Closed` are terminal: nothing leads out of them.
pub open spec fn state_step_ok(pre: ConnState, post: ConnState) -> bool {
    ||| post == pre
    ||| (pre == ConnState::Idle && post == ConnState::Handshaking)
    ||| (pre == ConnState::Handshaking && (post == ConnState::Established || post
        == ConnState::Failed))
    ||| (pre == ConnState::Established && (post == ConnState::Closing || post
        == ConnState::Failed))
    ||| (pre == ConnState::Closing && post == ConnState::Closed)
}

/// The states from which an unrecoverable protocol error may drive the
/// connection to `Failed`.
pub open spec fn can_fail(s: ConnState) -> bool {
    s == ConnState::Handshaking || s == ConnState::Established
}

/// What `on_established` does to a connection.
pub open spec fn established_step(c: TunnelConnection) -> TunnelConnection {
    TunnelConnection {
        state: if c.state == ConnState::Handshaking {
            ConnState::Established
        } else {
            c.state
        },
        ..c
    }
}

/// What `mark_failed` does to a connection.
pub open spec fn failed_step(c: TunnelConnection) -> TunnelConnection {
    TunnelConnection {
        state: if can_fail(c.state) {
            ConnState::Failed
        } else {
            c.state
        },
        ..c
    }
}

/// What `on_peer_fin` does to a connection.
pub open spec fn fin_step(c: TunnelConnection) -> TunnelConnection {
    TunnelConnection {
        state: if c.state == ConnState::Established {
            ConnState::Closing
        } else {
            c.state
        },
        ..c
    }
}

/// What `on_drained` does to a connection.
pub open spec fn drained_step(c: TunnelConnection) -> TunnelConnection {
    TunnelConnection {
        state: if c.state == ConnState::Closing {
            ConnState::Closed
        } else {
            c.state
        },
        ..c
    }
}

/// `Failed` is terminal: no legal step leaves it.
pub proof fn lemma_failed_is_terminal(post: ConnState)
    ensures
        state_step_ok(ConnState::Failed, post) ==> post == ConnState::Failed,
{
}

/// Every drive of a connection is bounded: beginning a drive sets the
/// termination measure to a fixed small value, the measure never goes
/// below zero, and every pump step that does not stop strictly shrinks
/// it — so a shim that follows the pump commands performs at most
/// `2 * MAX_PUMP_ITERS + 1` steps per intercepted call and the caller is
/// never stalled.
pub proof fn lemma_drive_bounded(c: TunnelConnection, ev: PumpEvent)
    ensures
        (TunnelConnection {
            pump_phase: PumpPhase::Emitting,
            pump_budget: MAX_PUMP_ITERS,
            ..c
        }).pump_measure() == 2 * MAX_PUMP_ITERS + 1,
        c.pump_measure() >= 0,
        TunnelConnection::pump_step_spec(c, ev).1 != PumpCmd::Stop
            ==> TunnelConnection::pump_step_spec(c, ev).0.pump_measure() < c.pump_measure(),
{
}

/// `Closed` is terminal: no legal step leaves it.
pub proof fn lemma_closed_is_terminal(post: ConnState)
    ensures
        state_step_ok(ConnState::Closed, post) ==> post == ConnState::Closed,
{
}

/// Where the pump loop stands within one drive of a connection.
#[derive(Clone, Copy, PartialEq, Eq, Structural, Debug)]
pub enum PumpPhase {
    /// Asking the engine for outbound packets.
    Emitting,
    /// About to make one non-blocking inbound read.
    Polling,
    /// This drive is over.
    Stopped,
}

/// What the shim reports back after carrying out a pump command.
#[derive(Clone, Copy, PartialEq, Eq, Structural, Debug)]
pub enum PumpEvent {
    /// The engine produced an outbound packet and it was sent.
    PacketOut,
    /// The engine reported no more outbound work.
    EngineDone,
    /// A datagram was read and fed to the engine.
    DatagramIn,
    /// The non-blocking read found nothing pending.
    NothingIn,
    /// The engine reported an unrecoverable protocol error.
    EngineFailed,
}

/// What the shim is to do next while driving a connection.
#[derive(Clone, Copy, PartialEq, Eq, Structural, Debug)]
pub enum PumpCmd {
    /// Ask the engine for its next outbound packet and send it.
    FlushOut,
    /// Make one non-blocking read from the transport and feed the engine.
    Poll,
    /// Stop driving; the intercepted call returns now.
    Stop,
}

/// The iteration budget of one drive: at most this many packets are
/// moved before the intercepted call returns, so no call spins unbounded.
pub const MAX_PUMP_ITERS: u64 = 16;

/// Stream identifiers are client-initiated bidirectional ones,
/// `4 * index`; the index is capped so the identifier stays inside the
/// protocol's 62-bit stream-identifier space.
pub const MAX_STREAM_INDEX: u64 = 0x1000000000000000;

/// One per-peer tunnel connection: the registry key, the protocol state,
/// the local stream-identifier counter, and the state of the current
/// drive. The engine's own connection object lives with the unverified
/// shim, filed under the same peer key.
#[derive(Clone, Copy, PartialEq, Eq, Structural, Debug)]
pub struct TunnelConnection {
    pub peer: PeerAddr,
    pub state: ConnState,
    pub next_stream_index: u64,
    pub pump_phase: PumpPhase,
    pub pump_budget: u64,
}

impl TunnelConnection {
    /// Well-formedness: the stream counter and the pump budget stay in
    /// their bounded ranges.
    pub open spec fn wf(self) -> bool {
        &&& self.next_stream_index <= MAX_STREAM_INDEX
        &&& self.pump_budget <= MAX_PUMP_ITERS
    }

    /// The termination measure of a drive: it strictly decreases on every
    /// pump step that does not stop, so a shim that follows the commands
    /// makes at most a bounded number of steps.
    pub open spec fn pump_measure(self) -> int {
        if self.pump_phase == PumpPhase::Stopped {
            0
        } else if self.pump_phase == PumpPhase::Emitting {
            self.pump_budget * 2 + 1
        } else {
            self.pump_budget * 2
        }
    }

    /// A fresh connection for `peer`: the handshake is eager, so it is
    /// born `Handshaking`, with no streams assigned and no drive running.
    pub fn new(peer: PeerAddr) -> (c: TunnelConnection)
        ensures
            c.peer == peer,
            c.state == ConnState::Handshaking,
            c.next_stream_index == 0,
            c.pump_phase == PumpPhase::Stopped,
            c.pump_budget == 0,
            c.wf(),
    {
        TunnelConnection {
            peer,
            state: ConnState::Handshaking,
            next_stream_index: 0,
            pump_phase: PumpPhase::Stopped,
            pump_budget: 0,
        }
    }

    /// The engine reported handshake completion: a handshaking connection
    /// becomes established; in any other state the report is ignored.
    pub fn on_established(&mut self)
        ensures
            *final(self) == established_step(*old(self)),
            state_step_ok(old(self).state, final(self).state),
            old(self).wf() ==> final(self).wf(),
    {
        if self.state == ConnState::Handshaking {
            self.state = ConnState::Established;
        }
    }

    /// An unrecoverable protocol error: a handshaking or established
    /// connection becomes `Failed`, terminally; other states are left as
    /// they are.
    pub fn mark_failed(&mut self)
        ensures
            *final(self) == failed_step(*old(self)),
            state_step_ok(old(self).state, final(self).state),
            old(self).wf() ==> final(self).wf(),
    {
        if self.state == ConnState::Handshaking || self.state == ConnState::Established {
            self.state = ConnState::Failed;
        }
    }

    /// The peer finished its side of a stream: an established connection
    /// moves to `Closing`; other states are left as they are.
    pub fn on_peer_fin(&mut self)
        ensures
            *final(self) == fin_step(*old(self)),
            state_step_ok(old(self).state, final(self).state),
            old(self).wf() ==> final(self).wf(),
    {
        if self.state == ConnState::Established {
            self.state = ConnState::Closing;
        }
    }

    /// The engine reported the close as complete: a closing connection
    /// becomes `Closed`; other states are left as they are.
    pub fn on_drained(&mut self)
        ensures
            *final(self) == drained_step(*old(self)),
            state_step_ok(old(self).state, final(self).state),
            old(self).wf() ==> final(self).wf(),
    {
        if self.state == ConnState::Closing {
            self.state = ConnState::Closed;
        }
    }

    /// Assigns the next free stream identifier (client-initiated
    /// bidirectional, so `4 * index`) and advances the counter; `None`
    /// once the bounded identifier space is spent.
    pub fn alloc_stream(&mut self) -> (r: Option<u64>)
        requires
            old(self).wf(),
        ensures
            final(self).wf(),
            final(self).peer == old(self).peer,
            final(self).state == old(self).state,
            final(self).pump_phase == old(self).pump_phase,
            final(self).pump_budget == old(self).pump_budget,
            old(self).next_stream_index < MAX_STREAM_INDEX ==> r == Some(
                (old(self).next_stream_index * 4) as u64,
            ) && final(self).next_stream_index == old(self).next_stream_index + 1,
            old(self).next_stream_index >= MAX_STREAM_INDEX ==> r == None::<u64> && *final(self)
                == *old(self),
    {
        if self.next_stream_index < MAX_STREAM_INDEX {
            let id: u64 = self.next_stream_index * 4;
            self.next_stream_index = self.next_stream_index + 1;
            Some(id)
        } else {
            None
        }
    }

    /// Begins one drive of the connection: a full iteration budget, and
    /// the first command is to flush the engine's outbound packets.
    pub fn pump_start(&mut self) -> (cmd: PumpCmd)
        ensures
            final(self).pump_phase == PumpPhase::Emitting,
            final(self).pump_budget == MAX_PUMP_ITERS,
            cmd == PumpCmd::FlushOut,
            final(self).peer == old(self).peer,
            final(self).state == old(self).state,
            final(self).next_stream_index == old(self).next_stream_index,
            old(self).wf() ==> final(self).wf(),
    {
        self.pump_phase = PumpPhase::Emitting;
        self.pump_budget = MAX_PUMP_ITERS;
        PumpCmd::FlushOut
    }

    /// What one pump step does: the drive alternates flushing outbound
    /// packets (while the engine has some and budget remains) with one
    /// non-blocking inbound read; an inbound datagram re-opens the
    /// outbound flush; an empty read, a spent budget, an engine failure,
    /// or an event that does not answer the pending command stops the
    /// drive.
    pub open spec fn pump_step_spec(pre: TunnelConnection, ev: PumpEvent) -> (TunnelConnection,
        PumpCmd) {
        let stopped = TunnelConnection { pump_phase: PumpPhase::Stopped, ..pre };
        if ev == PumpEvent::EngineFailed {
            (
                TunnelConnection {
                    pump_phase: PumpPhase::Stopped,
                    state: if can_fail(pre.state) {
                        ConnState::Failed
                    } else {
                        pre.state
                    },
                    ..pre
                },
                PumpCmd::Stop,
            )
        } else if pre.pump_phase == PumpPhase::Emitting && ev == PumpEvent::PacketOut {
            if pre.pump_budget == 0 {
                (stopped, PumpCmd::Stop)
            } else {
                (
                    TunnelConnection { pump_budget: (pre.pump_budget - 1) as u64, ..pre },
                    PumpCmd::FlushOut,
                )
            }
        } else if pre.pump_phase == PumpPhase::Emitting && ev == PumpEvent::EngineDone {
            (TunnelConnection { pump_phase: PumpPhase::Polling, ..pre }, PumpCmd::Poll)
        } else if pre.pump_phase == PumpPhase::Polling && ev == PumpEvent::DatagramIn {
            if pre.pump_budget == 0 {
                (stopped, PumpCmd::Stop)
            } else {
                (
                    TunnelConnection {
                        pump_phase: PumpPhase::Emitting,
                        pump_budget: (pre.pump_budget - 1) as u64,
                        ..pre
                    },
                    PumpCmd::FlushOut,
                )
            }
        } else {
            (stopped, PumpCmd::Stop)
        }
    }

    /// One step of the drive loop: takes what the shim observed while
    /// carrying out the previous command and decides the next command.
    /// Every step that does not stop strictly shrinks the termination
    /// measure, so a shim that follows the commands drives at most a
    /// bounded number of steps per intercepted call.
    pub fn pump_step(&mut self, ev: PumpEvent) -> (cmd: PumpCmd)
        ensures
            (*final(self), cmd) == Self::pump_step_spec(*old(self), ev),
            cmd != PumpCmd::Stop ==> final(self).pump_measure() < old(self).pump_measure(),
            state_step_ok(old(self).state, final(self).state),
            final(self).peer == old(self).peer,
            final(self).next_stream_index == old(self).next_stream_index,
            ev == PumpEvent::EngineFailed && can_fail(old(self).state) ==> final(self).state
                == ConnState::Failed && cmd == PumpCmd::Stop,
            old(self).wf() ==> final(self).wf(),
    {
        if matches!(ev, PumpEvent::EngineFailed) {
            self.pump_phase = PumpPhase::Stopped;
            if self.state == ConnState::Handshaking || self.state == ConnState::Established {
                self.state = ConnState::Failed;
            }
            return PumpCmd::Stop;
        }
        if self.pump_phase == PumpPhase::Emitting && matches!(ev, PumpEvent::PacketOut) {
            if self.pump_budget == 0 {
                self.pump_phase = PumpPhase::Stopped;
                return PumpCmd::Stop;
            }
            self.pump_budget = self.pump_budget - 1;
            return PumpCmd::FlushOut;
        }
        if self.pump_phase == PumpPhase::Emitting && matches!(ev, PumpEvent::EngineDone) {
            self.pump_phase = PumpPhase::Polling;
            return PumpCmd::Poll;
        }
        if self.pump_phase == PumpPhase::Polling && matches!(ev, PumpEvent::DatagramIn) {
            if self.pump_budget == 0 {
                self.pump_phase = PumpPhase::Stopped;
                return PumpCmd::Stop;
            }
            self.pump_phase = PumpPhase::Emitting;
            self.pump_budget = self.pump_budget - 1;
            return PumpCmd::FlushOut;
        }
        self.pump_phase = PumpPhase::Stopped;
        PumpCmd::Stop
    }
}

} // verus!
