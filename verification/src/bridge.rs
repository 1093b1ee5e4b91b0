//! Per-iteration decisions of the bridge loop.
//!
//! The bridge is the per-connection task that moves bytes between the real OS
//! TCP socket and the virtual TCP socket, multiplexing two events: the real
//! socket became readable, and a chunk arrived from the virtual interface.
//! The loop itself performs I/O and so runs outside the library; each of its
//! branches is decided here, and each decision function says exactly what the
//! loop does on every outcome the socket or the channel can produce.

use vstd::prelude::*;

verus! {

/// Outcome of one non-blocking read of the real client socket.
pub enum ReadEvent {
    /// Some bytes were read.
    Data(Vec<u8>),
    /// The read would block; nothing was read.
    WouldBlock,
    /// End of file: the client sent FIN.
    Closed,
    /// Any other socket error.
    Failed,
}

/// Outcome of one non-blocking write to the real client socket.
pub enum WriteEvent {
    /// This many bytes were written.
    Wrote(usize),
    /// The write would block.
    WouldBlock,
    /// Any other socket error.
    Failed,
}

/// What the bridge loop does next.
pub enum BridgeAction {
    /// Queue this chunk for the virtual interface.
    Forward(Vec<u8>),
    /// Write this chunk to the real client socket.
    Write(Vec<u8>),
    /// Go on to the next iteration.
    Continue,
    /// Leave the loop; tear the connection down.
    Stop,
}

/// The decision on a read outcome: data is forwarded to the virtual
/// interface; a read that would block is retried; FIN or a socket error ends
/// the connection.
pub open spec fn spec_read_action(ev: ReadEvent) -> BridgeAction {
    match ev {
        ReadEvent::Data(data) => BridgeAction::Forward(data),
        ReadEvent::WouldBlock => BridgeAction::Continue,
        ReadEvent::Closed => BridgeAction::Stop,
        ReadEvent::Failed => BridgeAction::Stop,
    }
}

/// The decision on what the channel from the virtual interface yielded: a
/// chunk is written to the real socket; a closed channel means the interface
/// task is gone, so the connection ends.
pub open spec fn spec_chunk_action(chunk: Option<Vec<u8>>) -> BridgeAction {
    match chunk {
        Some(data) => BridgeAction::Write(data),
        None => BridgeAction::Stop,
    }
}

/// The decision on a write outcome: a write that would block is retried
/// unless the connection was aborted meanwhile; a socket error ends the
/// connection.
pub open spec fn spec_write_action(ev: WriteEvent, aborted: bool) -> BridgeAction {
    match ev {
        WriteEvent::Wrote(_) => BridgeAction::Continue,
        WriteEvent::WouldBlock => if aborted {
            BridgeAction::Stop
        } else {
            BridgeAction::Continue
        },
        WriteEvent::Failed => BridgeAction::Stop,
    }
}

/// Decides one "real socket readable" event.
pub fn read_action(ev: ReadEvent) -> (a: BridgeAction)
    ensures
        a == spec_read_action(ev),
{
    match ev {
        ReadEvent::Data(data) => BridgeAction::Forward(data),
        ReadEvent::WouldBlock => BridgeAction::Continue,
        ReadEvent::Closed => BridgeAction::Stop,
        ReadEvent::Failed => BridgeAction::Stop,
    }
}

/// Decides one "chunk from the virtual interface" event.
pub fn chunk_action(chunk: Option<Vec<u8>>) -> (a: BridgeAction)
    ensures
        a == spec_chunk_action(chunk),
{
    match chunk {
        Some(data) => BridgeAction::Write(data),
        None => BridgeAction::Stop,
    }
}

/// Decides one write outcome.
pub fn write_action(ev: WriteEvent, aborted: bool) -> (a: BridgeAction)
    ensures
        a == spec_write_action(ev, aborted),
{
    match ev {
        WriteEvent::Wrote(_) => BridgeAction::Continue,
        WriteEvent::WouldBlock => if aborted {
            BridgeAction::Stop
        } else {
            BridgeAction::Continue
        },
        WriteEvent::Failed => BridgeAction::Stop,
    }
}

/// Law: a FIN or an error on the real socket always stops the bridge, on the
/// read side and on the write side alike; the bridge then raises the abort
/// flag, which the interface loop acts on within one iteration (see
/// `iface::spec_lifecycle_step`). No decision other than these, and a closed
/// channel, ever stops the bridge.
pub proof fn lemma_close_stops_bridge()
    ensures
        spec_read_action(ReadEvent::Closed) == BridgeAction::Stop,
        spec_read_action(ReadEvent::Failed) == BridgeAction::Stop,
        forall|aborted: bool|
            spec_write_action(WriteEvent::Failed, aborted) == BridgeAction::Stop,
        forall|data: Vec<u8>| spec_read_action(ReadEvent::Data(data)) is Forward,
        forall|n: usize, aborted: bool|
            spec_write_action(WriteEvent::Wrote(n), aborted) == BridgeAction::Continue,
{
}

} // verus!
