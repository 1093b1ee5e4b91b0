use onetun::bridge::{chunk_action, read_action, write_action, BridgeAction, ReadEvent, WriteEvent};
use onetun::chunks::ChunkQueue;
use onetun::device::VirtualIpDevice;
use onetun::iface::{
    poll_wait_millis, should_recv, sink_wait_millis, split_sent, Lifecycle, LifecycleEvent,
    PollOutcome,
};

#[test]
fn chunk_queue_is_fifo() {
    let mut q = ChunkQueue::new(10);
    assert!(q.try_push(b"hel".to_vec()));
    assert!(q.try_push(b"lo".to_vec()));
    let mut out = Vec::new();
    while let Some(chunk) = q.pop() {
        out.extend_from_slice(&chunk);
    }
    assert_eq!(out, b"hello");
}

#[test]
fn full_chunk_queue_refuses() {
    let mut q = ChunkQueue::new(1);
    assert!(q.try_push(vec![1]));
    assert!(q.is_full());
    assert!(!q.try_push(vec![2]));
    assert_eq!(q.len(), 1);
    assert_eq!(q.pop(), Some(vec![1]));
    assert_eq!(q.pop(), None);
}

#[test]
fn requeued_remainder_comes_out_first() {
    // A partial send: the head chunk comes off, part of it is sent, and the
    // rest goes back to the head; no byte is lost or reordered.
    let mut q = ChunkQueue::new(10);
    q.try_push(b"abcd".to_vec());
    q.try_push(b"ef".to_vec());
    let head = q.pop().unwrap();
    let sent = 2; // only "ab" went out
    let rest = split_sent(head, sent).unwrap();
    q.requeue_front(rest);
    let mut out = Vec::new();
    while let Some(chunk) = q.pop() {
        out.extend_from_slice(&chunk);
    }
    assert_eq!(out, b"cdef");
}

#[test]
fn split_sent_returns_exact_remainder() {
    assert_eq!(split_sent(vec![1, 2, 3, 4], 2), Some(vec![3, 4]));
    assert_eq!(split_sent(vec![1, 2, 3, 4], 0), Some(vec![1, 2, 3, 4]));
    assert_eq!(split_sent(vec![1, 2, 3, 4], 4), None);
    assert_eq!(split_sent(Vec::new(), 0), None);
}

#[test]
fn device_queues_are_fifo() {
    let mut dev = VirtualIpDevice::new(1420, 4);
    assert!(dev.deliver(vec![1, 1]));
    assert!(dev.deliver(vec![2, 2]));
    assert_eq!(dev.receive(), Some(vec![1, 1]));
    assert_eq!(dev.receive(), Some(vec![2, 2]));
    assert_eq!(dev.receive(), None);
    assert!(dev.transmit(vec![3]));
    assert!(dev.transmit(vec![4]));
    assert_eq!(dev.take_outbound(), Some(vec![3]));
    assert_eq!(dev.take_outbound(), Some(vec![4]));
    assert_eq!(dev.take_outbound(), None);
}

#[test]
fn transmit_overflow_drops_and_counts() {
    let mut dev = VirtualIpDevice::new(1420, 1);
    assert!(dev.transmit(vec![1]));
    assert!(!dev.transmit(vec![2]));
    assert_eq!(dev.dropped_count(), 1);
    // The queued frame is intact; the overflowing one is gone.
    assert_eq!(dev.take_outbound(), Some(vec![1]));
    assert_eq!(dev.take_outbound(), None);
}

#[test]
fn deliver_overflow_is_silent() {
    let mut dev = VirtualIpDevice::new(1420, 1);
    assert!(dev.deliver(vec![1]));
    assert!(!dev.deliver(vec![2]));
    assert_eq!(dev.dropped_count(), 0);
    assert_eq!(dev.receive(), Some(vec![1]));
    assert_eq!(dev.receive(), None);
}

#[test]
fn bridge_forwards_data_and_stops_on_fin() {
    match read_action(ReadEvent::Data(b"hello".to_vec())) {
        BridgeAction::Forward(data) => assert_eq!(data, b"hello"),
        _ => panic!("data must be forwarded"),
    }
    assert!(matches!(read_action(ReadEvent::WouldBlock), BridgeAction::Continue));
    assert!(matches!(read_action(ReadEvent::Closed), BridgeAction::Stop));
}

#[test]
fn bridge_stops_on_socket_error() {
    // An abrupt client drop (for instance an RST) surfaces as a read or
    // write error, and the bridge stops at once.
    assert!(matches!(read_action(ReadEvent::Failed), BridgeAction::Stop));
    assert!(matches!(write_action(WriteEvent::Failed, false), BridgeAction::Stop));
    assert!(matches!(write_action(WriteEvent::Failed, true), BridgeAction::Stop));
}

#[test]
fn bridge_write_retries_unless_aborted() {
    assert!(matches!(write_action(WriteEvent::Wrote(5), false), BridgeAction::Continue));
    assert!(matches!(write_action(WriteEvent::WouldBlock, false), BridgeAction::Continue));
    assert!(matches!(write_action(WriteEvent::WouldBlock, true), BridgeAction::Stop));
}

#[test]
fn bridge_writes_chunks_and_stops_on_disconnect() {
    match chunk_action(Some(b"hi".to_vec())) {
        BridgeAction::Write(data) => assert_eq!(data, b"hi"),
        _ => panic!("a chunk must be written"),
    }
    assert!(matches!(chunk_action(None), BridgeAction::Stop));
}

#[test]
fn backpressure_gates_receiving() {
    assert!(should_recv(true, true));
    assert!(!should_recv(true, false));
    assert!(!should_recv(false, true));
    assert!(!should_recv(false, false));
}

#[test]
fn poll_wait_follows_stack_advice() {
    assert_eq!(poll_wait_millis(None), 1);
    assert_eq!(poll_wait_millis(Some(0)), 0);
    assert_eq!(poll_wait_millis(Some(7)), 7);
}

#[test]
fn sink_cadence() {
    assert_eq!(sink_wait_millis(PollOutcome::Processed), 1);
    assert_eq!(sink_wait_millis(PollOutcome::Idle), 5);
    assert_eq!(sink_wait_millis(PollOutcome::Failed), 0);
}

#[test]
fn lifecycle_registers_exactly_while_running() {
    let mut conn = Lifecycle::new();
    assert!(!conn.registered);
    assert!(!conn.is_running());
    conn.step(LifecycleEvent::Registered);
    assert!(conn.registered);
    assert!(conn.is_running());
    conn.step(LifecycleEvent::PollExited);
    assert!(!conn.registered);
    assert!(!conn.is_running());
}

#[test]
fn failed_registration_never_runs() {
    let mut conn = Lifecycle::new();
    conn.step(LifecycleEvent::RegisterFailed);
    assert!(!conn.registered);
    assert!(!conn.is_running());
    // A late poll-exit event changes nothing.
    conn.step(LifecycleEvent::PollExited);
    assert!(!conn.registered);
}
