//! Whole byte streams through the verified data plane: the chunk queues and
//! the device queues that sit between the real socket and the tunnel.

use onetun::bridge::{chunk_action, read_action, BridgeAction, ReadEvent};
use onetun::chunks::ChunkQueue;
use onetun::device::VirtualIpDevice;
use onetun::iface::{Lifecycle, LifecycleEvent};
use onetun::port_pool::TcpPortPool;
use onetun::router::{Delivery, Router};

/// Deterministic pseudo-random bytes (a linear congruential generator).
fn pseudo_random_bytes(len: usize) -> Vec<u8> {
    let mut state: u64 = 0x0123_4567_89ab_cdef;
    let mut out = Vec::with_capacity(len);
    for _ in 0..len {
        state = state.wrapping_mul(6364136223846793005).wrapping_add(1442695040888963407);
        out.push((state >> 56) as u8);
    }
    out
}

fn checksum(bytes: &[u8]) -> u64 {
    let mut sum: u64 = 0;
    for &b in bytes {
        sum = sum.wrapping_mul(31).wrapping_add(b as u64);
    }
    sum
}

#[test]
fn echo_round_trip_releases_the_port() {
    // An in-memory echo: the client's bytes go out through one queue, the
    // "server" echoes them back through the other, and the bridge would
    // write them to the real socket; afterwards the port returns to the pool.
    let mut pool = TcpPortPool::new();
    let port = pool.next().unwrap();

    let mut to_server = ChunkQueue::new(1000);
    let mut to_client = ChunkQueue::new(1000);

    match read_action(ReadEvent::Data(b"hello".to_vec())) {
        BridgeAction::Forward(data) => assert!(to_server.try_push(data)),
        _ => panic!("client data must be forwarded"),
    }
    // The echo server: everything that arrives goes straight back.
    while let Some(chunk) = to_server.pop() {
        assert!(to_client.try_push(chunk));
    }
    match chunk_action(to_client.pop()) {
        BridgeAction::Write(data) => assert_eq!(data, b"hello"),
        _ => panic!("echoed data must be written back"),
    }

    // Close: the client's FIN stops the bridge, and the port is released.
    assert!(matches!(read_action(ReadEvent::Closed), BridgeAction::Stop));
    pool.release(port);
    assert_eq!(pool.available_count(), 59999);
}

#[test]
fn large_stream_crosses_in_order_and_without_loss() {
    // Sixteen mebibytes of deterministic pseudo-random bytes cross the
    // bounded queues in MTU-sized frames; the checksum must match.
    let input = pseudo_random_bytes(16 * 1024 * 1024);
    let expected = checksum(&input);
    let mtu = 1420;

    let mut queue = ChunkQueue::new(1000);
    let mut dev = VirtualIpDevice::new(mtu, 1000);
    let mut received = Vec::with_capacity(input.len());

    for frame in input.chunks(mtu) {
        // The bounded queues refuse when full; the producer defers, so
        // nothing is ever dropped here.
        if !queue.try_push(frame.to_vec()) {
            while let Some(chunk) = queue.pop() {
                assert!(dev.transmit(chunk));
                received.extend_from_slice(&dev.take_outbound().unwrap());
            }
            assert!(queue.try_push(frame.to_vec()));
        }
    }
    while let Some(chunk) = queue.pop() {
        assert!(dev.transmit(chunk));
        received.extend_from_slice(&dev.take_outbound().unwrap());
    }

    assert_eq!(received.len(), input.len());
    assert_eq!(checksum(&received), expected);
    assert_eq!(dev.dropped_count(), 0);
}

#[test]
fn abrupt_drop_tears_the_connection_down() {
    // An RST mid-stream surfaces as a failed read: the bridge stops, the
    // poll loop exits, the registration is released, and the port re-enters
    // the pool.
    let mut pool = TcpPortPool::new();
    let mut router = Router::new();
    let port = pool.next().unwrap();
    router.register(port).unwrap();
    let mut conn = Lifecycle::new();
    conn.step(LifecycleEvent::Registered);
    assert!(conn.is_running());

    assert!(matches!(read_action(ReadEvent::Failed), BridgeAction::Stop));
    conn.step(LifecycleEvent::PollExited);
    assert!(!conn.is_running());
    assert!(!conn.registered);
    router.release(port);
    pool.release(port);

    assert!(!router.is_registered(port));
    assert_eq!(pool.available_count(), 59999);
    // Return traffic for the dead port now goes to the sink.
    let header = 20;
    let mut frame = vec![0u8; header + 20];
    frame[0] = 0x45;
    frame[9] = 6;
    frame[header + 2] = (port >> 8) as u8;
    frame[header + 3] = (port & 0xff) as u8;
    assert_eq!(router.route(&frame), Delivery::Sink);
}
