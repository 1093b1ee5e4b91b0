//! Verified core of a userspace TCP-over-WireGuard port forwarder.
//!
//! The crate models and verifies the packet-plane logic: the pool of virtual
//! ports used to demultiplex tunnel traffic, the tunnel's routing table and
//! its classification of decapsulated IPv4/TCP frames, the bounded packet
//! queues of the in-memory network device, the byte-chunk queues that carry
//! application data between the real socket and the virtual socket, and the
//! per-iteration decisions of the bridge, interface and sink loops. The
//! asynchronous shell (real sockets, the TCP/IP stack, the tunnel session)
//! drives these functions and performs the I/O they decide on.

use vstd::prelude::*;

pub mod bridge;
pub mod chunks;
pub mod device;
pub mod iface;
pub mod packet;
pub mod port_pool;
pub mod router;

verus! {

/// Smallest port number the pool hands out.
pub const MIN_PORT: u16 = 1000;

/// One past the largest port number the pool hands out.
pub const MAX_PORT: u16 = 60999;

/// Largest TCP segment read from or written to a real socket in one call.
pub const MAX_PACKET: usize = 65536;

/// Capacity, in chunks, of each per-connection byte-chunk queue.
pub const CHANNEL_CAPACITY: usize = 1000;

/// Default maximum IP frame size accepted by the tunnel.
pub const DEFAULT_MTU: usize = 1420;

} // verus!
