//! The virtual IP device: the in-memory "NIC" a connection's TCP/IP stack is
//! bound to.
//!
//! It is a pair of bounded frame queues. The stack transmits by queueing an
//! outbound frame for the tunnel and receives by taking the oldest inbound
//! frame the tunnel has delivered. On a full outbound queue the frame is
//! dropped and a warning counter stepped (TCP retransmits; dropping is safer
//! than blocking the stack); on a full inbound queue the tunnel drops the
//! frame silently, like any network drop.

use vstd::prelude::*;

verus! {

use crate::chunks::ChunkQueue;

/// The in-memory network device of one virtual interface.
pub struct VirtualIpDevice {
    inbound: ChunkQueue,
    outbound: ChunkQueue,
    mtu: usize,
    dropped: u64,
}

impl VirtualIpDevice {
    /// Frames delivered by the tunnel, not yet read by the stack.
    pub closed spec fn inbound(self) -> Seq<Seq<u8>> {
        self.inbound.chunks()
    }

    /// Frames emitted by the stack, not yet consumed by the tunnel.
    pub closed spec fn outbound(self) -> Seq<Seq<u8>> {
        self.outbound.chunks()
    }

    /// The bound of each frame queue.
    pub closed spec fn capacity(self) -> usize {
        self.inbound.capacity()
    }

    /// The largest IP frame the device accepts.
    pub closed spec fn mtu_spec(self) -> usize {
        self.mtu
    }

    /// How many outbound frames were dropped for want of queue room.
    pub closed spec fn dropped_spec(self) -> u64 {
        self.dropped
    }

    pub closed spec fn wf(self) -> bool {
        &&& self.inbound.wf()
        &&& self.outbound.wf()
        &&& self.outbound.capacity() == self.inbound.capacity()
        &&& self.mtu >= 1
    }

    /// The device's fixed shape: no operation changes the queue bound or the
    /// MTU.
    pub open spec fn same_shape(self, other: Self) -> bool {
        &&& self.capacity() == other.capacity()
        &&& self.mtu_spec() == other.mtu_spec()
    }

    /// An empty device.
    pub fn new(mtu: usize, capacity: usize) -> (d: Self)
        requires
            mtu >= 1,
            capacity >= 1,
        ensures
            d.wf(),
            d.inbound() == Seq::<Seq<u8>>::empty(),
            d.outbound() == Seq::<Seq<u8>>::empty(),
            d.mtu_spec() == mtu,
            d.capacity() == capacity,
            d.dropped_spec() == 0,
    {
        VirtualIpDevice {
            inbound: ChunkQueue::new(capacity),
            outbound: ChunkQueue::new(capacity),
            mtu,
            dropped: 0,
        }
    }

    /// The device MTU, as the stack asks for it.
    pub fn mtu(&self) -> (m: usize)
        ensures
            m == self.mtu_spec(),
    {
        self.mtu
    }

    /// How many outbound frames have been dropped.
    pub fn dropped_count(&self) -> (n: u64)
        ensures
            n == self.dropped_spec(),
    {
        self.dropped
    }

    /// The stack transmits one frame of at most MTU bytes. If the outbound
    /// queue has room the frame is queued for the tunnel; otherwise it is
    /// dropped and the warning counter stepped.
    pub fn transmit(&mut self, frame: Vec<u8>) -> (queued: bool)
        requires
            old(self).wf(),
            frame@.len() <= old(self).mtu_spec(),
        ensures
            final(self).wf(),
            final(self).same_shape(*old(self)),
            final(self).inbound() == old(self).inbound(),
            queued <==> old(self).outbound().len() < old(self).capacity(),
            queued ==> final(self).outbound() == old(self).outbound().push(frame@)
                && final(self).dropped_spec() == old(self).dropped_spec(),
            !queued ==> final(self).outbound() == old(self).outbound()
                && final(self).dropped_spec() == (
            if old(self).dropped_spec() < u64::MAX {
                old(self).dropped_spec() + 1
            } else {
                old(self).dropped_spec() as int
            }),
    {
        let queued = self.outbound.try_push(frame);
        if !queued {
            if self.dropped < u64::MAX {
                self.dropped = self.dropped + 1;
            }
        }
        queued
    }

    /// The stack receives the oldest delivered frame, or `None` exactly when
    /// nothing is waiting.
    pub fn receive(&mut self) -> (r: Option<Vec<u8>>)
        requires
            old(self).wf(),
        ensures
            final(self).wf(),
            final(self).same_shape(*old(self)),
            final(self).outbound() == old(self).outbound(),
            final(self).dropped_spec() == old(self).dropped_spec(),
            r is None <==> old(self).inbound().len() == 0,
            r is None ==> final(self).inbound() == old(self).inbound(),
            r matches Some(frame) ==> {
                &&& frame@ == old(self).inbound()[0]
                &&& final(self).inbound() == old(self).inbound().drop_first()
            },
    {
        self.inbound.pop()
    }

    /// The tunnel delivers one decapsulated frame. If the inbound queue is
    /// full the frame is dropped silently, like any network drop.
    pub fn deliver(&mut self, frame: Vec<u8>) -> (delivered: bool)
        requires
            old(self).wf(),
        ensures
            final(self).wf(),
            final(self).same_shape(*old(self)),
            final(self).outbound() == old(self).outbound(),
            final(self).dropped_spec() == old(self).dropped_spec(),
            delivered <==> old(self).inbound().len() < old(self).capacity(),
            delivered ==> final(self).inbound() == old(self).inbound().push(frame@),
            !delivered ==> final(self).inbound() == old(self).inbound(),
    {
        self.inbound.try_push(frame)
    }

    /// The tunnel consumes the oldest frame the stack emitted, to encapsulate
    /// and send it; `None` exactly when nothing is waiting.
    pub fn take_outbound(&mut self) -> (r: Option<Vec<u8>>)
        requires
            old(self).wf(),
        ensures
            final(self).wf(),
            final(self).same_shape(*old(self)),
            final(self).inbound() == old(self).inbound(),
            final(self).dropped_spec() == old(self).dropped_spec(),
            r is None <==> old(self).outbound().len() == 0,
            r is None ==> final(self).outbound() == old(self).outbound(),
            r matches Some(frame) ==> {
                &&& frame@ == old(self).outbound()[0]
                &&& final(self).outbound() == old(self).outbound().drop_first()
            },
    {
        self.outbound.pop()
    }
}

} // verus!
