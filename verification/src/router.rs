//! The tunnel's routing table.
//!
//! The tunnel keeps one registration per live virtual port; registration is
//! what makes return traffic routable to a connection's device. Every
//! decapsulated frame is delivered to exactly one place: the interface
//! registered under its inner TCP destination port, or the sink.

use vstd::prelude::*;
use std::collections::HashSet;

verus! {

use crate::packet::spec_classify;

broadcast use vstd::std_specs::hash::group_hash_axioms;

/// Error returned by `register` for a port that is already registered.
#[derive(Clone, Copy, PartialEq, Eq, Structural, Debug)]
pub enum RegisterError {
    Conflict,
}

/// Where the tunnel delivers one decapsulated frame.
#[derive(Clone, Copy, PartialEq, Eq, Structural, Debug)]
pub enum Delivery {
    /// The inbound queue of the interface registered under this port.
    Interface(u16),
    /// The catch-all sink interface.
    Sink,
}

/// The single destination of a frame, given the registered ports.
pub open spec fn spec_route(registered: Set<u16>, frame: Seq<u8>) -> Delivery {
    match spec_classify(frame) {
        Some(p) => if registered.contains(p) {
            Delivery::Interface(p)
        } else {
            Delivery::Sink
        },
        None => Delivery::Sink,
    }
}

/// The routing table: the set of virtual ports with a live registration.
pub struct Router {
    registered: HashSet<u16>,
}

impl Router {
    /// The ports with a live registration.
    pub closed spec fn registered(self) -> Set<u16> {
        self.registered@
    }

    /// An empty table: nothing is routable, everything goes to the sink.
    pub fn new() -> (r: Self)
        ensures
            r.registered() == Set::<u16>::empty(),
    {
        Router { registered: HashSet::new() }
    }

    /// Registers a port. Succeeds exactly when the port has no live
    /// registration; a duplicate registration fails and changes nothing.
    pub fn register(&mut self, port: u16) -> (r: Result<(), RegisterError>)
        ensures
            r is Ok <==> !old(self).registered().contains(port),
            r is Ok ==> final(self).registered() == old(self).registered().insert(port),
            r is Err ==> final(self).registered() == old(self).registered(),
    {
        if self.registered.contains(&port) {
            Err(RegisterError::Conflict)
        } else {
            self.registered.insert(port);
            Ok(())
        }
    }

    /// Removes a port's registration. Idempotent: releasing a port that has
    /// no registration leaves the table as it is.
    pub fn release(&mut self, port: u16)
        ensures
            final(self).registered() == old(self).registered().remove(port),
    {
        self.registered.remove(&port);
    }

    /// Whether return traffic for this port is routable.
    pub fn is_registered(&self, port: u16) -> (b: bool)
        ensures
            b == self.registered().contains(port),
    {
        self.registered.contains(&port)
    }

    /// Picks the one destination of a decapsulated frame: the interface
    /// registered under the frame's inner TCP destination port, or the sink.
    pub fn route(&self, frame: &Vec<u8>) -> (d: Delivery)
        ensures
            d == spec_route(self.registered(), frame@),
    {
        match crate::packet::classify(frame) {
            Some(port) => {
                if self.registered.contains(&port) {
                    Delivery::Interface(port)
                } else {
                    Delivery::Sink
                }
            },
            None => Delivery::Sink,
        }
    }
}

/// Law: releasing a registration is idempotent; a second release of the same
/// port changes nothing.
pub proof fn lemma_release_idempotent(registered: Set<u16>, port: u16)
    ensures
        registered.remove(port).remove(port) =~= registered.remove(port),
{
}

/// Law: every decapsulated frame has exactly one destination. A frame whose
/// inner TCP destination port has no live registration goes to the sink, as
/// does a frame that is not well-formed IPv4/TCP; no registered interface
/// ever observes either. An interface observes a frame only if the frame's
/// port is its own live registration.
pub proof fn lemma_stray_frame_goes_to_sink(registered: Set<u16>, frame: Seq<u8>)
    ensures
        spec_classify(frame) is None ==> spec_route(registered, frame) == Delivery::Sink,
        spec_classify(frame) matches Some(p) && !registered.contains(p) ==> spec_route(
            registered,
            frame,
        ) == Delivery::Sink,
        forall|p: u16|
            spec_route(registered, frame) == Delivery::Interface(p) ==> registered.contains(p)
                && spec_classify(frame) == Some(p),
{
}

} // verus!
