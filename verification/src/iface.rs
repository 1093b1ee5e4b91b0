//! Per-iteration decisions of the virtual interface and sink loops, and the
//! lifecycle that ties a connection's registration to its poll loop.
//!
//! The poll loop itself drives the TCP/IP stack and sleeps, so it runs
//! outside the library; everything it decides per iteration is here: whether
//! to receive from the virtual socket (backpressure), how to requeue the
//! unsent remainder of a partial send, and how long to suspend after a poll.

use vstd::prelude::*;

verus! {

/// What one poll of a TCP/IP stack did.
#[derive(Clone, Copy, PartialEq, Eq, Structural, Debug)]
pub enum PollOutcome {
    /// The poll processed at least one packet.
    Processed,
    /// The poll found nothing to do.
    Idle,
    /// The poll reported a stack-internal error; the loop logs and goes on.
    Failed,
}

/// Backpressure rule of the interface loop: bytes are taken off the virtual
/// socket only when the socket has them and the queue to the real client has
/// room; otherwise they stay in the socket buffer and TCP holds the peer off.
pub fn should_recv(can_recv: bool, queue_has_room: bool) -> (b: bool)
    ensures
        b == (can_recv && queue_has_room),
{
    can_recv && queue_has_room
}

/// The unsent remainder of a partially sent chunk: what `send_slice` did not
/// take, to be requeued at the head. `None` exactly when everything was sent.
pub fn split_sent(chunk: Vec<u8>, sent: usize) -> (rest: Option<Vec<u8>>)
    requires
        sent <= chunk@.len(),
    ensures
        rest is None <==> sent == chunk@.len(),
        rest matches Some(r) ==> r@ == chunk@.subrange(sent as int, chunk@.len() as int),
{
    if sent == chunk.len() {
        None
    } else {
        let mut rest: Vec<u8> = Vec::new();
        let mut i: usize = sent;
        let n = chunk.len();
        while i < n
            invariant
                sent <= i <= n,
                n == chunk@.len(),
                rest@ == chunk@.subrange(sent as int, i as int),
            decreases n - i,
        {
            let b = chunk[i];
            rest.push(b);
            proof {
                assert(rest@ =~= chunk@.subrange(sent as int, i + 1));
            }
            i = i + 1;
        }
        Some(rest)
    }
}

/// How long the interface loop suspends after a poll, from the stack's own
/// `poll_delay` advice: no advice means a 1 ms nap; advice of `k`
/// milliseconds (zero included) is followed exactly.
pub fn poll_wait_millis(advice: Option<u64>) -> (ms: u64)
    ensures
        advice is None ==> ms == 1,
        advice matches Some(k) ==> ms == k,
{
    match advice {
        None => 1,
        Some(k) => k,
    }
}

/// The sink's cadence: poll again at once after an error, after 1 ms when the
/// last poll did work, after 5 ms when it was idle.
pub fn sink_wait_millis(outcome: PollOutcome) -> (ms: u64)
    ensures
        outcome is Processed ==> ms == 1,
        outcome is Idle ==> ms == 5,
        outcome is Failed ==> ms == 0,
{
    match outcome {
        PollOutcome::Processed => 1,
        PollOutcome::Idle => 5,
        PollOutcome::Failed => 0,
    }
}

/// Where a connection's virtual interface stands.
#[derive(Clone, Copy, PartialEq, Eq, Structural, Debug)]
pub enum LifecyclePhase {
    /// Spawned; the device is not yet registered with the tunnel.
    Starting,
    /// Registered and polling.
    Running,
    /// The poll loop has exited and the registration is released.
    Closed,
}

/// What happens to a connection's virtual interface.
#[derive(Clone, Copy, PartialEq, Eq, Structural, Debug)]
pub enum LifecycleEvent {
    /// The device was registered with the tunnel; the poll loop starts.
    Registered,
    /// Registration failed (port conflict); the interface never runs.
    RegisterFailed,
    /// The poll loop saw the abort flag, or ended, and released the
    /// registration.
    PollExited,
}

/// A connection's lifecycle: its phase, and whether its virtual port holds a
/// live registration with the tunnel.
#[derive(Clone, Copy, PartialEq, Eq, Structural, Debug)]
pub struct Lifecycle {
    pub phase: LifecyclePhase,
    pub registered: bool,
}

/// The transition relation of the lifecycle.
pub open spec fn spec_lifecycle_step(s: Lifecycle, ev: LifecycleEvent) -> Lifecycle {
    match (s.phase, ev) {
        (LifecyclePhase::Starting, LifecycleEvent::Registered) => (Lifecycle {
            phase: LifecyclePhase::Running,
            registered: true,
        }),
        (LifecyclePhase::Starting, LifecycleEvent::RegisterFailed) => (Lifecycle {
            phase: LifecyclePhase::Closed,
            registered: false,
        }),
        (LifecyclePhase::Running, LifecycleEvent::PollExited) => (Lifecycle {
            phase: LifecyclePhase::Closed,
            registered: false,
        }),
        _ => s,
    }
}

impl Lifecycle {
    /// The lifecycle law: the virtual port is registered with the tunnel
    /// exactly while the poll loop runs.
    pub open spec fn inv(self) -> bool {
        self.registered <==> self.phase is Running
    }

    /// A connection that was just accepted: not yet registered, not yet
    /// polling.
    pub fn new() -> (s: Self)
        ensures
            s.phase == LifecyclePhase::Starting,
            !s.registered,
            s.inv(),
    {
        Lifecycle { phase: LifecyclePhase::Starting, registered: false }
    }

    /// Advances the lifecycle by one event.
    pub fn step(&mut self, ev: LifecycleEvent)
        requires
            old(self).inv(),
        ensures
            *final(self) == spec_lifecycle_step(*old(self), ev),
            final(self).inv(),
    {
        match (self.phase, ev) {
            (LifecyclePhase::Starting, LifecycleEvent::Registered) => {
                self.phase = LifecyclePhase::Running;
                self.registered = true;
            },
            (LifecyclePhase::Starting, LifecycleEvent::RegisterFailed) => {
                self.phase = LifecyclePhase::Closed;
                self.registered = false;
            },
            (LifecyclePhase::Running, LifecycleEvent::PollExited) => {
                self.phase = LifecyclePhase::Closed;
                self.registered = false;
            },
            _ => {},
        }
    }

    /// Whether the poll loop is running.
    pub fn is_running(&self) -> (b: bool)
        ensures
            b == (self.phase is Running),
    {
        matches!(self.phase, LifecyclePhase::Running)
    }
}

/// Law: a virtual port is registered with the tunnel if and only if its
/// interface's poll loop has started and not yet exited. The invariant holds
/// of a fresh connection and is preserved by every event, in any order, so it
/// holds at every instant of a connection's life.
pub proof fn lemma_registered_iff_running(s: Lifecycle, ev: LifecycleEvent)
    requires
        s.inv(),
    ensures
        spec_lifecycle_step(s, ev).inv(),
{
}

} // verus!
