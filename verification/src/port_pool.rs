//! The pool of virtual ports.
//!
//! Each accepted connection takes one port from the pool; the port is the
//! local port of the connection's virtual client socket and the key under
//! which return traffic is routed back to it. The pool is a shuffled queue
//! of free ports plus the set of taken ports; taking and releasing keep the
//! two disjoint and their union constant.

use vstd::prelude::*;
use std::collections::{HashSet, VecDeque};
use rand::seq::SliceRandom;

verus! {

use crate::{MIN_PORT, MAX_PORT};

broadcast use vstd::std_specs::hash::group_hash_axioms,
    vstd::std_specs::vecdeque::group_vec_dequeue_axioms,
    vstd::seq_lib::group_to_multiset_ensures;

/// Error returned by `next` when every port is taken.
#[derive(Clone, Copy, PartialEq, Eq, Structural, Debug)]
pub enum PortPoolError {
    Exhausted,
}

/// True of the port numbers the pool may manage.
pub open spec fn port_in_range(p: u16) -> bool {
    MIN_PORT <= p < MAX_PORT
}

/// The full range of ports a freshly built pool manages.
pub open spec fn full_port_range() -> Set<u16> {
    Set::new(|p: u16| port_in_range(p))
}

/// Relies on rand's `SliceRandom::shuffle` (a Fisher-Yates shuffle made of
/// in-place swaps driven by `thread_rng`): it permutes the slice, so whatever
/// order comes out, the multiset of elements is unchanged.
#[verifier::external_body]
fn shuffle_ports(v: &mut Vec<u16>)
    ensures
        final(v)@.to_multiset() == old(v)@.to_multiset(),
{
    v.shuffle(&mut rand::thread_rng());
}

/// A pool of virtual ports available for TCP connections.
pub struct TcpPortPool {
    queue: VecDeque<u16>,
    taken: HashSet<u16>,
}

impl TcpPortPool {
    /// The free ports, in the order they will be handed out.
    pub closed spec fn avail(self) -> Seq<u16> {
        self.queue@
    }

    /// The ports currently handed out.
    pub closed spec fn taken(self) -> Set<u16> {
        self.taken@
    }

    /// Every port the pool manages, free or taken.
    pub open spec fn universe(self) -> Set<u16> {
        self.avail().to_set().union(self.taken())
    }

    /// The pool's invariant: free ports are distinct, all managed ports are
    /// in range, and no port is both free and taken.
    pub open spec fn wf(self) -> bool {
        &&& self.avail().no_duplicates()
        &&& forall|i: int|
            0 <= i < self.avail().len() ==> port_in_range(#[trigger] self.avail()[i])
        &&& self.taken().finite()
        &&& forall|p: u16| self.taken().contains(p) ==> port_in_range(p)
        &&& forall|i: int|
            0 <= i < self.avail().len() ==> !self.taken().contains(#[trigger] self.avail()[i])
    }

    /// Initializes a pool over the whole port range, in a shuffled order.
    pub fn new() -> (pool: Self)
        ensures
            pool.wf(),
            pool.taken() == Set::<u16>::empty(),
            pool.universe() =~= full_port_range(),
            pool.avail().len() == MAX_PORT - MIN_PORT,
    {
        let mut ports: Vec<u16> = Vec::new();
        let mut p: u16 = MIN_PORT;
        while p < MAX_PORT
            invariant
                MIN_PORT <= p <= MAX_PORT,
                ports@.len() == p - MIN_PORT,
                forall|i: int| 0 <= i < ports@.len() ==> #[trigger] ports@[i] == MIN_PORT + i,
            decreases MAX_PORT - p,
        {
            ports.push(p);
            p = p + 1;
        }
        let ghost linear = ports@;
        proof {
            assert(linear.no_duplicates());
            linear.lemma_multiset_has_no_duplicates();
        }
        shuffle_ports(&mut ports);
        proof {
            assert(ports@.len() == ports@.to_multiset().len());
            assert(linear.len() == linear.to_multiset().len());
            assert forall|x: u16| ports@.contains(x) <==> linear.contains(x) by {
                assert(ports@.contains(x) <==> ports@.to_multiset().count(x) > 0);
                assert(linear.contains(x) <==> linear.to_multiset().count(x) > 0);
            }
            assert forall|x: u16| ports@.to_multiset().contains(x)
                implies ports@.to_multiset().count(x) == 1 by {
                assert(linear.to_multiset().contains(x));
            }
            ports@.lemma_multiset_has_no_duplicates_conv();
            assert forall|x: u16| linear.contains(x) implies port_in_range(x) by {
                let i = choose|i: int| 0 <= i < linear.len() && linear[i] == x;
                assert(linear[i] == MIN_PORT + i);
            }
            assert forall|x: u16| port_in_range(x) implies linear.contains(x) by {
                let i: int = x - MIN_PORT;
                assert(linear[i] == MIN_PORT + i);
            }
        }
        let mut queue: VecDeque<u16> = VecDeque::new();
        let n = ports.len();
        let mut i: usize = 0;
        while i < n
            invariant
                i <= n,
                n == ports@.len(),
                queue@ == ports@.subrange(0, i as int),
            decreases n - i,
        {
            let port = ports[i];
            queue.push_back(port);
            proof {
                assert(queue@ =~= ports@.subrange(0, i + 1));
            }
            i = i + 1;
        }
        proof {
            assert(queue@ =~= ports@);
        }
        let taken: HashSet<u16> = HashSet::new();
        let pool = TcpPortPool { queue, taken };
        proof {
            assert(pool.avail() == ports@);
            assert forall|q: u16| pool.universe().contains(q) <==> port_in_range(q) by {
                assert(pool.avail().to_set().contains(q) <==> pool.avail().contains(q));
            }
        }
        pool
    }

    /// Builds a pool whose free ports are exactly the given ones, in the
    /// given order; lets a deployment bound how many connections run at once.
    pub fn from_ports(ports: Vec<u16>) -> (pool: Self)
        requires
            ports@.no_duplicates(),
            forall|i: int| 0 <= i < ports@.len() ==> port_in_range(#[trigger] ports@[i]),
        ensures
            pool.wf(),
            pool.avail() == ports@,
            pool.taken() == Set::<u16>::empty(),
    {
        let mut queue: VecDeque<u16> = VecDeque::new();
        let n = ports.len();
        let mut i: usize = 0;
        while i < n
            invariant
                i <= n,
                n == ports@.len(),
                queue@ == ports@.subrange(0, i as int),
            decreases n - i,
        {
            let port = ports[i];
            queue.push_back(port);
            proof {
                assert(queue@ =~= ports@.subrange(0, i + 1));
            }
            i = i + 1;
        }
        proof {
            assert(queue@ =~= ports@);
        }
        let taken: HashSet<u16> = HashSet::new();
        TcpPortPool { queue, taken }
    }

    /// How many ports are still free.
    pub fn available_count(&self) -> (n: usize)
        ensures
            n == self.avail().len(),
    {
        self.queue.len()
    }

    /// Requests a free port. Succeeds exactly when one is free: the head of
    /// the queue moves to the taken set. The managed set never changes.
    pub fn next(&mut self) -> (r: Result<u16, PortPoolError>)
        requires
            old(self).wf(),
        ensures
            final(self).wf(),
            r is Ok <==> old(self).avail().len() > 0,
            r matches Ok(p) ==> {
                &&& p == old(self).avail()[0]
                &&& port_in_range(p)
                &&& !old(self).taken().contains(p)
                &&& final(self).avail() == old(self).avail().subrange(
                    1,
                    old(self).avail().len() as int,
                )
                &&& final(self).taken() == old(self).taken().insert(p)
            },
            r is Err ==> final(self).avail() == old(self).avail() && final(self).taken() == old(
                self,
            ).taken(),
            final(self).universe() =~= old(self).universe(),
    {
        match self.queue.pop_front() {
            Some(port) => {
                self.taken.insert(port);
                proof {
                    assert forall|i: int|
                        0 <= i < self.avail().len()
                        implies !self.taken().contains(#[trigger] self.avail()[i]) by {
                        assert(self.avail()[i] == old(self).avail()[i + 1]);
                    }
                    assert forall|i: int|
                        0 <= i < self.avail().len()
                        implies port_in_range(#[trigger] self.avail()[i]) by {
                        assert(self.avail()[i] == old(self).avail()[i + 1]);
                    }
                    assert(self.avail().no_duplicates());
                    assert(self.universe() =~= old(self).universe()) by {
                        assert forall|q: u16|
                            old(self).avail().to_set().contains(q) <==> old(self).avail().contains(
                                q,
                            ) by {}
                        assert forall|q: u16|
                            self.avail().to_set().contains(q) <==> self.avail().contains(q) by {}
                        assert forall|q: u16| old(self).avail().contains(q) && q != port
                            implies self.avail().contains(q) by {
                            let i = choose|i: int|
                                0 <= i < old(self).avail().len() && old(self).avail()[i] == q;
                            assert(self.avail()[i - 1] == q);
                        }
                        assert forall|q: u16| self.avail().contains(q)
                            implies old(self).avail().contains(q) by {
                            let i = choose|i: int|
                                0 <= i < self.avail().len() && self.avail()[i] == q;
                            assert(old(self).avail()[i + 1] == q);
                        }
                        assert(old(self).avail().contains(port));
                    }
                }
                Ok(port)
            },
            None => Err(PortPoolError::Exhausted),
        }
    }

    /// Releases a taken port: it leaves the taken set and rejoins the tail of
    /// the queue. Releasing a port that is not taken is a no-op. The managed
    /// set never changes.
    pub fn release(&mut self, port: u16)
        requires
            old(self).wf(),
        ensures
            final(self).wf(),
            old(self).taken().contains(port) ==> {
                &&& final(self).avail() == old(self).avail().push(port)
                &&& final(self).taken() == old(self).taken().remove(port)
            },
            !old(self).taken().contains(port) ==> final(self).avail() == old(self).avail()
                && final(self).taken() == old(self).taken(),
            final(self).universe() =~= old(self).universe(),
    {
        if self.taken.contains(&port) {
            self.taken.remove(&port);
            self.queue.push_back(port);
            proof {
                assert forall|i: int|
                    0 <= i < self.avail().len()
                    implies port_in_range(#[trigger] self.avail()[i])
                        && !self.taken().contains(self.avail()[i]) by {
                    if i < old(self).avail().len() {
                        assert(self.avail()[i] == old(self).avail()[i]);
                    } else {
                        assert(self.avail()[i] == port);
                    }
                }
                assert(self.avail().no_duplicates()) by {
                    assert forall|i: int, j: int|
                        0 <= i < j < self.avail().len()
                        implies self.avail()[i] != self.avail()[j] by {
                        if j == self.avail().len() - 1 {
                            assert(self.avail()[j] == port);
                            assert(self.avail()[i] == old(self).avail()[i]);
                            assert(!old(self).taken().contains(old(self).avail()[i]));
                        }
                    }
                }
                assert(self.universe() =~= old(self).universe()) by {
                    assert forall|q: u16|
                        self.avail().to_set().contains(q) <==> self.avail().contains(q) by {}
                    assert forall|q: u16|
                        old(self).avail().to_set().contains(q) <==> old(self).avail().contains(
                            q,
                        ) by {}
                    assert forall|q: u16| old(self).avail().contains(q)
                        implies self.avail().contains(q) by {
                        let i = choose|i: int|
                            0 <= i < old(self).avail().len() && old(self).avail()[i] == q;
                        assert(self.avail()[i] == q);
                    }
                    assert forall|q: u16| self.avail().contains(q) && q != port
                        implies old(self).avail().contains(q) by {
                        let i = choose|i: int|
                            0 <= i < self.avail().len() && self.avail()[i] == q;
                        assert(old(self).avail()[i] == q);
                    }
                    assert(self.avail().contains(port)) by {
                        assert(self.avail()[self.avail().len() - 1] == port);
                    }
                }
            }
        }
    }
}

impl Default for TcpPortPool {
    /// A fresh pool over the whole port range.
    fn default() -> (pool: Self)
        ensures
            pool.wf(),
            pool.taken() == Set::<u16>::empty(),
            pool.universe() =~= full_port_range(),
    {
        Self::new()
    }
}

/// Law: a successful `next` followed by the matching `release` restores the
/// pool as a set: the taken set returns to what it was, and the free ports,
/// as a set, return to what they were. Since `next` and `release` also keep
/// the managed set (`universe`) unchanged, an equal number of `next`/`release`
/// pairs, in any interleaving, leaves the pool state equal to the initial
/// state as a set.
pub proof fn lemma_next_release_restores(
    pre: TcpPortPool,
    mid: TcpPortPool,
    post: TcpPortPool,
    p: u16,
)
    requires
        pre.wf(),
        pre.avail().len() > 0,
        p == pre.avail()[0],
        mid.avail() == pre.avail().subrange(1, pre.avail().len() as int),
        mid.taken() == pre.taken().insert(p),
        post.avail() == mid.avail().push(p),
        post.taken() == mid.taken().remove(p),
    ensures
        post.taken() =~= pre.taken(),
        post.avail().to_set() =~= pre.avail().to_set(),
{
    assert(!pre.taken().contains(p));
    assert(post.taken() =~= pre.taken());
    assert forall|q: u16| pre.avail().contains(q) implies post.avail().contains(q) by {
        let i = choose|i: int| 0 <= i < pre.avail().len() && pre.avail()[i] == q;
        if i == 0 {
            assert(post.avail()[post.avail().len() - 1] == p);
        } else {
            assert(post.avail()[i - 1] == q);
        }
    }
    assert forall|q: u16| post.avail().contains(q) implies pre.avail().contains(q) by {
        let i = choose|i: int| 0 <= i < post.avail().len() && post.avail()[i] == q;
        if i == post.avail().len() - 1 {
            assert(pre.avail()[0] == q);
        } else {
            assert(pre.avail()[i + 1] == q);
        }
    }
    assert forall|q: u16|
        pre.avail().to_set().contains(q) <==> pre.avail().contains(q) by {}
    assert forall|q: u16|
        post.avail().to_set().contains(q) <==> post.avail().contains(q) by {}
}

} // verus!
