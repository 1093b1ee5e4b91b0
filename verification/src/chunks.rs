//! Bounded FIFO queues of byte chunks.
//!
//! Two such queues connect each bridge task to its virtual interface (one per
//! direction), and two more carry whole IP frames between a virtual device
//! and the tunnel. A queue is bounded; pushing into a full queue fails and
//! leaves it unchanged, so a producer can only drop or defer, never block the
//! consumer. The `stream` function gives the byte stream a queue holds, and
//! the laws below state that bytes cross a queue in order and without loss.

use vstd::prelude::*;
use std::collections::VecDeque;

verus! {

broadcast use vstd::std_specs::vecdeque::group_vec_dequeue_axioms;

/// The byte stream held by a sequence of chunks: the chunks concatenated in
/// queue order.
pub open spec fn stream(chunks: Seq<Seq<u8>>) -> Seq<u8>
    decreases chunks.len(),
{
    if chunks.len() == 0 {
        Seq::empty()
    } else {
        chunks[0] + stream(chunks.drop_first())
    }
}

/// Law: pushing a chunk appends its bytes to the stream, after every byte
/// already queued.
pub proof fn lemma_stream_push(chunks: Seq<Seq<u8>>, chunk: Seq<u8>)
    ensures
        stream(chunks.push(chunk)) == stream(chunks) + chunk,
    decreases chunks.len(),
{
    if chunks.len() == 0 {
        assert(chunks.push(chunk).drop_first() =~= chunks);
        assert(stream(chunks.push(chunk)) =~= stream(chunks) + chunk);
    } else {
        lemma_stream_push(chunks.drop_first(), chunk);
        assert(chunks.push(chunk).drop_first() =~= chunks.drop_first().push(chunk));
        assert(stream(chunks.push(chunk)) =~= stream(chunks) + chunk);
    }
}

/// Law: popping takes exactly the bytes of the head chunk, the oldest bytes
/// of the stream; what remains is the rest of the stream, unchanged.
pub proof fn lemma_stream_pop(chunks: Seq<Seq<u8>>)
    requires
        chunks.len() > 0,
    ensures
        stream(chunks) == chunks[0] + stream(chunks.drop_first()),
{
}

/// Law: a partial send loses no bytes and keeps their order. After the head
/// chunk is popped and only a prefix of it is sent, requeuing the remainder
/// at the head leaves the sent prefix followed by the queued stream equal to
/// the stream before the pop.
pub proof fn lemma_partial_send_preserves_stream(chunks: Seq<Seq<u8>>, chunk: Seq<u8>, sent: int)
    requires
        0 <= sent <= chunk.len(),
    ensures
        chunk.subrange(0, sent) + stream(
            (seq![chunk.subrange(sent, chunk.len() as int)] + chunks),
        ) == stream(seq![chunk] + chunks),
{
    let rest = chunk.subrange(sent, chunk.len() as int);
    let requeued = seq![rest] + chunks;
    assert(requeued.drop_first() =~= chunks);
    assert((seq![chunk] + chunks).drop_first() =~= chunks);
    assert(chunk.subrange(0, sent) + (rest + stream(chunks)) =~= chunk + stream(chunks));
}

/// A bounded FIFO queue of byte chunks.
pub struct ChunkQueue {
    chunks: VecDeque<Vec<u8>>,
    capacity: usize,
}

impl ChunkQueue {
    /// The queued chunks, oldest first.
    pub closed spec fn chunks(self) -> Seq<Seq<u8>> {
        self.chunks@.map_values(|v: Vec<u8>| v@)
    }

    /// The most chunks the queue will hold.
    pub closed spec fn capacity(self) -> usize {
        self.capacity
    }

    /// The byte stream the queue holds.
    pub open spec fn pending(self) -> Seq<u8> {
        stream(self.chunks())
    }

    pub open spec fn wf(self) -> bool {
        &&& self.chunks().len() <= self.capacity()
        &&& self.capacity() >= 1
    }

    /// An empty queue with the given bound.
    pub fn new(capacity: usize) -> (q: Self)
        requires
            capacity >= 1,
        ensures
            q.wf(),
            q.chunks() == Seq::<Seq<u8>>::empty(),
            q.capacity() == capacity,
    {
        let q = ChunkQueue { chunks: VecDeque::new(), capacity };
        proof {
            assert(q.chunks() =~= Seq::<Seq<u8>>::empty());
        }
        q
    }

    /// How many chunks are queued.
    pub fn len(&self) -> (n: usize)
        ensures
            n == self.chunks().len(),
    {
        self.chunks.len()
    }

    /// Whether a push would be refused.
    pub fn is_full(&self) -> (b: bool)
        ensures
            b == (self.chunks().len() >= self.capacity()),
    {
        self.chunks.len() >= self.capacity
    }

    /// Tries to queue a chunk at the tail. Succeeds exactly when the queue is
    /// not full; a refused chunk leaves the queue unchanged.
    pub fn try_push(&mut self, chunk: Vec<u8>) -> (accepted: bool)
        requires
            old(self).wf(),
        ensures
            final(self).wf(),
            final(self).capacity() == old(self).capacity(),
            accepted <==> old(self).chunks().len() < old(self).capacity(),
            accepted ==> final(self).chunks() == old(self).chunks().push(chunk@),
            accepted ==> final(self).pending() == old(self).pending() + chunk@,
            !accepted ==> final(self).chunks() == old(self).chunks(),
    {
        if self.chunks.len() < self.capacity {
            self.chunks.push_back(chunk);
            proof {
                assert(self.chunks() =~= old(self).chunks().push(chunk@));
                lemma_stream_push(old(self).chunks(), chunk@);
            }
            true
        } else {
            false
        }
    }

    /// Takes the oldest chunk, or `None` exactly when the queue is empty.
    pub fn pop(&mut self) -> (r: Option<Vec<u8>>)
        requires
            old(self).wf(),
        ensures
            final(self).wf(),
            final(self).capacity() == old(self).capacity(),
            r is None <==> old(self).chunks().len() == 0,
            r is None ==> final(self).chunks() == old(self).chunks(),
            r matches Some(chunk) ==> {
                &&& chunk@ == old(self).chunks()[0]
                &&& final(self).chunks() == old(self).chunks().drop_first()
                &&& old(self).pending() == chunk@ + final(self).pending()
            },
    {
        let r = self.chunks.pop_front();
        proof {
            if old(self).chunks().len() > 0 {
                assert(self.chunks() =~= old(self).chunks().drop_first());
            } else {
                assert(self.chunks() =~= old(self).chunks());
            }
        }
        r
    }

    /// Puts a chunk back at the head, ahead of everything queued; used to
    /// requeue the unsent remainder of a partially sent chunk. The caller
    /// has just popped, so there is room.
    pub fn requeue_front(&mut self, chunk: Vec<u8>)
        requires
            old(self).wf(),
            old(self).chunks().len() < old(self).capacity(),
        ensures
            final(self).wf(),
            final(self).capacity() == old(self).capacity(),
            final(self).chunks() == seq![chunk@] + old(self).chunks(),
            final(self).pending() == chunk@ + old(self).pending(),
    {
        self.chunks.push_front(chunk);
        proof {
            assert(self.chunks() =~= seq![chunk@] + old(self).chunks());
            assert((seq![chunk@] + old(self).chunks()).drop_first() =~= old(self).chunks());
        }
    }
}

} // verus!
