//! The transfer queue between capture and visualization.
//!
//! The capture callback sends each chunk into a FIFO queue; the render
//! loop drains everything that is pending, without blocking, once per
//! tick. Sending never drops or reorders a chunk, and a drain hands the
//! pending chunks out in arrival order, leaving the queue empty.
//!
//! The module also carries a small model of queue histories: a history is
//! a sequence of send and drain operations, and whatever order sends and
//! drains interleave in, the chunks delivered so far followed by the
//! chunks still pending are exactly the chunks sent, in order.

use vstd::prelude::*;

verus! {

/// FIFO queue of audio chunks, drained wholesale by the consumer.
pub struct TransferQueue {
    pending: Vec<Vec<i32>>,
}

impl View for TransferQueue {
    type V = Seq<Seq<i32>>;

    /// The chunks currently pending, oldest first.
    closed spec fn view(&self) -> Seq<Seq<i32>> {
        self.pending.deep_view()
    }
}

impl TransferQueue {
    /// A fresh queue holds nothing.
    pub fn new() -> (q: Self)
        ensures
            q@ == Seq::<Seq<i32>>::empty(),
    {
        let q = TransferQueue { pending: Vec::new() };
        proof {
            assert(q@ =~~= Seq::<Seq<i32>>::empty());
        }
        q
    }

    /// Number of chunks currently pending.
    pub fn len(&self) -> (n: usize)
        ensures
            n == self@.len(),
    {
        self.pending.len()
    }

    /// Enqueues one chunk behind everything already pending. Nothing is
    /// dropped and nothing already queued moves.
    pub fn send(&mut self, chunk: Vec<i32>)
        ensures
            final(self)@ == old(self)@.push(chunk@),
    {
        let ghost before = self@;
        self.pending.push(chunk);
        proof {
            assert(self@ =~~= before.push(chunk@));
        }
    }

    /// Drains every pending chunk, in the order it was sent, leaving the
    /// queue empty.
    pub fn try_receive_all(&mut self) -> (chunks: Vec<Vec<i32>>)
        ensures
            chunks.deep_view() == old(self)@,
            final(self)@ == Seq::<Seq<i32>>::empty(),
    {
        let mut chunks: Vec<Vec<i32>> = Vec::new();
        core::mem::swap(&mut chunks, &mut self.pending);
        proof {
            assert(self@ =~~= Seq::<Seq<i32>>::empty());
        }
        chunks
    }
}

/// One operation in the life of a transfer queue: the producer sends a
/// chunk, or the consumer drains everything pending.
pub enum QueueOp {
    Send(Seq<i32>),
    Drain,
}

/// The chunks sent over a whole history, in order.
pub open spec fn sends_of(ops: Seq<QueueOp>) -> Seq<Seq<i32>>
    decreases ops.len(),
{
    if ops.len() == 0 {
        Seq::empty()
    } else {
        match ops.last() {
            QueueOp::Send(c) => sends_of(ops.drop_last()).push(c),
            QueueOp::Drain => sends_of(ops.drop_last()),
        }
    }
}

/// The chunks still pending after a history that started from an empty
/// queue.
pub open spec fn pending_after(ops: Seq<QueueOp>) -> Seq<Seq<i32>>
    decreases ops.len(),
{
    if ops.len() == 0 {
        Seq::empty()
    } else {
        match ops.last() {
            QueueOp::Send(c) => pending_after(ops.drop_last()).push(c),
            QueueOp::Drain => Seq::empty(),
        }
    }
}

/// The chunks the drains of a history have delivered, in delivery order.
pub open spec fn delivered_after(ops: Seq<QueueOp>) -> Seq<Seq<i32>>
    decreases ops.len(),
{
    if ops.len() == 0 {
        Seq::empty()
    } else {
        match ops.last() {
            QueueOp::Send(_) => delivered_after(ops.drop_last()),
            QueueOp::Drain => delivered_after(ops.drop_last()) + pending_after(ops.drop_last()),
        }
    }
}

/// Whatever order sends and drains interleave in, the queue loses and
/// reorders nothing: the chunks delivered so far, followed by the chunks
/// still pending, are exactly the chunks sent, in order.
pub proof fn lemma_fifo_no_loss(ops: Seq<QueueOp>)
    ensures
        delivered_after(ops) + pending_after(ops) == sends_of(ops),
    decreases ops.len(),
{
    if ops.len() == 0 {
        assert(delivered_after(ops) + pending_after(ops) =~= sends_of(ops));
    } else {
        let front = ops.drop_last();
        lemma_fifo_no_loss(front);
        match ops.last() {
            QueueOp::Send(c) => {
                assert(delivered_after(ops) + pending_after(ops) =~= (delivered_after(front)
                    + pending_after(front)).push(c));
            },
            QueueOp::Drain => {
                assert(delivered_after(ops) + pending_after(ops) =~= delivered_after(front)
                    + pending_after(front));
            },
        }
    }
}

} // verus!
