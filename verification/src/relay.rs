//! Bounded relay: the single-producer, single-consumer FIFO handoff of
//! normalized sample buffers between the capture side and the rendering
//! side.
//!
//! The relay holds at most [`RELAY_CAPACITY`] buffers.  A send on a full
//! relay changes nothing — the producer must wait, never drop or grow —
//! and a receive always takes the oldest buffer.  Closing the producer
//! side stops further enqueues; receives then drain what is queued and
//! report end-of-stream.
//!
//! The type below is the relay's state model: the transition functions
//! say exactly what each operation does to the queue, and the host shell
//! drives them from its real blocking channel, performing the waiting
//! itself.

use vstd::prelude::*;

verus! {

/// Fixed queue capacity: the relay never holds more than this many
/// buffers awaiting consumption.
pub const RELAY_CAPACITY: usize = 8;

/// What a send attempt did.  A refused send hands the buffer back, so
/// that a blocked producer can offer the same buffer again: nothing is
/// ever dropped.
pub enum SendOutcome {
    /// The buffer was enqueued at the back of the queue.
    Sent,
    /// The queue is at capacity: nothing changed, and the producer must
    /// wait for a receive before offering the returned buffer again.
    Full(Vec<i64>),
    /// The consumer side is gone: the returned buffer never enters the
    /// queue, and nothing ever will again.
    Closed(Vec<i64>),
}

/// What a receive attempt did.
pub enum RecvOutcome {
    /// The oldest queued buffer, removed from the queue.
    Received(Vec<i64>),
    /// Nothing queued yet, but the producer may still send: the consumer
    /// must wait.
    Empty,
    /// End of stream: nothing queued and the producer side is closed.
    Disconnected,
}

/// Whether a send is accepted in the given relay state.
pub open spec fn send_accepted(queue: Seq<Seq<i64>>, closed: bool) -> bool {
    !closed && queue.len() < RELAY_CAPACITY
}

/// The queue after a send attempt: the buffer goes to the back when the
/// send is accepted; a refused send leaves the queue untouched.
pub open spec fn send_next(queue: Seq<Seq<i64>>, closed: bool, buf: Seq<i64>) -> Seq<Seq<i64>> {
    if send_accepted(queue, closed) {
        queue.push(buf)
    } else {
        queue
    }
}

/// The queue after a receive attempt: the front leaves when anything is
/// queued; an empty queue stays empty.
pub open spec fn recv_next(queue: Seq<Seq<i64>>) -> Seq<Seq<i64>> {
    if queue.len() > 0 {
        queue.drop_first()
    } else {
        queue
    }
}

/// The queue after `n` receive attempts.
pub open spec fn recv_n(queue: Seq<Seq<i64>>, n: nat) -> Seq<Seq<i64>>
    decreases n,
{
    if n == 0 {
        queue
    } else {
        recv_n(recv_next(queue), (n - 1) as nat)
    }
}

/// The queue after a whole sequence of send attempts, oldest first.
pub open spec fn send_all(queue: Seq<Seq<i64>>, closed: bool, bufs: Seq<Seq<i64>>) -> Seq<Seq<i64>>
    decreases bufs.len(),
{
    if bufs.len() == 0 {
        queue
    } else {
        send_all(send_next(queue, closed, bufs.first()), closed, bufs.drop_first())
    }
}

/// The bounded relay's state: the buffers in flight, oldest first, and
/// whether the producer side has been closed for good.
pub struct Relay {
    queue: Vec<Vec<i64>>,
    closed: bool,
}

impl Relay {
    /// The buffers in flight, oldest first.
    pub closed spec fn buffers(&self) -> Seq<Seq<i64>> {
        self.queue.deep_view()
    }

    /// Whether the producer side has been closed.
    pub closed spec fn is_closed(&self) -> bool {
        self.closed
    }

    /// Occupancy never exceeds the fixed capacity.
    pub open spec fn inv(&self) -> bool {
        self.buffers().len() <= RELAY_CAPACITY
    }

    /// A fresh relay: open, with nothing queued.
    pub fn new() -> (r: Relay)
        ensures
            r.inv(),
            r.buffers() == Seq::<Seq<i64>>::empty(),
            !r.is_closed(),
    {
        let r = Relay { queue: Vec::new(), closed: false };
        proof {
            assert(r.buffers() =~~= Seq::<Seq<i64>>::empty());
        }
        r
    }

    /// How many buffers are queued.
    pub fn len(&self) -> (n: usize)
        ensures
            n == self.buffers().len(),
    {
        self.queue.len()
    }

    /// Attempts to enqueue one buffer.  On a closed relay nothing is ever
    /// enqueued; on a full relay nothing changes and the caller must wait
    /// for a receive; otherwise the buffer joins the back of the queue.
    pub fn try_send(&mut self, buf: Vec<i64>) -> (r: SendOutcome)
        requires
            old(self).inv(),
        ensures
            final(self).inv(),
            final(self).is_closed() == old(self).is_closed(),
            final(self).buffers() == send_next(old(self).buffers(), old(self).is_closed(), buf@),
            old(self).is_closed() ==> (r matches SendOutcome::Closed(b) && b@ == buf@),
            !old(self).is_closed() && old(self).buffers().len() == RELAY_CAPACITY ==> (
            r matches SendOutcome::Full(b) && b@ == buf@),
            send_accepted(old(self).buffers(), old(self).is_closed()) ==> r is Sent,
    {
        if self.closed {
            SendOutcome::Closed(buf)
        } else if self.queue.len() == RELAY_CAPACITY {
            SendOutcome::Full(buf)
        } else {
            self.queue.push(buf);
            proof {
                assert(self.buffers() =~~= old(self).buffers().push(buf@));
            }
            SendOutcome::Sent
        }
    }

    /// Attempts to take the oldest buffer.  An occupied relay hands out
    /// its front in arrival order; an empty one reports either that the
    /// consumer must wait or, once the producer side is closed, the end
    /// of the stream.
    pub fn try_recv(&mut self) -> (r: RecvOutcome)
        requires
            old(self).inv(),
        ensures
            final(self).inv(),
            final(self).is_closed() == old(self).is_closed(),
            final(self).buffers() == recv_next(old(self).buffers()),
            old(self).buffers().len() > 0 ==> (r matches RecvOutcome::Received(b)
                && b@ == old(self).buffers().first()),
            old(self).buffers().len() == 0 && old(self).is_closed() ==> r is Disconnected,
            old(self).buffers().len() == 0 && !old(self).is_closed() ==> r is Empty,
    {
        if self.queue.len() > 0 {
            let front = self.queue.remove(0);
            proof {
                assert(self.buffers() =~~= old(self).buffers().drop_first());
            }
            RecvOutcome::Received(front)
        } else if self.closed {
            RecvOutcome::Disconnected
        } else {
            RecvOutcome::Empty
        }
    }

    /// Closes the producer side for good: what is queued stays available
    /// to the consumer, but nothing further is ever enqueued.
    pub fn close(&mut self)
        requires
            old(self).inv(),
        ensures
            final(self).inv(),
            final(self).is_closed(),
            final(self).buffers() == old(self).buffers(),
    {
        self.closed = true;
    }
}

/// Sends that all fit are all accepted, in order: feeding a sequence of
/// buffers into an open relay with room for every one of them appends
/// exactly that sequence.
proof fn lemma_send_all_fits(queue: Seq<Seq<i64>>, bufs: Seq<Seq<i64>>)
    requires
        queue.len() + bufs.len() <= RELAY_CAPACITY,
    ensures
        send_all(queue, false, bufs) == queue + bufs,
    decreases bufs.len(),
{
    if bufs.len() == 0 {
        assert(send_all(queue, false, bufs) =~~= queue + bufs);
    } else {
        lemma_send_all_fits(queue.push(bufs.first()), bufs.drop_first());
        assert(queue.push(bufs.first()) + bufs.drop_first() =~~= queue + bufs);
    }
}

/// Receiving `n` times peels exactly the `n` oldest buffers off the front.
proof fn lemma_recv_n_skip(queue: Seq<Seq<i64>>, n: nat)
    requires
        n <= queue.len(),
    ensures
        recv_n(queue, n) == queue.skip(n as int),
    decreases n,
{
    if n == 0 {
        assert(recv_n(queue, 0) =~~= queue.skip(0));
    } else {
        lemma_recv_n_skip(queue.drop_first(), (n - 1) as nat);
        assert(queue.drop_first().skip(n - 1) =~~= queue.skip(n as int));
    }
}

/// Backpressure law.  Starting from an empty open relay, eight sends are
/// all accepted and queue up in arrival order; a ninth send changes
/// nothing (it stays pending); after exactly one receive — which hands
/// out the first buffer sent — the ninth send is accepted, and the queue
/// still holds the remaining buffers in their original order.
pub proof fn lemma_backpressure(bufs: Seq<Seq<i64>>)
    requires
        bufs.len() == 9,
    ensures
        ({
            let q8 = send_all(Seq::<Seq<i64>>::empty(), false, bufs.take(8));
            &&& q8 == bufs.take(8)
            &&& !send_accepted(q8, false)
            &&& send_next(q8, false, bufs[8]) == q8
            &&& q8.first() == bufs[0]
            &&& recv_next(q8) == bufs.subrange(1, 8)
            &&& send_accepted(recv_next(q8), false)
            &&& send_next(recv_next(q8), false, bufs[8]) == bufs.subrange(1, 9)
        }),
{
    lemma_send_all_fits(Seq::<Seq<i64>>::empty(), bufs.take(8));
    let q8 = send_all(Seq::<Seq<i64>>::empty(), false, bufs.take(8));
    assert(q8 =~~= bufs.take(8));
    assert(q8.drop_first() =~~= bufs.subrange(1, 8));
    assert(bufs.subrange(1, 8).push(bufs[8]) =~~= bufs.subrange(1, 9));
}

/// Teardown law.  Once the producer side is closed, no send attempt ever
/// enqueues anything; every buffer still queued is drained in arrival
/// order (the `k`-th receive returns the `k`-th queued buffer), and the
/// first receive after the queue runs dry finds it empty on a closed
/// relay — the end-of-stream report.
pub proof fn lemma_teardown(queue: Seq<Seq<i64>>, buf: Seq<i64>)
    ensures
        !send_accepted(queue, true),
        send_next(queue, true, buf) == queue,
        forall|k: nat|
            #![trigger recv_n(queue, k)]
            k < queue.len() ==> recv_n(queue, k).len() > 0 && recv_n(queue, k).first()
                == queue[k as int],
        recv_n(queue, queue.len()) == Seq::<Seq<i64>>::empty(),
{
    assert forall|k: nat| #![trigger recv_n(queue, k)] k < queue.len() implies recv_n(queue, k).len()
        > 0 && recv_n(queue, k).first() == queue[k as int] by {
        lemma_recv_n_skip(queue, k);
    }
    lemma_recv_n_skip(queue, queue.len());
    assert(queue.skip(queue.len() as int) =~~= Seq::<Seq<i64>>::empty());
}

} // verus!
