use vstd::prelude::*;

verus! {

/// A single-producer/single-consumer, unbounded, first-in-first-out pipe
/// carrying progress messages from the worker to the interface loop.
///
/// Closing the producer side is the sole termination signal: once the
/// channel is closed and drained, `receive` yields end-of-stream forever.
/// The ghost `sent` and `received` histories record every message that
/// ever entered or left the pipe, so that delivery order and completeness
/// are part of the channel's contract.
pub struct Channel<T> {
    buffer: Vec<T>,
    producer_alive: bool,
    history: Ghost<Seq<T>>,
    taken: Ghost<Seq<T>>,
}

impl<T> Channel<T> {
    /// Messages sent but not yet received, oldest first.
    pub closed spec fn pending(self) -> Seq<T> {
        self.buffer@
    }

    /// Whether the producer side is still alive.
    pub closed spec fn is_open(self) -> bool {
        self.producer_alive
    }

    /// Every message ever sent, in sending order.
    pub closed spec fn sent(self) -> Seq<T> {
        self.history@
    }

    /// Every message ever yielded by `receive`, in delivery order.
    pub closed spec fn received(self) -> Seq<T> {
        self.taken@
    }

    /// The channel never drops or reorders: what was received, followed
    /// by what is still pending, is exactly what was sent.
    pub open spec fn wf(self) -> bool {
        self.received() + self.pending() == self.sent()
    }

    /// Creates a fresh, open, empty channel.
    pub fn new() -> (c: Self)
        ensures
            c.wf(),
            c.is_open(),
            c.pending() == Seq::<T>::empty(),
            c.sent() == Seq::<T>::empty(),
            c.received() == Seq::<T>::empty(),
    {
        let c = Channel {
            buffer: Vec::new(),
            producer_alive: true,
            history: Ghost(Seq::empty()),
            taken: Ghost(Seq::empty()),
        };
        proof {
            assert(c.received() + c.pending() =~= c.sent());
        }
        c
    }

    /// Enqueues a message. Succeeds whenever the producer is alive;
    /// never drops and never reorders.
    pub fn send(&mut self, m: T)
        requires
            old(self).wf(),
            old(self).is_open(),
        ensures
            final(self).wf(),
            final(self).is_open(),
            final(self).pending() == old(self).pending().push(m),
            final(self).sent() == old(self).sent().push(m),
            final(self).received() == old(self).received(),
    {
        self.buffer.push(m);
        proof {
            self.history@ = self.history@.push(m);
            assert(self.received() + self.pending() =~= self.sent());
        }
    }

    /// Destroys the producer side. Pending messages stay readable; no
    /// further message can ever be sent.
    pub fn close(&mut self)
        requires
            old(self).wf(),
        ensures
            final(self).wf(),
            !final(self).is_open(),
            final(self).pending() == old(self).pending(),
            final(self).sent() == old(self).sent(),
            final(self).received() == old(self).received(),
    {
        self.producer_alive = false;
    }

    /// Dequeues the oldest pending message, or reports end-of-stream.
    ///
    /// A call on an empty open channel would block until the producer
    /// acts, so the contract asks the caller to hold either a pending
    /// message or a closed channel. Once the producer is destroyed and
    /// the pipe is drained, the result is end-of-stream and the channel
    /// is left unchanged, so every subsequent call yields end-of-stream
    /// as well: closure is terminal.
    pub fn receive(&mut self) -> (r: Option<T>)
        requires
            old(self).wf(),
            old(self).pending().len() > 0 || !old(self).is_open(),
        ensures
            final(self).wf(),
            final(self).is_open() == old(self).is_open(),
            final(self).sent() == old(self).sent(),
            old(self).pending().len() > 0 ==> {
                &&& r == Some(old(self).pending()[0])
                &&& final(self).pending() == old(self).pending().drop_first()
                &&& final(self).received() == old(self).received().push(old(self).pending()[0])
            },
            old(self).pending().len() == 0 ==> {
                &&& r is None
                &&& final(self).pending() == old(self).pending()
                &&& final(self).received() == old(self).received()
            },
    {
        if self.buffer.len() > 0 {
            let m = self.buffer.remove(0);
            proof {
                self.taken@ = self.taken@.push(old(self).pending()[0]);
                assert(self.pending() =~= old(self).pending().drop_first());
                assert(self.received() + self.pending() =~= self.sent());
            }
            Some(m)
        } else {
            None
        }
    }
}

/// Law: no reordering. While the stream is being consumed, each message
/// already delivered is the message sent at the same position.
pub proof fn lemma_delivery_order<T>(c: Channel<T>, i: int)
    requires
        c.wf(),
        0 <= i < c.received().len(),
    ensures
        c.received()[i] == c.sent()[i],
{
}

/// Law: no loss. Once a channel is drained, the messages delivered to the
/// consumer are exactly the messages sent, in the exact sending order.
pub proof fn lemma_ordering<T>(c: Channel<T>)
    requires
        c.wf(),
        c.pending().len() == 0,
    ensures
        c.received() == c.sent(),
{
    assert(c.received() =~= c.received() + c.pending());
}

} // verus!
