//! The mailbox queue: an ordered, bounded, multi-producer single-consumer
//! channel of request records, modelled as one sequential state machine.
//!
//! In the concurrent embedding, a producer finding the queue full suspends
//! until space frees; the sequential model surfaces that suspension point
//! as the `Full` status, and a producer finding the consumer gone gets
//! `Closed`. The FIFO discipline — requests leave in exactly the order
//! they were accepted — is the queue's central contract.

use vstd::prelude::*;

verus! {

/// One request record: which reply slot the submitting caller holds (its
/// index into the system's slot table — the caller keeps the receiving
/// end, the record carries the sending end), and the bytes to write.
pub struct Request {
    pub slot: usize,
    pub payload: Vec<u8>,
}

/// The mathematical value of a request.
pub ghost struct RequestModel {
    pub slot: usize,
    pub payload: Seq<u8>,
}

impl View for Request {
    type V = RequestModel;

    open spec fn view(&self) -> RequestModel {
        RequestModel { slot: self.slot, payload: self.payload@ }
    }
}

/// The mathematical state of the mailbox: the pending requests in arrival
/// order, the capacity bound, and whether each side is still attached.
pub ghost struct MailboxModel {
    pub capacity: nat,
    pub queue: Seq<RequestModel>,
    pub receiver_open: bool,
    pub senders_open: bool,
}

impl MailboxModel {
    /// The queue never holds more than its capacity, and a capacity of
    /// zero could accept nothing at all.
    pub open spec fn wf(self) -> bool {
        &&& self.capacity >= 1
        &&& self.queue.len() <= self.capacity
    }

    /// What an `enqueue` attempt reports in this state.
    pub open spec fn enqueue_status(self) -> EnqueueStatus {
        if !self.receiver_open {
            EnqueueStatus::Closed
        } else if self.queue.len() >= self.capacity {
            EnqueueStatus::Full
        } else {
            EnqueueStatus::Accepted
        }
    }

    /// The state after an `enqueue` attempt of `r`: appended at the tail
    /// when accepted, unchanged otherwise.
    pub open spec fn enqueue_effect(self, r: RequestModel) -> MailboxModel {
        if self.enqueue_status() is Accepted {
            MailboxModel { queue: self.queue.push(r), ..self }
        } else {
            self
        }
    }

    /// The state after a `dequeue` attempt: the head removed when one is
    /// present, unchanged otherwise.
    pub open spec fn dequeue_effect(self) -> MailboxModel {
        if self.queue.len() > 0 {
            MailboxModel { queue: self.queue.drop_first(), ..self }
        } else {
            self
        }
    }
}

/// The producer-visible result of an `enqueue` attempt.
#[derive(Clone, Copy, PartialEq, Eq, Structural, Debug)]
pub enum EnqueueStatus {
    /// The request sits at the tail of the queue.
    Accepted,
    /// The queue is at capacity; in the concurrent embedding the producer
    /// suspends here and retries when space frees (backpressure).
    Full,
    /// The consumer side is gone: the resource owner has terminated, and
    /// the caller must treat the resource as gone.
    Closed,
}

/// The consumer-visible result of a `dequeue` attempt.
pub enum DequeueOutcome {
    /// The head of the queue, removed.
    Received(Request),
    /// The queue is empty and every producer handle is gone: no request
    /// can ever arrive again, so the owner terminates gracefully.
    EndOfStream,
    /// The queue is empty but producers remain; in the concurrent
    /// embedding the consumer suspends here.
    WouldWait,
}

/// The mailbox queue itself.
pub struct Mailbox {
    capacity: usize,
    queue: Vec<Request>,
    receiver_open: bool,
    senders_open: bool,
}

impl View for Mailbox {
    type V = MailboxModel;

    closed spec fn view(&self) -> MailboxModel {
        MailboxModel {
            capacity: self.capacity as nat,
            queue: self.queue@.map_values(|r: Request| r@),
            receiver_open: self.receiver_open,
            senders_open: self.senders_open,
        }
    }
}

impl Mailbox {
    /// A fresh, open, empty mailbox of capacity `capacity`.
    pub fn new(capacity: usize) -> (m: Mailbox)
        requires
            capacity >= 1,
        ensures
            m@ == (MailboxModel {
                capacity: capacity as nat,
                queue: Seq::<RequestModel>::empty(),
                receiver_open: true,
                senders_open: true,
            }),
            m@.wf(),
    {
        let m = Mailbox { capacity, queue: Vec::new(), receiver_open: true, senders_open: true };
        proof {
            assert(m@.queue =~= Seq::<RequestModel>::empty());
            assert(m@ =~= (MailboxModel {
                capacity: capacity as nat,
                queue: Seq::<RequestModel>::empty(),
                receiver_open: true,
                senders_open: true,
            }));
        }
        m
    }

    pub fn capacity(&self) -> (c: usize)
        ensures
            c as nat == self@.capacity,
    {
        self.capacity
    }

    pub fn len(&self) -> (n: usize)
        ensures
            n as nat == self@.queue.len(),
    {
        self.queue.len()
    }

    /// Producer side: attempt to place `r` at the tail. The status and the
    /// new state are exactly the model's transition; in particular a full,
    /// open queue rejects with `Full` and keeps the queue unchanged, which
    /// is the suspension point of a concurrent producer.
    pub fn try_enqueue(&mut self, r: Request) -> (s: EnqueueStatus)
        requires
            old(self)@.wf(),
        ensures
            s == old(self)@.enqueue_status(),
            final(self)@ == old(self)@.enqueue_effect(r@),
            final(self)@.wf(),
    {
        if !self.receiver_open {
            EnqueueStatus::Closed
        } else if self.queue.len() >= self.capacity {
            EnqueueStatus::Full
        } else {
            let ghost pre = self@;
            let ghost rm = r@;
            self.queue.push(r);
            proof {
                assert(self@.queue =~= pre.queue.push(rm));
                assert(self@ =~= pre.enqueue_effect(rm));
            }
            EnqueueStatus::Accepted
        }
    }

    /// Consumer side: attempt to remove the head. Yields the head when one
    /// is present; `EndOfStream` once all producers are gone and nothing
    /// is pending; otherwise the consumer's suspension point.
    pub fn try_dequeue(&mut self) -> (out: DequeueOutcome)
        requires
            old(self)@.wf(),
        ensures
            final(self)@ == old(self)@.dequeue_effect(),
            final(self)@.wf(),
            old(self)@.queue.len() > 0 ==> (out matches DequeueOutcome::Received(r)
                && r@ == old(self)@.queue[0]),
            old(self)@.queue.len() == 0 && !old(self)@.senders_open ==> out is EndOfStream,
            old(self)@.queue.len() == 0 && old(self)@.senders_open ==> out is WouldWait,
    {
        if self.queue.len() > 0 {
            let ghost pre = self@;
            let r = self.queue.remove(0);
            proof {
                assert(self@.queue =~= pre.queue.drop_first());
                assert(self@ =~= pre.dequeue_effect());
            }
            DequeueOutcome::Received(r)
        } else if !self.senders_open {
            DequeueOutcome::EndOfStream
        } else {
            DequeueOutcome::WouldWait
        }
    }

    /// All producer handles dropped: no more requests will arrive. This
    /// signals "no more work", not "close the resource".
    pub fn close_senders(&mut self)
        requires
            old(self)@.wf(),
        ensures
            final(self)@ == (MailboxModel { senders_open: false, ..old(self)@ }),
            final(self)@.wf(),
    {
        self.senders_open = false;
    }

    /// Consumer side, at owner termination: detach the consumer and drain
    /// whatever is still queued, handing the drained requests back so
    /// their reply slots can be dropped. Every later `enqueue` reports
    /// `Closed`.
    pub fn close_receiver(&mut self) -> (drained: Vec<Request>)
        requires
            old(self)@.wf(),
        ensures
            final(self)@ == (MailboxModel {
                capacity: old(self)@.capacity,
                queue: Seq::<RequestModel>::empty(),
                receiver_open: false,
                senders_open: old(self)@.senders_open,
            }),
            final(self)@.wf(),
            drained@.map_values(|r: Request| r@) == old(self)@.queue,
    {
        let ghost pre = self@;
        self.receiver_open = false;
        let mut drained: Vec<Request> = Vec::new();
        core::mem::swap(&mut drained, &mut self.queue);
        proof {
            assert(self@.queue =~= Seq::<RequestModel>::empty());
            assert(self@ =~= (MailboxModel {
                capacity: pre.capacity,
                queue: Seq::<RequestModel>::empty(),
                receiver_open: false,
                senders_open: pre.senders_open,
            }));
            assert(drained@.map_values(|r: Request| r@) =~= pre.queue);
        }
        drained
    }
}

/// FIFO law: two requests accepted in order sit in the queue in that
/// order — the earlier one strictly closer to the head — so they are
/// dequeued in the order they were enqueued, whichever handles sent them.
pub proof fn lemma_fifo_order(m: MailboxModel, a: RequestModel, b: RequestModel)
    requires
        m.wf(),
        m.receiver_open,
        m.queue.len() + 2 <= m.capacity,
    ensures
        m.enqueue_status() is Accepted,
        m.enqueue_effect(a).enqueue_status() is Accepted,
        m.enqueue_effect(a).enqueue_effect(b).queue[m.queue.len() as int] == a,
        m.enqueue_effect(a).enqueue_effect(b).queue[m.queue.len() as int + 1] == b,
{
}

/// Backpressure law: with the queue at capacity and the consumer present,
/// an enqueue attempt reports `Full` and changes nothing — the producer
/// suspends — and becomes `Accepted` as soon as one request is dequeued,
/// the late request taking its place at the tail.
pub proof fn lemma_backpressure(m: MailboxModel, r: RequestModel)
    requires
        m.wf(),
        m.receiver_open,
        m.queue.len() == m.capacity,
    ensures
        m.enqueue_status() is Full,
        m.enqueue_effect(r) == m,
        m.dequeue_effect().enqueue_status() is Accepted,
        m.dequeue_effect().enqueue_effect(r).queue =~= m.queue.drop_first().push(r),
{
}

} // verus!
