//! The dispatcher queue: a bounded, ordered, multi-producer
//! single-consumer channel of call envelopes.
//!
//! Capacity is fixed at [`QUEUE_CAPACITY`] entries and is the sole
//! backpressure mechanism between the network and the backend: a type
//! invariant keeps the queue from ever holding more, and a submission
//! against a full queue is refused with the envelope handed back, so the
//! submitter suspends and retries instead of losing the call. Delivery
//! order is first-in first-out: envelopes leave in arrival order.

use vstd::prelude::*;
use std::collections::VecDeque;

use crate::envelope::{can_send, Envelope, EnvelopeModel};

verus! {

/// Fixed capacity of the dispatcher queue.
pub const QUEUE_CAPACITY: usize = 64;

/// Why a submission was refused.
pub enum SubmitError {
    /// The queue already holds [`QUEUE_CAPACITY`] entries; the submitter
    /// must suspend until the dispatcher drains one, then submit again.
    /// The envelope is handed back untouched.
    Full(Envelope),
    /// The consuming end is gone; no submission will ever succeed again.
    /// The envelope is handed back untouched.
    Closed(Envelope),
}

/// What the dispatcher sees when it polls the queue.
pub enum Polled {
    /// The envelope that arrived before all others still queued.
    Entry(Envelope),
    /// Nothing queued, producers still alive: wait for the next arrival.
    Empty,
    /// Nothing queued and every producer is gone: the queue is dead.
    Disconnected,
}

/// Bounded FIFO channel of call envelopes.
pub struct DispatcherQueue {
    entries: VecDeque<Envelope>,
    closed: bool,
}

impl View for DispatcherQueue {
    type V = Seq<EnvelopeModel>;

    closed spec fn view(&self) -> Seq<EnvelopeModel> {
        self.entries@.map_values(|e: Envelope| e@)
    }
}

impl DispatcherQueue {
    #[verifier::type_invariant]
    spec fn queue_inv(self) -> bool {
        &&& self.entries@.len() <= QUEUE_CAPACITY
        &&& forall|k: int|
            0 <= k < self.entries@.len() ==> can_send((#[trigger] self.entries@[k])@.slot)
    }

    /// Whether the producing side has been dropped.
    pub closed spec fn is_closed(&self) -> bool {
        self.closed
    }

    /// A fresh, open, empty queue.
    pub fn new() -> (r: Self)
        ensures
            r@ == Seq::<EnvelopeModel>::empty(),
            !r.is_closed(),
    {
        DispatcherQueue { entries: VecDeque::new(), closed: false }
    }

    /// Number of pending entries. Law: the queue never holds more than
    /// its fixed capacity; the bound is the queue's type invariant, so it
    /// holds of every queue value that can ever be constructed.
    pub fn len(&self) -> (r: usize)
        ensures
            r == self@.len(),
            r <= QUEUE_CAPACITY,
    {
        proof {
            use_type_invariant(&*self);
        }
        self.entries.len()
    }

    /// Submit an envelope. It is appended in arrival order if the queue
    /// has room and is still open; otherwise it is handed back with the
    /// reason, and the queue is unchanged.
    pub fn submit(&mut self, envelope: Envelope) -> (r: Result<(), SubmitError>)
        requires
            can_send(envelope@.slot),
        ensures
            ({
                let accepted = !old(self).is_closed() && old(self)@.len() < QUEUE_CAPACITY;
                &&& accepted ==> r is Ok && final(self)@ == old(self)@.push(envelope@)
                &&& !accepted && old(self).is_closed() ==> (r matches Err(
                    SubmitError::Closed(e),
                ) && e@ == envelope@)
                &&& !accepted && !old(self).is_closed() ==> (r matches Err(
                    SubmitError::Full(e),
                ) && e@ == envelope@)
                &&& !accepted ==> final(self)@ == old(self)@
                &&& final(self).is_closed() == old(self).is_closed()
            }),
    {
        proof {
            use_type_invariant(&*self);
        }
        if self.closed {
            Err(SubmitError::Closed(envelope))
        } else if self.entries.len() < QUEUE_CAPACITY {
            let mut entries: VecDeque<Envelope> = VecDeque::new();
            std::mem::swap(&mut entries, &mut self.entries);
            entries.push_back(envelope);
            self.entries = entries;
            Ok(())
        } else {
            Err(SubmitError::Full(envelope))
        }
    }

    /// The consumer polls for the next envelope: the oldest entry if one
    /// is queued, otherwise whether it should wait or give up.
    pub fn poll(&mut self) -> (r: Polled)
        ensures
            old(self)@.len() > 0 ==> (r matches Polled::Entry(e) && e@ == old(self)@[0]
                && can_send(e@.slot) && final(self)@ == old(self)@.drop_first()),
            old(self)@.len() == 0 ==> final(self)@ == old(self)@ && (if old(self).is_closed() {
                r is Disconnected
            } else {
                r is Empty
            }),
            final(self).is_closed() == old(self).is_closed(),
    {
        proof {
            use_type_invariant(&*self);
        }
        let mut entries: VecDeque<Envelope> = VecDeque::new();
        std::mem::swap(&mut entries, &mut self.entries);
        let next = entries.pop_front();
        self.entries = entries;
        match next {
            Some(envelope) => Polled::Entry(envelope),
            None => {
                if self.closed {
                    Polled::Disconnected
                } else {
                    Polled::Empty
                }
            },
        }
    }

    /// The last producer goes away: no further submission will succeed.
    pub fn close(&mut self)
        ensures
            final(self)@ == old(self)@,
            final(self).is_closed(),
    {
        proof {
            use_type_invariant(&*self);
        }
        self.closed = true;
    }
}

} // verus!
