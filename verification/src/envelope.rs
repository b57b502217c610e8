//! Call envelopes: a request paired with a single-use reply slot.
//!
//! The reply slot is the model of a single-producer single-consumer,
//! single-value channel. Its law: exactly one reply is ever sent into a
//! slot. Sending requires the slot not to be filled yet, and a filled slot
//! is terminal, so a second send into the same slot is excluded at the
//! type level. If the submitter abandoned the slot before the reply
//! arrived (its connection dropped mid-call), the send reports
//! `ReceiverGone` and the computed result is discarded, never retried.

use vstd::prelude::*;

use crate::api::{Reply, ReplyModel, Request, RequestModel};

verus! {

/// A slot can still receive a reply as long as none was sent into it.
pub open spec fn can_send(s: SlotModel) -> bool {
    !(s is Filled)
}

/// Model of a reply slot's lifecycle.
pub enum SlotModel {
    /// The submitter is waiting on the slot; no reply was sent yet.
    Awaiting,
    /// The submitter went away before a reply was sent.
    Abandoned,
    /// Exactly one reply was sent; terminal.
    Filled(ReplyModel),
}

/// What became of an attempted reply delivery.
#[derive(Clone, Copy, PartialEq, Eq, Structural, Debug)]
pub enum SendOutcome {
    /// The reply now sits in the slot.
    Delivered,
    /// The submitter had abandoned the slot; the reply was discarded.
    ReceiverGone,
}

/// A single-use, single-value reply channel for one call's result.
pub struct ReplySlot {
    state: SlotState,
}

enum SlotState {
    Awaiting,
    Abandoned,
    Filled(Reply),
}

impl View for ReplySlot {
    type V = SlotModel;

    closed spec fn view(&self) -> SlotModel {
        match self.state {
            SlotState::Awaiting => SlotModel::Awaiting,
            SlotState::Abandoned => SlotModel::Abandoned,
            SlotState::Filled(r) => SlotModel::Filled(r@),
        }
    }
}

impl ReplySlot {
    /// A fresh slot, not yet replied into and not abandoned.
    pub fn new() -> (r: Self)
        ensures
            r@ is Awaiting,
    {
        ReplySlot { state: SlotState::Awaiting }
    }

    /// Send the one reply this slot will ever carry. A filled slot cannot
    /// be sent into again; an abandoned slot swallows the reply and
    /// reports it.
    pub fn send(&mut self, reply: Reply) -> (r: SendOutcome)
        requires
            can_send(old(self)@),
        ensures
            old(self)@ is Awaiting ==> final(self)@ == SlotModel::Filled(reply@)
                && r == SendOutcome::Delivered,
            old(self)@ is Abandoned ==> final(self)@ is Abandoned
                && r == SendOutcome::ReceiverGone,
    {
        match self.state {
            SlotState::Abandoned => SendOutcome::ReceiverGone,
            _ => {
                self.state = SlotState::Filled(reply);
                SendOutcome::Delivered
            },
        }
    }

    /// The submitter walks away: a pending slot becomes abandoned; a
    /// filled one keeps its reply (it is merely never read).
    pub fn abandon(&mut self)
        ensures
            old(self)@ is Awaiting ==> final(self)@ is Abandoned,
            !(old(self)@ is Awaiting) ==> final(self)@ == old(self)@,
    {
        match self.state {
            SlotState::Awaiting => {
                self.state = SlotState::Abandoned;
            },
            _ => {},
        }
    }

    /// Consume the slot and take its reply.
    pub fn take(self) -> (r: Reply)
        requires
            self@ is Filled,
        ensures
            self@ == SlotModel::Filled(r@),
    {
        match self.state {
            SlotState::Filled(reply) => reply,
            SlotState::Awaiting => unreached(),
            SlotState::Abandoned => unreached(),
        }
    }
}

/// Model of a call envelope.
pub struct EnvelopeModel {
    pub request: RequestModel,
    pub slot: SlotModel,
}

/// The internal representation of one in-flight call: the decoded request
/// together with the single-use reply slot the submitter waits on.
pub struct Envelope {
    request: Request,
    slot: ReplySlot,
}

impl View for Envelope {
    type V = EnvelopeModel;

    closed spec fn view(&self) -> EnvelopeModel {
        EnvelopeModel { request: self.request@, slot: self.slot@ }
    }
}

impl Envelope {
    /// Wrap a decoded request with a fresh reply slot.
    pub fn new(request: Request) -> (r: Self)
        ensures
            r@.request == request@,
            r@.slot is Awaiting,
    {
        Envelope { request, slot: ReplySlot::new() }
    }

    /// Read the request without consuming the envelope.
    pub fn request(&self) -> (r: &Request)
        ensures
            r@ == self@.request,
    {
        &self.request
    }

    /// The submitter walks away from this call.
    pub fn abandon(&mut self)
        ensures
            final(self)@.request == old(self)@.request,
            old(self)@.slot is Awaiting ==> final(self)@.slot is Abandoned,
            !(old(self)@.slot is Awaiting) ==> final(self)@.slot == old(self)@.slot,
    {
        self.slot.abandon();
    }

    /// Answer this call: send the one reply its slot will ever carry.
    pub fn respond(&mut self, reply: Reply) -> (r: SendOutcome)
        requires
            can_send(old(self)@.slot),
        ensures
            final(self)@.request == old(self)@.request,
            old(self)@.slot is Awaiting ==> final(self)@.slot == SlotModel::Filled(reply@)
                && r == SendOutcome::Delivered,
            old(self)@.slot is Abandoned ==> final(self)@.slot is Abandoned
                && r == SendOutcome::ReceiverGone,
    {
        self.slot.send(reply)
    }

    /// Consume a completed envelope and take the reply out of its slot.
    pub fn take_reply(self) -> (r: Reply)
        requires
            self@.slot is Filled,
        ensures
            self@.slot == SlotModel::Filled(r@),
    {
        self.slot.take()
    }
}

/// Law: a reply slot accepts at most one reply. A delivered send leaves
/// the slot filled, and a filled slot admits no further send, so a second
/// delivery into the same slot is impossible; the at-least-once half (an
/// envelope the dispatcher consumes is answered unless its submitter
/// abandoned it) is the dispatcher's own contract.
pub proof fn lemma_reply_at_most_once(s: SlotModel, r: ReplyModel)
    ensures
        s is Filled ==> !can_send(s),
        !can_send(SlotModel::Filled(r)),
{
}

} // verus!
