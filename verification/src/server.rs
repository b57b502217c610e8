//! The RPC server side: per-call handling and the connection-concurrency
//! bound.
//!
//! The server answers `protocol` and `ping` by itself; every other call
//! becomes a call envelope with a fresh reply slot, is submitted to the
//! dispatcher queue (suspending while the queue is full, which carries
//! backpressure from the backend all the way to the wire), and its reply
//! is translated into a wire-sendable response. Independently of the
//! queue's capacity, at most [`MAX_PARALLEL_REQUESTS`] connections are
//! serviced concurrently: a connection beyond the bound waits in line, it
//! is never dropped.

use vstd::prelude::*;

use crate::api::{to_wire, wire_of, Request, RequestModel, WireResponse};
use crate::envelope::Envelope;
use crate::types::{view_opt_string, UserMetadata};
use crate::PROTOCOL_VERSION;

verus! {

/// Upper bound on concurrently serviced connections; prevents socket
/// exhaustion and related slowdown.
pub const MAX_PARALLEL_REQUESTS: usize = 16;

/// What happened to a connection that asked for a processing slot.
#[derive(Clone, Copy, PartialEq, Eq, Structural, Debug)]
pub enum Admission {
    /// A slot was free; the connection is being serviced.
    Admitted,
    /// All slots are busy; the connection waits in line, it is not
    /// dropped.
    Queued,
}

/// Bookkeeping for the connection-concurrency bound: how many
/// connection-processing units run and how many accepted connections wait
/// for a slot.
pub struct ConnectionGovernor {
    active: usize,
    waiting: usize,
}

impl ConnectionGovernor {
    #[verifier::type_invariant]
    spec fn bound_inv(self) -> bool {
        self.active <= MAX_PARALLEL_REQUESTS
    }

    /// How many connection-processing units run right now.
    pub closed spec fn active_units(&self) -> nat {
        self.active as nat
    }

    /// How many accepted connections wait for a free slot.
    pub closed spec fn waiting_units(&self) -> nat {
        self.waiting as nat
    }

    /// No connections yet.
    pub fn new() -> (r: Self)
        ensures
            r.active_units() == 0,
            r.waiting_units() == 0,
    {
        ConnectionGovernor { active: 0, waiting: 0 }
    }

    /// How many units run. Law: never more than the configured bound;
    /// the bound is the governor's type invariant, so it holds of every
    /// governor value that can ever be constructed.
    pub fn active_count(&self) -> (r: usize)
        ensures
            r == self.active_units(),
            r <= MAX_PARALLEL_REQUESTS,
    {
        proof {
            use_type_invariant(&*self);
        }
        self.active
    }

    /// How many accepted connections wait in line.
    pub fn waiting_count(&self) -> (r: usize)
        ensures
            r == self.waiting_units(),
    {
        self.waiting
    }

    /// An accepted connection asks for a processing slot: it is admitted
    /// while fewer than the bound run, and queued — never dropped —
    /// otherwise.
    pub fn try_admit(&mut self) -> (r: Admission)
        requires
            old(self).waiting_units() < usize::MAX,
        ensures
            old(self).active_units() < MAX_PARALLEL_REQUESTS ==> r == Admission::Admitted
                && final(self).active_units() == old(self).active_units() + 1
                && final(self).waiting_units() == old(self).waiting_units(),
            old(self).active_units() >= MAX_PARALLEL_REQUESTS ==> r == Admission::Queued
                && final(self).active_units() == old(self).active_units()
                && final(self).waiting_units() == old(self).waiting_units() + 1,
            final(self).active_units() <= MAX_PARALLEL_REQUESTS,
    {
        proof {
            use_type_invariant(&*self);
        }
        if self.active < MAX_PARALLEL_REQUESTS {
            self.active = self.active + 1;
            Admission::Admitted
        } else {
            self.waiting = self.waiting + 1;
            Admission::Queued
        }
    }

    /// A serviced connection finished: its slot frees, and the first
    /// waiting connection, if any, takes it immediately.
    pub fn release(&mut self)
        requires
            old(self).active_units() > 0,
        ensures
            old(self).waiting_units() > 0 ==> final(self).active_units() == old(
                self,
            ).active_units() && final(self).waiting_units() == old(self).waiting_units() - 1,
            old(self).waiting_units() == 0 ==> final(self).active_units() == old(
                self,
            ).active_units() - 1 && final(self).waiting_units() == 0,
            final(self).active_units() <= MAX_PARALLEL_REQUESTS,
    {
        proof {
            use_type_invariant(&*self);
        }
        if self.waiting > 0 {
            self.waiting = self.waiting - 1;
        } else {
            self.active = self.active - 1;
        }
    }
}

/// One event from the connection listener.
pub enum AcceptEvent {
    /// A connection was accepted; the peer address may or may not have
    /// resolved (a failed resolution is logged, nothing more).
    Connected { peer_known: bool },
    /// The transport failed to accept a connection.
    Failed,
}

/// What the listener loop does with an accept event.
#[derive(Clone, Copy, PartialEq, Eq, Structural, Debug)]
pub enum AcceptAction {
    /// Service the connection.
    Serve,
    /// Log the accept failure and keep listening; never fatal.
    DropConnection,
}

/// The server's half of the dispatcher bridge: it answers the two
/// backend-free methods itself and turns every other call into an
/// envelope for the dispatcher queue.
pub struct Server {
    _private: (),
}

impl Server {
    /// A server handle.
    pub fn init() -> (r: Self) {
        Server { _private: () }
    }

    /// Decide what to do with one accept event: an accepted connection is
    /// serviced whether or not its peer address resolved; a failed accept
    /// is logged and dropped, never fatal to the listener.
    pub fn on_accept(&self, event: &AcceptEvent) -> (r: AcceptAction)
        ensures
            r == (match event {
                AcceptEvent::Connected { .. } => AcceptAction::Serve,
                AcceptEvent::Failed => AcceptAction::DropConnection,
            }),
    {
        match event {
            AcceptEvent::Connected { .. } => AcceptAction::Serve,
            AcceptEvent::Failed => AcceptAction::DropConnection,
        }
    }

    /// The server's protocol version; no backend involvement.
    pub fn protocol(&self) -> (r: String)
        ensures
            r@ == PROTOCOL_VERSION@,
    {
        String::from_str(PROTOCOL_VERSION)
    }

    /// A fixed liveness token; no backend involvement.
    pub fn ping(&self) -> (r: String)
        ensures
            r@ == "pong!"@,
    {
        String::from_str("pong!")
    }

    /// Envelope for a `login` call.
    pub fn login(
        &self,
        username_or_email: String,
        password: String,
        remote_address: Option<String>,
    ) -> (r: Envelope)
        ensures
            r@.request == (RequestModel::TryLogin {
                username_or_email: username_or_email@,
                password: password@,
                remote_address: view_opt_string(remote_address),
            }),
            r@.slot is Awaiting,
    {
        Envelope::new(Request::TryLogin { username_or_email, password, remote_address })
    }

    /// Envelope for a `logout` call.
    pub fn logout(&self, session_id: u64, user_id: u64) -> (r: Envelope)
        ensures
            r@.request == (RequestModel::Logout { session_id, user_id }),
            r@.slot is Awaiting,
    {
        Envelope::new(Request::Logout { session_id, user_id })
    }

    /// Envelope for a `logout_others` call.
    pub fn logout_others(&self, session_id: u64, user_id: u64) -> (r: Envelope)
        ensures
            r@.request == (RequestModel::LogoutOthers { session_id, user_id }),
            r@.slot is Awaiting,
    {
        Envelope::new(Request::LogoutOthers { session_id, user_id })
    }

    /// Envelope for a `check_session` call.
    pub fn check_session(&self, session_id: u64, user_id: u64) -> (r: Envelope)
        ensures
            r@.request == (RequestModel::CheckSession { session_id, user_id }),
            r@.slot is Awaiting,
    {
        Envelope::new(Request::CheckSession { session_id, user_id })
    }

    /// Envelope for a `create_user` call.
    pub fn create_user(&self, name: String, email: String, password: String) -> (r: Envelope)
        ensures
            r@.request == (RequestModel::CreateUser { name: name@, email: email@, password: password@ }),
            r@.slot is Awaiting,
    {
        Envelope::new(Request::CreateUser { name, email, password })
    }

    /// Envelope for an `edit_user` call.
    pub fn edit_user(&self, user_id: u64, changes: UserMetadata) -> (r: Envelope)
        ensures
            r@.request == (RequestModel::EditUser { user_id, changes: changes@ }),
            r@.slot is Awaiting,
    {
        Envelope::new(Request::EditUser { user_id, changes })
    }

    /// Envelope for a `get_user_from_id` call.
    pub fn get_user_from_id(&self, user_id: u64) -> (r: Envelope)
        ensures
            r@.request == (RequestModel::GetUserFromId { user_id }),
            r@.slot is Awaiting,
    {
        Envelope::new(Request::GetUserFromId { user_id })
    }

    /// Envelope for a `get_users_from_ids` call.
    pub fn get_users_from_ids(&self, user_ids: Vec<u64>) -> (r: Envelope)
        ensures
            r@.request == (RequestModel::GetUsersFromIds { user_ids: user_ids@ }),
            r@.slot is Awaiting,
    {
        Envelope::new(Request::GetUsersFromIds { user_ids })
    }

    /// Envelope for a `get_user_from_name` call.
    pub fn get_user_from_name(&self, name: String) -> (r: Envelope)
        ensures
            r@.request == (RequestModel::GetUserFromName { name: name@ }),
            r@.slot is Awaiting,
    {
        Envelope::new(Request::GetUserFromName { name })
    }

    /// Envelope for a `get_user_from_email` call.
    pub fn get_user_from_email(&self, email: String) -> (r: Envelope)
        ensures
            r@.request == (RequestModel::GetUserFromEmail { email: email@ }),
            r@.slot is Awaiting,
    {
        Envelope::new(Request::GetUserFromEmail { email })
    }

    /// Finish one forwarded call: take the reply the dispatcher sent into
    /// the envelope's slot and translate its domain error, if any, into
    /// the wire-sendable representation.
    pub fn finish(&self, envelope: Envelope) -> (r: WireResponse)
        requires
            envelope@.slot is Filled,
        ensures
            r@ == wire_of(envelope@.slot->0),
    {
        to_wire(envelope.take_reply())
    }
}

} // verus!
