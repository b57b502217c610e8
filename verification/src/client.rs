//! The RPC client: a connection handle with a per-call timeout and a
//! bounded retry/reconnect protocol.
//!
//! Every call follows one template: attempt the remote call under the
//! configured timeout; on a response, return it at once; on a timeout,
//! tear the link down and rebuild it against the stored address — if that
//! reconnection fails, the call fails immediately with the reconnection
//! error and no further attempt is made; if it succeeds, try again. At
//! most [`RETRY_ATTEMPTS`] attempts are made; when all of them time out
//! the call fails with [`CallError::NotRespondingInTime`], an error
//! distinct from anything the backend reports.
//!
//! What the network did is a sequence of [`AttemptEvent`]s, one per
//! attempt the protocol could make; the link itself lives outside this
//! model, so the handle tracks it as a ghost generation number that the
//! wholesale replacement on reconnect bumps.

use vstd::prelude::*;

use crate::api::{Request, RequestModel};
use crate::types::{view_opt_string, Session, SendableError, User, UserMetadata};
use crate::PROTOCOL_VERSION;

verus! {

/// Total attempt budget per call; the timeout is re-applied on every
/// attempt, never accumulated across them.
pub const RETRY_ATTEMPTS: usize = 5;

/// A transport-layer failure: local to one call or one connection.
pub struct TransportError {
    pub message: String,
}

impl View for TransportError {
    type V = Seq<char>;

    open spec fn view(&self) -> Seq<char> {
        self.message@
    }
}

impl Clone for TransportError {
    fn clone(&self) -> (r: Self)
        ensures
            r@ == self@,
    {
        TransportError { message: self.message.clone() }
    }
}

/// Why a client call failed, as distinct from anything the backend said.
pub enum CallError {
    /// Every attempt timed out: the remote server is not responding in
    /// time.
    NotRespondingInTime,
    /// A reconnection after a timeout failed; the call was aborted with
    /// this error immediately.
    Reconnect(TransportError),
}

/// What the network did on one attempt of one call.
pub enum AttemptEvent<T> {
    /// The remote call came back with this response before the timeout.
    Response(T),
    /// The timeout expired first; `reconnect` says how rebuilding the
    /// link went.
    TimedOut { reconnect: Result<(), TransportError> },
}

/// The call outcome the retry protocol produces from attempt `attempt`
/// on: the first response wins; a failed reconnection aborts; running out
/// of attempts is a timeout error of its own.
pub open spec fn retry_from<T>(events: Seq<AttemptEvent<T>>, attempt: int) -> Result<T, CallError>
    decreases RETRY_ATTEMPTS - attempt when 0 <= attempt <= RETRY_ATTEMPTS
{
    if attempt >= RETRY_ATTEMPTS {
        Err(CallError::NotRespondingInTime)
    } else {
        match events[attempt] {
            AttemptEvent::Response(t) => Ok(t),
            AttemptEvent::TimedOut { reconnect } => match reconnect {
                Ok(()) => retry_from(events, attempt + 1),
                Err(e) => Err(CallError::Reconnect(e)),
            },
        }
    }
}

/// How many attempts the protocol makes from attempt `attempt` on.
pub open spec fn attempts_from<T>(events: Seq<AttemptEvent<T>>, attempt: int) -> int
    decreases RETRY_ATTEMPTS - attempt when 0 <= attempt <= RETRY_ATTEMPTS
{
    if attempt >= RETRY_ATTEMPTS {
        0
    } else {
        match events[attempt] {
            AttemptEvent::Response(t) => 1,
            AttemptEvent::TimedOut { reconnect } => match reconnect {
                Ok(()) => 1 + attempts_from(events, attempt + 1),
                Err(e) => 1,
            },
        }
    }
}

/// How many successful reconnections the protocol performs from attempt
/// `attempt` on; each one replaces the link wholesale.
pub open spec fn reconnects_from<T>(events: Seq<AttemptEvent<T>>, attempt: int) -> nat
    decreases RETRY_ATTEMPTS - attempt when 0 <= attempt <= RETRY_ATTEMPTS
{
    if attempt >= RETRY_ATTEMPTS {
        0
    } else {
        match events[attempt] {
            AttemptEvent::Response(t) => 0,
            AttemptEvent::TimedOut { reconnect } => match reconnect {
                Ok(()) => 1 + reconnects_from(events, attempt + 1),
                Err(e) => 0,
            },
        }
    }
}

/// A client connection handle: the remote address needed to recreate the
/// link, the per-call timeout, and the current link's generation.
pub struct Client {
    address: String,
    timeout_ms: u64,
    generation: Ghost<nat>,
}

impl Client {
    /// Where the handle reconnects to.
    pub closed spec fn address(&self) -> Seq<char> {
        self.address@
    }

    /// The configured per-call timeout, in milliseconds.
    pub closed spec fn timeout_ms(&self) -> u64 {
        self.timeout_ms
    }

    /// How many times the link has been replaced since the handle was
    /// built.
    pub closed spec fn generation(&self) -> nat {
        self.generation@
    }

    /// A handle over a fresh link to the given address.
    pub fn new(address: String, timeout_ms: u64) -> (r: Self)
        ensures
            r.address() == address@,
            r.timeout_ms() == timeout_ms,
            r.generation() == 0,
    {
        Client { address, timeout_ms, generation: Ghost(0) }
    }

    /// Run the retry protocol for one call against what the network did.
    /// Law (retry): the outcome is the first response among the first
    /// five attempts; a failed reconnection aborts with its own error and
    /// no further attempt; five timeouts exhaust the budget into
    /// [`CallError::NotRespondingInTime`]. The address and the timeout
    /// survive every reconnection; only the link is replaced.
    pub fn run_retry<T>(&mut self, events: Vec<AttemptEvent<T>>) -> (r: (
        Result<T, CallError>,
        usize,
    ))
        requires
            events@.len() >= RETRY_ATTEMPTS,
        ensures
            r.0 == retry_from(events@, 0),
            r.1 == attempts_from(events@, 0),
            final(self).address() == old(self).address(),
            final(self).timeout_ms() == old(self).timeout_ms(),
            final(self).generation() == old(self).generation() + reconnects_from(events@, 0),
    {
        let ghost orig = events@;
        let ghost gen0 = self.generation@;
        let mut rest = events;
        let mut attempt: usize = 0;
        while attempt < RETRY_ATTEMPTS
            invariant
                attempt <= RETRY_ATTEMPTS,
                orig == events@,
                gen0 == old(self).generation(),
                orig.len() >= RETRY_ATTEMPTS,
                rest@ =~= orig.skip(attempt as int),
                retry_from(orig, 0) == retry_from(orig, attempt as int),
                attempts_from(orig, 0) == attempt + attempts_from(orig, attempt as int),
                reconnects_from(orig, 0) == self.generation@ - gen0 + reconnects_from(
                    orig,
                    attempt as int,
                ),
                self.generation@ >= gen0,
                self.address@ == old(self).address(),
                self.timeout_ms == old(self).timeout_ms(),
            decreases RETRY_ATTEMPTS - attempt,
        {
            let event = rest.remove(0);
            proof {
                assert(event == orig[attempt as int]);
                assert(rest@ =~= orig.skip(attempt as int + 1));
            }
            match event {
                AttemptEvent::Response(t) => {
                    proof {
                        assert(retry_from(orig, attempt as int) == Ok::<T, CallError>(t));
                        assert(attempts_from(orig, attempt as int) == 1);
                        assert(reconnects_from(orig, attempt as int) == 0);
                    }
                    return (Ok(t), attempt + 1);
                },
                AttemptEvent::TimedOut { reconnect } => {
                    // The timeout is logged with its configured value;
                    // then the link is torn down and rebuilt.
                    match reconnect {
                        Ok(()) => {
                            // Wholesale replacement of the link: the old
                            // one is discarded and implicitly closed.
                            self.generation = Ghost(self.generation@ + 1);
                            proof {
                                assert(retry_from(orig, attempt as int) == retry_from(
                                    orig,
                                    attempt as int + 1,
                                ));
                                assert(attempts_from(orig, attempt as int) == 1 + attempts_from(
                                    orig,
                                    attempt as int + 1,
                                ));
                                assert(reconnects_from(orig, attempt as int) == 1
                                    + reconnects_from(orig, attempt as int + 1));
                            }
                        },
                        Err(error) => {
                            proof {
                                assert(retry_from(orig, attempt as int) == Err::<T, CallError>(
                                    CallError::Reconnect(error),
                                ));
                                assert(attempts_from(orig, attempt as int) == 1);
                                assert(reconnects_from(orig, attempt as int) == 0);
                            }
                            return (Err(CallError::Reconnect(error)), attempt + 1);
                        },
                    }
                },
            }
            attempt = attempt + 1;
        }
        (Err(CallError::NotRespondingInTime), RETRY_ATTEMPTS)
    }

    /// Call `protocol` with the retry template and check the answer
    /// against the compiled-in version. Law (advisory mismatch): a
    /// differing server version raises the warning flag but the call
    /// still succeeds with the server's version.
    pub fn protocol(&mut self, events: Vec<AttemptEvent<String>>) -> (r: (
        Result<String, CallError>,
        bool,
    ))
        requires
            events@.len() >= RETRY_ATTEMPTS,
        ensures
            r.0 == retry_from(events@, 0),
            r.1 == match retry_from(events@, 0) {
                Ok(version) => version@ != PROTOCOL_VERSION@,
                Err(e) => false,
            },
            final(self).address() == old(self).address(),
            final(self).timeout_ms() == old(self).timeout_ms(),
    {
        let (outcome, _attempts) = self.run_retry(events);
        match outcome {
            Ok(version) => {
                // A mismatch is advisory: warn, but still succeed.
                let mismatch = !(version == String::from_str(PROTOCOL_VERSION));
                (Ok(version), mismatch)
            },
            Err(e) => (Err(e), false),
        }
    }

    /// Call `ping` with the retry template.
    pub fn ping(&mut self, events: Vec<AttemptEvent<String>>) -> (r: Result<String, CallError>)
        requires
            events@.len() >= RETRY_ATTEMPTS,
        ensures
            r == retry_from(events@, 0),
            final(self).address() == old(self).address(),
            final(self).timeout_ms() == old(self).timeout_ms(),
    {
        let (outcome, _attempts) = self.run_retry(events);
        outcome
    }

    /// Call `login` with the retry template; the issued request carries
    /// the call's arguments onto the wire.
    pub fn login(
        &mut self,
        username_or_email: String,
        password: String,
        remote_address: Option<String>,
        events: Vec<AttemptEvent<Result<Session, SendableError>>>,
    ) -> (r: (Request, Result<Result<Session, SendableError>, CallError>))
        requires
            events@.len() >= RETRY_ATTEMPTS,
        ensures
            r.0@ == (RequestModel::TryLogin {
                username_or_email: username_or_email@,
                password: password@,
                remote_address: view_opt_string(remote_address),
            }),
            r.1 == retry_from(events@, 0),
            final(self).address() == old(self).address(),
            final(self).timeout_ms() == old(self).timeout_ms(),
    {
        let request = Request::TryLogin { username_or_email, password, remote_address };
        let (outcome, _attempts) = self.run_retry(events);
        (request, outcome)
    }

    /// Call `logout` with the retry template.
    pub fn logout(
        &mut self,
        session_id: u64,
        user_id: u64,
        events: Vec<AttemptEvent<Result<(), SendableError>>>,
    ) -> (r: (Request, Result<Result<(), SendableError>, CallError>))
        requires
            events@.len() >= RETRY_ATTEMPTS,
        ensures
            r.0@ == (RequestModel::Logout { session_id, user_id }),
            r.1 == retry_from(events@, 0),
            final(self).address() == old(self).address(),
            final(self).timeout_ms() == old(self).timeout_ms(),
    {
        let request = Request::Logout { session_id, user_id };
        let (outcome, _attempts) = self.run_retry(events);
        (request, outcome)
    }

    /// Call `logout_others` with the retry template.
    pub fn logout_others(
        &mut self,
        session_id: u64,
        user_id: u64,
        events: Vec<AttemptEvent<Result<Vec<Session>, SendableError>>>,
    ) -> (r: (Request, Result<Result<Vec<Session>, SendableError>, CallError>))
        requires
            events@.len() >= RETRY_ATTEMPTS,
        ensures
            r.0@ == (RequestModel::LogoutOthers { session_id, user_id }),
            r.1 == retry_from(events@, 0),
            final(self).address() == old(self).address(),
            final(self).timeout_ms() == old(self).timeout_ms(),
    {
        let request = Request::LogoutOthers { session_id, user_id };
        let (outcome, _attempts) = self.run_retry(events);
        (request, outcome)
    }

    /// Call `check_session` with the retry template.
    pub fn check_session(
        &mut self,
        session_id: u64,
        user_id: u64,
        events: Vec<AttemptEvent<Result<(), SendableError>>>,
    ) -> (r: (Request, Result<Result<(), SendableError>, CallError>))
        requires
            events@.len() >= RETRY_ATTEMPTS,
        ensures
            r.0@ == (RequestModel::CheckSession { session_id, user_id }),
            r.1 == retry_from(events@, 0),
            final(self).address() == old(self).address(),
            final(self).timeout_ms() == old(self).timeout_ms(),
    {
        let request = Request::CheckSession { session_id, user_id };
        let (outcome, _attempts) = self.run_retry(events);
        (request, outcome)
    }

    /// Call `create_user` with the retry template.
    pub fn create_user(
        &mut self,
        name: String,
        email: String,
        password: String,
        events: Vec<AttemptEvent<Result<u64, SendableError>>>,
    ) -> (r: (Request, Result<Result<u64, SendableError>, CallError>))
        requires
            events@.len() >= RETRY_ATTEMPTS,
        ensures
            r.0@ == (RequestModel::CreateUser { name: name@, email: email@, password: password@ }),
            r.1 == retry_from(events@, 0),
            final(self).address() == old(self).address(),
            final(self).timeout_ms() == old(self).timeout_ms(),
    {
        let request = Request::CreateUser { name, email, password };
        let (outcome, _attempts) = self.run_retry(events);
        (request, outcome)
    }

    /// Call `edit_user` with the retry template.
    pub fn edit_user(
        &mut self,
        user_id: u64,
        changes: UserMetadata,
        events: Vec<AttemptEvent<Result<(), SendableError>>>,
    ) -> (r: (Request, Result<Result<(), SendableError>, CallError>))
        requires
            events@.len() >= RETRY_ATTEMPTS,
        ensures
            r.0@ == (RequestModel::EditUser { user_id, changes: changes@ }),
            r.1 == retry_from(events@, 0),
            final(self).address() == old(self).address(),
            final(self).timeout_ms() == old(self).timeout_ms(),
    {
        let request = Request::EditUser { user_id, changes };
        let (outcome, _attempts) = self.run_retry(events);
        (request, outcome)
    }

    /// Call `get_user_from_id` with the retry template.
    pub fn get_user_from_id(
        &mut self,
        user_id: u64,
        events: Vec<AttemptEvent<Result<Option<User>, SendableError>>>,
    ) -> (r: (Request, Result<Result<Option<User>, SendableError>, CallError>))
        requires
            events@.len() >= RETRY_ATTEMPTS,
        ensures
            r.0@ == (RequestModel::GetUserFromId { user_id }),
            r.1 == retry_from(events@, 0),
            final(self).address() == old(self).address(),
            final(self).timeout_ms() == old(self).timeout_ms(),
    {
        let request = Request::GetUserFromId { user_id };
        let (outcome, _attempts) = self.run_retry(events);
        (request, outcome)
    }

    /// Call `get_users_from_ids` with the retry template.
    pub fn get_users_from_ids(
        &mut self,
        user_ids: Vec<u64>,
        events: Vec<AttemptEvent<Result<Vec<Option<User>>, SendableError>>>,
    ) -> (r: (Request, Result<Result<Vec<Option<User>>, SendableError>, CallError>))
        requires
            events@.len() >= RETRY_ATTEMPTS,
        ensures
            r.0@ == (RequestModel::GetUsersFromIds { user_ids: user_ids@ }),
            r.1 == retry_from(events@, 0),
            final(self).address() == old(self).address(),
            final(self).timeout_ms() == old(self).timeout_ms(),
    {
        let request = Request::GetUsersFromIds { user_ids };
        let (outcome, _attempts) = self.run_retry(events);
        (request, outcome)
    }

    /// Call `get_user_from_name` with the retry template.
    pub fn get_user_from_name(
        &mut self,
        name: String,
        events: Vec<AttemptEvent<Result<Option<User>, SendableError>>>,
    ) -> (r: (Request, Result<Result<Option<User>, SendableError>, CallError>))
        requires
            events@.len() >= RETRY_ATTEMPTS,
        ensures
            r.0@ == (RequestModel::GetUserFromName { name: name@ }),
            r.1 == retry_from(events@, 0),
            final(self).address() == old(self).address(),
            final(self).timeout_ms() == old(self).timeout_ms(),
    {
        let request = Request::GetUserFromName { name };
        let (outcome, _attempts) = self.run_retry(events);
        (request, outcome)
    }

    /// Call `get_user_from_email` with the retry template.
    pub fn get_user_from_email(
        &mut self,
        email: String,
        events: Vec<AttemptEvent<Result<Option<User>, SendableError>>>,
    ) -> (r: (Request, Result<Result<Option<User>, SendableError>, CallError>))
        requires
            events@.len() >= RETRY_ATTEMPTS,
        ensures
            r.0@ == (RequestModel::GetUserFromEmail { email: email@ }),
            r.1 == retry_from(events@, 0),
            final(self).address() == old(self).address(),
            final(self).timeout_ms() == old(self).timeout_ms(),
    {
        let request = Request::GetUserFromEmail { email };
        let (outcome, _attempts) = self.run_retry(events);
        (request, outcome)
    }
}

} // verus!
