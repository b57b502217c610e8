//! The dispatcher actor: the single consumer of the dispatcher queue and
//! the sole owner of the backend store.
//!
//! Every backend mutation happens here and only here, one envelope at a
//! time, so backend operations are serialized: they take effect in the
//! order the calls were enqueued, never concurrently. Each consumed
//! envelope gets exactly one reply sent into its slot; if the submitter
//! abandoned the slot the computed result is discarded, never retried and
//! never re-queued, while the backend mutation it produced stands — a
//! caller's disappearance does not roll work back. A queue that reports
//! itself disconnected while the
//! actor still runs is a protocol-invariant violation: the actor stops
//! with [`RunOutcome::Disconnected`] and the surrounding process is
//! expected to terminate abnormally.

use vstd::prelude::*;

use crate::api::{Reply, Request, RequestModel};
use crate::backend::{apply_request, reply_for, Backend, StoreModel};
use crate::envelope::{Envelope, EnvelopeModel, SlotModel};
use crate::queue::{DispatcherQueue, Polled};

verus! {

/// The requests of a queue's envelopes, in queue (arrival) order.
pub open spec fn requests_of(entries: Seq<EnvelopeModel>) -> Seq<RequestModel> {
    entries.map_values(|e: EnvelopeModel| e.request)
}

/// The store after a sequence of requests, applied front to back: the
/// meaning of serialized, in-order execution.
pub open spec fn run_all(m: StoreModel, reqs: Seq<RequestModel>) -> StoreModel
    decreases reqs.len(),
{
    if reqs.len() == 0 {
        m
    } else {
        run_all(apply_request(m, reqs[0]), reqs.drop_first())
    }
}

/// Appending one request to a run executes it last.
pub proof fn lemma_run_all_snoc(m: StoreModel, reqs: Seq<RequestModel>, r: RequestModel)
    ensures
        run_all(m, reqs.push(r)) == apply_request(run_all(m, reqs), r),
    decreases reqs.len(),
{
    if reqs.len() == 0 {
        assert(reqs.push(r)[0] == r);
        assert(reqs.push(r).drop_first() =~= Seq::<RequestModel>::empty());
        assert(run_all(m, reqs.push(r)) == run_all(
            apply_request(m, r),
            Seq::<RequestModel>::empty(),
        ));
        assert(run_all(apply_request(m, r), Seq::<RequestModel>::empty()) == apply_request(m, r));
        assert(run_all(m, reqs) == m);
    } else {
        assert(reqs.push(r)[0] == reqs[0]);
        assert(reqs.push(r).drop_first() =~= reqs.drop_first().push(r));
        assert(run_all(m, reqs.push(r)) == run_all(
            apply_request(m, reqs[0]),
            reqs.drop_first().push(r),
        ));
        lemma_run_all_snoc(apply_request(m, reqs[0]), reqs.drop_first(), r);
        assert(run_all(m, reqs) == run_all(apply_request(m, reqs[0]), reqs.drop_first()));
    }
}

/// How a full drain of the queue ended.
#[derive(Clone, Copy, PartialEq, Eq, Structural, Debug)]
pub enum RunOutcome {
    /// The queue is empty and still open: wait for the next arrival.
    Idle,
    /// The queue is empty and closed while the actor still runs: fatal, a
    /// protocol-invariant violation.
    Disconnected,
}

/// What one polling step produced.
pub enum Step {
    /// One envelope was consumed, executed, and answered.
    Served(Envelope),
    /// Nothing queued; producers still alive.
    Idle,
    /// Nothing queued and the producing side is gone.
    Disconnected,
}

/// The dispatcher actor: exclusive owner of the backend store.
pub struct Dispatcher {
    backend: Backend,
}

impl View for Dispatcher {
    type V = StoreModel;

    closed spec fn view(&self) -> StoreModel {
        self.backend@
    }
}

impl Dispatcher {
    /// Take exclusive ownership of a backend store.
    pub fn new(backend: Backend) -> (r: Self)
        ensures
            r@ == backend@,
    {
        Dispatcher { backend }
    }

    /// Execute one request against the backend and produce its reply.
    pub fn execute(&mut self, request: &Request) -> (r: Reply)
        ensures
            final(self)@ == apply_request(old(self)@, request@),
            r@ == reply_for(old(self)@, request@),
    {
        match request {
            Request::Ping => Reply::Unit(self.backend.ping()),
            Request::TryLogin { username_or_email, password, remote_address } => Reply::NewSession(
                self.backend.try_login(username_or_email, password, remote_address),
            ),
            Request::CheckSession { session_id, user_id } => Reply::Unit(
                self.backend.check_session(*session_id, *user_id),
            ),
            Request::Logout { session_id, user_id } => Reply::Unit(
                self.backend.end_session(*session_id, *user_id),
            ),
            Request::LogoutOthers { session_id, user_id } => Reply::Sessions(
                self.backend.end_other_sessions(*session_id, *user_id),
            ),
            Request::CreateUser { name, email, password } => Reply::UserId(
                self.backend.create_user(name, email, password),
            ),
            Request::EditUser { user_id, changes } => Reply::Unit(
                self.backend.edit_user(*user_id, changes),
            ),
            Request::GetUserFromId { user_id } => Reply::MaybeUser(
                self.backend.get_user_from_id(*user_id),
            ),
            Request::GetUsersFromIds { user_ids } => Reply::MaybeUsers(
                self.backend.get_users_from_ids(user_ids),
            ),
            Request::GetUserFromName { name } => Reply::MaybeUser(
                self.backend.get_user_from_name(name),
            ),
            Request::GetUserFromEmail { email } => Reply::MaybeUser(
                self.backend.get_user_from_email(email),
            ),
        }
    }

    /// Consume at most one envelope from the queue: execute its request
    /// and send exactly one reply into its slot, or report why nothing
    /// could be consumed.
    pub fn step(&mut self, queue: &mut DispatcherQueue) -> (r: Step)
        ensures
            old(queue)@.len() > 0 ==> ({
                let head = old(queue)@[0];
                &&& r matches Step::Served(env)
                &&& env@.request == head.request
                &&& final(self)@ == apply_request(old(self)@, head.request)
                &&& head.slot is Awaiting ==> env@.slot == SlotModel::Filled(
                    reply_for(old(self)@, head.request),
                )
                &&& head.slot is Abandoned ==> env@.slot is Abandoned
                &&& final(queue)@ == old(queue)@.drop_first()
            }),
            old(queue)@.len() == 0 ==> final(self)@ == old(self)@ && final(queue)@ == old(
                queue,
            )@ && (if old(queue).is_closed() {
                r is Disconnected
            } else {
                r is Idle
            }),
            final(queue).is_closed() == old(queue).is_closed(),
    {
        match queue.poll() {
            Polled::Entry(mut env) => {
                let reply = self.execute(env.request());
                let _delivery = env.respond(reply);
                Step::Served(env)
            },
            Polled::Empty => Step::Idle,
            Polled::Disconnected => Step::Disconnected,
        }
    }

    /// Law: serialized, in-order execution. Drain the queue completely:
    /// envelopes are consumed one at a time in arrival order, so the
    /// resulting store is the in-order run of all queued requests, and
    /// the `i`-th envelope's reply is computed on the store produced by
    /// exactly the requests queued before it — no interleaving, no
    /// reordering. Each envelope comes back answered exactly once, or
    /// still abandoned if its submitter went away. The outcome says
    /// whether the actor should wait for more work or whether the queue
    /// was torn down under it.
    pub fn run(&mut self, queue: &mut DispatcherQueue) -> (r: (Vec<Envelope>, RunOutcome))
        ensures
            ({
                let entries = old(queue)@;
                let served = r.0;
                &&& final(self)@ == run_all(old(self)@, requests_of(entries))
                &&& served@.len() == entries.len()
                &&& forall|i: int|
                    0 <= i < entries.len() ==> (#[trigger] served@[i])@.request
                        == entries[i].request
                &&& forall|i: int|
                    0 <= i < entries.len() ==> ((#[trigger] entries[i]).slot is Awaiting
                        ==> served@[i]@.slot == SlotModel::Filled(
                        reply_for(run_all(old(self)@, requests_of(entries.take(i))), entries[i].request),
                    ))
                &&& forall|i: int|
                    0 <= i < entries.len() ==> ((#[trigger] entries[i]).slot is Abandoned
                        ==> served@[i]@.slot is Abandoned)
                &&& final(queue)@.len() == 0
                &&& r.1 == (if old(queue).is_closed() {
                    RunOutcome::Disconnected
                } else {
                    RunOutcome::Idle
                })
            }),
    {
        let ghost m0 = self@;
        let ghost entries = queue@;
        let mut served: Vec<Envelope> = Vec::new();
        while queue.len() > 0
            invariant
                served@.len() <= entries.len(),
                queue@ =~= entries.skip(served@.len() as int),
                queue.is_closed() == old(queue).is_closed(),
                self@ == run_all(m0, requests_of(entries.take(served@.len() as int))),
                forall|i: int|
                    0 <= i < served@.len() ==> (#[trigger] served@[i])@.request
                        == entries[i].request,
                forall|i: int|
                    0 <= i < served@.len() ==> ((#[trigger] entries[i]).slot is Awaiting
                        ==> served@[i]@.slot == SlotModel::Filled(
                        reply_for(run_all(m0, requests_of(entries.take(i))), entries[i].request),
                    )),
                forall|i: int|
                    0 <= i < served@.len() ==> ((#[trigger] entries[i]).slot is Abandoned
                        ==> served@[i]@.slot is Abandoned),
            decreases entries.len() - served@.len(),
        {
            let ghost i = served@.len() as int;
            proof {
                assert(queue@[0] == entries[i]);
                assert(requests_of(entries.take(i + 1)) =~= requests_of(entries.take(i)).push(
                    entries[i].request,
                ));
                lemma_run_all_snoc(m0, requests_of(entries.take(i)), entries[i].request);
            }
            match self.step(queue) {
                Step::Served(env) => {
                    served.push(env);
                    proof {
                        assert(queue@ =~= entries.skip(i + 1));
                    }
                },
                Step::Idle => {
                    proof {
                        assert(false);
                    }
                },
                Step::Disconnected => {
                    proof {
                        assert(false);
                    }
                },
            }
        }
        proof {
            assert(entries.take(entries.len() as int) =~= entries);
        }
        let outcome = match queue.poll() {
            Polled::Entry(_) => unreached(),
            Polled::Empty => RunOutcome::Idle,
            Polled::Disconnected => RunOutcome::Disconnected,
        };
        (served, outcome)
    }
}

} // verus!
