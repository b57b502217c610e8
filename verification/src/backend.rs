//! The backend store the dispatcher serializes access to.
//!
//! The backend engine proper is an external collaborator; this module
//! models the slice of it the call contract touches — accounts and login
//! sessions — as an in-memory store with one operation per forwarded
//! method. The mathematical model is [`StoreModel`]; every operation's
//! contract says exactly which store it leaves behind and which reply it
//! returns, via [`apply_request`] and [`reply_for`].
//!
//! Identifier scheme: user ids are indices into the account sequence and
//! session ids are indices into the session sequence; sessions are never
//! removed, only deactivated, so ids are never reissued.

use vstd::prelude::*;

use crate::api::{view_opt_user, ReplyModel, RequestModel};
use crate::types::{
    view_opt_string, BackendError, Session, User, UserMetadata, UserMetadataModel, UserModel,
};

verus! {

/// Model of one stored account: the visible user record plus its password.
pub struct AccountModel {
    pub user: UserModel,
    pub password: Seq<char>,
}

/// One stored session: the session record plus whether it is still live.
#[derive(Clone, Copy, PartialEq, Eq, Structural, Debug)]
pub struct SessionState {
    pub session: Session,
    pub active: bool,
}

/// Mathematical model of the whole store.
pub struct StoreModel {
    pub accounts: Seq<AccountModel>,
    pub sessions: Seq<SessionState>,
}

/// Internal invariant of the store: every record's id is its index, so
/// ids are dense, unique, and never reissued.
pub open spec fn store_inv(m: StoreModel) -> bool {
    &&& forall|i: int| 0 <= i < m.accounts.len() ==> (#[trigger] m.accounts[i]).user.id == i as u64
    &&& forall|j: int|
        0 <= j < m.sessions.len() ==> (#[trigger] m.sessions[j]).session.session_id == j as u64
}

/// Which field a textual account lookup matches on.
#[derive(Clone, Copy, PartialEq, Eq, Structural, Debug)]
pub enum LookupKind {
    /// Either the user name or the email address (login).
    NameOrEmail,
    /// The user name only.
    ByName,
    /// The email address only.
    ByEmail,
}

/// Whether one account matches a textual key under the given lookup kind.
pub open spec fn account_matches(a: AccountModel, key: Seq<char>, kind: LookupKind) -> bool {
    match kind {
        LookupKind::NameOrEmail => a.user.name == key || a.user.email == key,
        LookupKind::ByName => a.user.name == key,
        LookupKind::ByEmail => a.user.email == key,
    }
}

/// Index of the first account matching the key, scanning front to back.
pub open spec fn find_first(accounts: Seq<AccountModel>, key: Seq<char>, kind: LookupKind) -> Option<
    int,
>
    decreases accounts.len(),
{
    if accounts.len() == 0 {
        None
    } else if account_matches(accounts[0], key, kind) {
        Some(0)
    } else {
        match find_first(accounts.drop_first(), key, kind) {
            Some(i) => Some(i + 1),
            None => None,
        }
    }
}

/// What [`find_first`] returns is the first match: in range, matching,
/// with nothing matching before it; `None` means nothing matches at all.
pub proof fn lemma_find_first_spec(accounts: Seq<AccountModel>, key: Seq<char>, kind: LookupKind)
    ensures
        match find_first(accounts, key, kind) {
            Some(i) => 0 <= i < accounts.len() && account_matches(accounts[i], key, kind)
                && forall|j: int|
                0 <= j < i ==> !account_matches(#[trigger] accounts[j], key, kind),
            None => forall|j: int|
                0 <= j < accounts.len() ==> !account_matches(#[trigger] accounts[j], key, kind),
        },
    decreases accounts.len(),
{
    if accounts.len() > 0 && !account_matches(accounts[0], key, kind) {
        let rest = accounts.drop_first();
        lemma_find_first_spec(rest, key, kind);
        assert(forall|j: int| 0 <= j < rest.len() ==> rest[j] == accounts[j + 1]);
        match find_first(rest, key, kind) {
            Some(i) => {
                assert(account_matches(accounts[i + 1], key, kind));
                assert forall|j: int| 0 <= j < i + 1 implies !account_matches(
                    #[trigger] accounts[j],
                    key,
                    kind,
                ) by {
                    if j > 0 {
                        assert(accounts[j] == rest[j - 1]);
                    }
                }
            },
            None => {
                assert forall|j: int| 0 <= j < accounts.len() implies !account_matches(
                    #[trigger] accounts[j],
                    key,
                    kind,
                ) by {
                    if j > 0 {
                        assert(accounts[j] == rest[j - 1]);
                    }
                }
            },
        }
    }
}

/// Conversely, the first matching index is what [`find_first`] returns.
pub proof fn lemma_find_first_complete(
    accounts: Seq<AccountModel>,
    key: Seq<char>,
    kind: LookupKind,
    i: int,
)
    requires
        0 <= i < accounts.len(),
        account_matches(accounts[i], key, kind),
        forall|j: int| 0 <= j < i ==> !account_matches(#[trigger] accounts[j], key, kind),
    ensures
        find_first(accounts, key, kind) == Some(i),
    decreases i,
{
    if i > 0 {
        assert(forall|j: int|
            0 <= j < accounts.drop_first().len() ==> accounts.drop_first()[j] == accounts[j + 1]);
        lemma_find_first_complete(accounts.drop_first(), key, kind, i - 1);
    }
}

/// Whether the named session exists, is still active, and belongs to the
/// named user.
pub open spec fn session_valid(m: StoreModel, session_id: u64, user_id: u64) -> bool {
    &&& (session_id as int) < m.sessions.len()
    &&& m.sessions[session_id as int].active
    &&& m.sessions[session_id as int].session.user_id == user_id
}

/// The user record behind an id, if the id was ever issued.
pub open spec fn lookup_user(m: StoreModel, user_id: u64) -> Option<UserModel> {
    if (user_id as int) < m.accounts.len() {
        Some(m.accounts[user_id as int].user)
    } else {
        None
    }
}

/// Whether session `j` must be ended by a `LogoutOthers` call for
/// `user_id` issued from session `session_id`.
pub open spec fn ends_other(s: SessionState, j: int, session_id: u64, user_id: u64) -> bool {
    j != session_id as int && s.active && s.session.user_id == user_id
}

/// The session sequence after a `LogoutOthers`: every other active
/// session of the user is deactivated, everything else is untouched.
pub open spec fn deactivate_others(
    sessions: Seq<SessionState>,
    session_id: u64,
    user_id: u64,
) -> Seq<SessionState> {
    Seq::new(
        sessions.len(),
        |j: int|
            if ends_other(sessions[j], j, session_id, user_id) {
                SessionState { session: sessions[j].session, active: false }
            } else {
                sessions[j]
            },
    )
}

/// The sessions a `LogoutOthers` reports back: the ones it ended, in
/// index order.
pub open spec fn others_logged_out(
    sessions: Seq<SessionState>,
    session_id: u64,
    user_id: u64,
) -> Seq<Session>
    decreases sessions.len(),
{
    if sessions.len() == 0 {
        Seq::empty()
    } else {
        let j = sessions.len() - 1;
        let prefix = others_logged_out(sessions.drop_last(), session_id, user_id);
        if ends_other(sessions[j], j, session_id, user_id) {
            prefix.push(sessions[j].session)
        } else {
            prefix
        }
    }
}

/// An account after a metadata edit: `Some` fields replace, `None` fields
/// keep; the id never changes.
pub open spec fn apply_edit(a: AccountModel, changes: UserMetadataModel) -> AccountModel {
    AccountModel {
        user: UserModel {
            id: a.user.id,
            name: match changes.name {
                Some(n) => n,
                None => a.user.name,
            },
            email: match changes.email {
                Some(e) => e,
                None => a.user.email,
            },
        },
        password: match changes.password {
            Some(p) => p,
            None => a.password,
        },
    }
}

/// Whether a login with these credentials succeeds: the first account
/// matching the name-or-email key must carry the given password.
pub open spec fn login_match(m: StoreModel, username_or_email: Seq<char>, password: Seq<char>) -> Option<
    int,
> {
    match find_first(m.accounts, username_or_email, LookupKind::NameOrEmail) {
        Some(i) => if m.accounts[i].password == password {
            Some(i)
        } else {
            None
        },
        None => None,
    }
}

/// The session a successful login on store `m` hands out.
pub open spec fn issued_session(m: StoreModel, account_index: int) -> Session {
    Session {
        session_id: m.sessions.len() as u64,
        user_id: m.accounts[account_index].user.id,
    }
}

/// The store after one backend operation.
pub open spec fn apply_request(m: StoreModel, r: RequestModel) -> StoreModel {
    match r {
        RequestModel::TryLogin { username_or_email, password, .. } => {
            match login_match(m, username_or_email, password) {
                Some(i) => StoreModel {
                    accounts: m.accounts,
                    sessions: m.sessions.push(
                        SessionState { session: issued_session(m, i), active: true },
                    ),
                },
                None => m,
            }
        },
        RequestModel::Logout { session_id, user_id } => {
            if session_valid(m, session_id, user_id) {
                StoreModel {
                    accounts: m.accounts,
                    sessions: m.sessions.update(
                        session_id as int,
                        SessionState { session: m.sessions[session_id as int].session, active: false },
                    ),
                }
            } else {
                m
            }
        },
        RequestModel::LogoutOthers { session_id, user_id } => {
            if session_valid(m, session_id, user_id) {
                StoreModel {
                    accounts: m.accounts,
                    sessions: deactivate_others(m.sessions, session_id, user_id),
                }
            } else {
                m
            }
        },
        RequestModel::CreateUser { name, email, password } => StoreModel {
            accounts: m.accounts.push(
                AccountModel {
                    user: UserModel { id: m.accounts.len() as u64, name, email },
                    password,
                },
            ),
            sessions: m.sessions,
        },
        RequestModel::EditUser { user_id, changes } => {
            if (user_id as int) < m.accounts.len() {
                StoreModel {
                    accounts: m.accounts.update(
                        user_id as int,
                        apply_edit(m.accounts[user_id as int], changes),
                    ),
                    sessions: m.sessions,
                }
            } else {
                m
            }
        },
        _ => m,
    }
}

/// The reply one backend operation sends back, computed on the store it
/// was applied to.
pub open spec fn reply_for(m: StoreModel, r: RequestModel) -> ReplyModel {
    match r {
        RequestModel::Ping => ReplyModel::Unit(Ok(())),
        RequestModel::TryLogin { username_or_email, password, .. } => ReplyModel::NewSession(
            match login_match(m, username_or_email, password) {
                Some(i) => Ok(issued_session(m, i)),
                None => Err(BackendError::InvalidCredentials),
            },
        ),
        RequestModel::CheckSession { session_id, user_id } => ReplyModel::Unit(
            if session_valid(m, session_id, user_id) {
                Ok(())
            } else {
                Err(BackendError::InvalidSession)
            },
        ),
        RequestModel::Logout { session_id, user_id } => ReplyModel::Unit(
            if session_valid(m, session_id, user_id) {
                Ok(())
            } else {
                Err(BackendError::InvalidSession)
            },
        ),
        RequestModel::LogoutOthers { session_id, user_id } => ReplyModel::Sessions(
            if session_valid(m, session_id, user_id) {
                Ok(others_logged_out(m.sessions, session_id, user_id))
            } else {
                Err(BackendError::InvalidSession)
            },
        ),
        RequestModel::CreateUser { .. } => ReplyModel::UserId(Ok(m.accounts.len() as u64)),
        RequestModel::EditUser { user_id, .. } => ReplyModel::Unit(
            if (user_id as int) < m.accounts.len() {
                Ok(())
            } else {
                Err(BackendError::UserNotFound)
            },
        ),
        RequestModel::GetUserFromId { user_id } => ReplyModel::MaybeUser(Ok(lookup_user(m, user_id))),
        RequestModel::GetUsersFromIds { user_ids } => ReplyModel::MaybeUsers(
            Ok(user_ids.map_values(|id: u64| lookup_user(m, id))),
        ),
        RequestModel::GetUserFromName { name } => ReplyModel::MaybeUser(
            Ok(
                match find_first(m.accounts, name, LookupKind::ByName) {
                    Some(i) => Some(m.accounts[i].user),
                    None => None,
                },
            ),
        ),
        RequestModel::GetUserFromEmail { email } => ReplyModel::MaybeUser(
            Ok(
                match find_first(m.accounts, email, LookupKind::ByEmail) {
                    Some(i) => Some(m.accounts[i].user),
                    None => None,
                },
            ),
        ),
    }
}

/// One stored account: the visible user record plus its password.
pub struct Account {
    pub user: User,
    pub password: String,
}

impl View for Account {
    type V = AccountModel;

    open spec fn view(&self) -> AccountModel {
        AccountModel { user: self.user@, password: self.password@ }
    }
}

/// The in-memory store itself: accounts and sessions, exclusively owned
/// and mutated by the dispatcher actor.
pub struct Backend {
    accounts: Vec<Account>,
    sessions: Vec<SessionState>,
}

impl View for Backend {
    type V = StoreModel;

    closed spec fn view(&self) -> StoreModel {
        StoreModel {
            accounts: self.accounts@.map_values(|a: Account| a@),
            sessions: self.sessions@,
        }
    }
}

/// Scan for the first account matching the key under the given kind.
fn find_account(accounts: &Vec<Account>, key: &String, kind: LookupKind) -> (r: Option<usize>)
    ensures
        ({
            let m = accounts@.map_values(|a: Account| a@);
            match r {
                Some(i) => i < accounts@.len() && find_first(m, key@, kind) == Some(i as int)
                    && account_matches(m[i as int], key@, kind),
                None => find_first(m, key@, kind) is None,
            }
        }),
{
    let ghost m = accounts@.map_values(|a: Account| a@);
    let mut i: usize = 0;
    while i < accounts.len()
        invariant
            i <= accounts@.len(),
            m == accounts@.map_values(|a: Account| a@),
            forall|j: int| 0 <= j < i ==> !account_matches(#[trigger] m[j], key@, kind),
        decreases accounts@.len() - i,
    {
        let a = &accounts[i];
        let matched = match kind {
            LookupKind::NameOrEmail => a.user.name == *key || a.user.email == *key,
            LookupKind::ByName => a.user.name == *key,
            LookupKind::ByEmail => a.user.email == *key,
        };
        if matched {
            proof {
                lemma_find_first_complete(m, key@, kind, i as int);
            }
            return Some(i);
        }
        i += 1;
    }
    proof {
        lemma_find_first_spec(m, key@, kind);
    }
    None
}

impl Backend {
    /// An empty store: no accounts, no sessions.
    pub fn new() -> (r: Self)
        ensures
            r@.accounts == Seq::<AccountModel>::empty(),
            r@.sessions == Seq::<SessionState>::empty(),
            store_inv(r@),
    {
        let b = Backend { accounts: Vec::new(), sessions: Vec::new() };
        proof {
            assert(b@.accounts =~= Seq::<AccountModel>::empty());
        }
        b
    }

    /// Liveness probe; touches no state.
    pub fn ping(&self) -> (r: Result<(), BackendError>)
        ensures
            ReplyModel::Unit(r) == reply_for(self@, RequestModel::Ping),
    {
        Ok(())
    }

    /// Attempt a login: the first account matching the name-or-email key
    /// must carry the given password; on success a fresh active session
    /// is issued, otherwise the store is untouched and the credentials
    /// are refused. The remote address is advisory and does not affect
    /// the outcome.
    #[allow(unused_variables)]
    pub fn try_login(
        &mut self,
        username_or_email: &String,
        password: &String,
        remote_address: &Option<String>,
    ) -> (r: Result<Session, BackendError>)
        ensures
            ({
                let req = RequestModel::TryLogin {
                    username_or_email: username_or_email@,
                    password: password@,
                    remote_address: view_opt_string(*remote_address),
                };
                &&& final(self)@ == apply_request(old(self)@, req)
                &&& ReplyModel::NewSession(r) == reply_for(old(self)@, req)
            }),
    {
        match find_account(&self.accounts, username_or_email, LookupKind::NameOrEmail) {
            Some(i) => {
                if self.accounts[i].password == *password {
                    let session = Session {
                        session_id: self.sessions.len() as u64,
                        user_id: self.accounts[i].user.id,
                    };
                    self.sessions.push(SessionState { session, active: true });
                    Ok(session)
                } else {
                    Err(BackendError::InvalidCredentials)
                }
            },
            None => Err(BackendError::InvalidCredentials),
        }
    }

    /// Whether the named session exists, is active, and belongs to the
    /// named user.
    fn session_ok(&self, session_id: u64, user_id: u64) -> (r: bool)
        ensures
            r == session_valid(self@, session_id, user_id),
    {
        if session_id < self.sessions.len() as u64 {
            let s = self.sessions[session_id as usize];
            s.active && s.session.user_id == user_id
        } else {
            false
        }
    }

    /// Validate a session without touching it.
    pub fn check_session(&self, session_id: u64, user_id: u64) -> (r: Result<(), BackendError>)
        ensures
            ReplyModel::Unit(r) == reply_for(
                self@,
                RequestModel::CheckSession { session_id, user_id },
            ),
    {
        if self.session_ok(session_id, user_id) {
            Ok(())
        } else {
            Err(BackendError::InvalidSession)
        }
    }

    /// End one session: it must exist, be active, and belong to the user;
    /// it is deactivated in place and its id is never reissued.
    pub fn end_session(&mut self, session_id: u64, user_id: u64) -> (r: Result<(), BackendError>)
        ensures
            ({
                let req = RequestModel::Logout { session_id, user_id };
                &&& final(self)@ == apply_request(old(self)@, req)
                &&& ReplyModel::Unit(r) == reply_for(old(self)@, req)
            }),
    {
        if self.session_ok(session_id, user_id) {
            let n = self.sessions.len();
            proof {
                assert(session_id < n as u64);
            }
            let j = session_id as usize;
            let s = self.sessions[j];
            self.sessions[j] = SessionState { session: s.session, active: false };
            Ok(())
        } else {
            Err(BackendError::InvalidSession)
        }
    }

    /// End every other active session of the user, reporting the ended
    /// sessions in index order; the issuing session itself stays live.
    pub fn end_other_sessions(&mut self, session_id: u64, user_id: u64) -> (r: Result<
        Vec<Session>,
        BackendError,
    >)
        ensures
            ({
                let req = RequestModel::LogoutOthers { session_id, user_id };
                &&& final(self)@ == apply_request(old(self)@, req)
                &&& ReplyModel::Sessions(
                    match r {
                        Ok(v) => Ok(v@),
                        Err(e) => Err(e),
                    },
                ) == reply_for(old(self)@, req)
            }),
    {
        if !self.session_ok(session_id, user_id) {
            return Err(BackendError::InvalidSession);
        }
        let n = self.sessions.len();
        proof {
            assert(session_id < n as u64);
        }
        let sid = session_id as usize;
        let ghost orig = self.sessions@;
        let ghost accounts0 = self.accounts@;
        let mut ended: Vec<Session> = Vec::new();
        let mut j: usize = 0;
        while j < self.sessions.len()
            invariant
                self.accounts@ == accounts0,
                self.sessions@.len() == orig.len(),
                j <= orig.len(),
                sid == session_id as int,
                forall|k: int|
                    0 <= k < j ==> self.sessions@[k] == deactivate_others(
                        orig,
                        session_id,
                        user_id,
                    )[k],
                forall|k: int| j <= k < orig.len() ==> self.sessions@[k] == orig[k],
                ended@ == others_logged_out(orig.take(j as int), session_id, user_id),
            decreases orig.len() - j,
        {
            let s = self.sessions[j];
            if j != sid && s.active && s.session.user_id == user_id {
                ended.push(s.session);
                self.sessions[j] = SessionState { session: s.session, active: false };
            }
            proof {
                assert(orig.take(j as int + 1).drop_last() =~= orig.take(j as int));
                assert(orig.take(j as int + 1).last() == orig[j as int]);
            }
            j += 1;
        }
        proof {
            assert(orig.take(orig.len() as int) =~= orig);
            assert(self.sessions@ =~= deactivate_others(orig, session_id, user_id));
        }
        Ok(ended)
    }

    /// Create a user with a fresh id (the next index); always succeeds.
    pub fn create_user(&mut self, name: &String, email: &String, password: &String) -> (r: Result<
        u64,
        BackendError,
    >)
        ensures
            ({
                let req = RequestModel::CreateUser {
                    name: name@,
                    email: email@,
                    password: password@,
                };
                &&& final(self)@ == apply_request(old(self)@, req)
                &&& ReplyModel::UserId(r) == reply_for(old(self)@, req)
            }),
    {
        let id = self.accounts.len() as u64;
        self.accounts.push(
            Account {
                user: User { id, name: name.clone(), email: email.clone() },
                password: password.clone(),
            },
        );
        proof {
            assert(self@.accounts =~= old(self)@.accounts.push(
                AccountModel {
                    user: UserModel { id, name: name@, email: email@ },
                    password: password@,
                },
            ));
        }
        Ok(id)
    }

    /// Apply a metadata edit to an existing user: `Some` fields replace,
    /// `None` fields keep; an unknown id is refused.
    pub fn edit_user(&mut self, user_id: u64, changes: &UserMetadata) -> (r: Result<
        (),
        BackendError,
    >)
        ensures
            ({
                let req = RequestModel::EditUser { user_id, changes: changes@ };
                &&& final(self)@ == apply_request(old(self)@, req)
                &&& ReplyModel::Unit(r) == reply_for(old(self)@, req)
            }),
    {
        if user_id < self.accounts.len() as u64 {
            let i = user_id as usize;
            let name = match &changes.name {
                Some(n) => n.clone(),
                None => self.accounts[i].user.name.clone(),
            };
            let email = match &changes.email {
                Some(e) => e.clone(),
                None => self.accounts[i].user.email.clone(),
            };
            let password = match &changes.password {
                Some(p) => p.clone(),
                None => self.accounts[i].password.clone(),
            };
            let id = self.accounts[i].user.id;
            self.accounts[i] = Account { user: User { id, name, email }, password };
            proof {
                assert(self@.accounts =~= old(self)@.accounts.update(
                    user_id as int,
                    apply_edit(old(self)@.accounts[user_id as int], changes@),
                ));
            }
            Ok(())
        } else {
            Err(BackendError::UserNotFound)
        }
    }

    /// The user record behind an id, if the id was ever issued.
    fn lookup(&self, user_id: u64) -> (r: Option<User>)
        ensures
            view_opt_user(r) == lookup_user(self@, user_id),
    {
        if user_id < self.accounts.len() as u64 {
            Some(self.accounts[user_id as usize].user.clone())
        } else {
            None
        }
    }

    /// Fetch a user by id; a never-issued id yields an empty result, not
    /// an error.
    pub fn get_user_from_id(&self, user_id: u64) -> (r: Result<Option<User>, BackendError>)
        ensures
            ({
                let wrapped = match r {
                    Ok(u) => Ok(view_opt_user(u)),
                    Err(e) => Err(e),
                };
                ReplyModel::MaybeUser(wrapped) == reply_for(
                    self@,
                    RequestModel::GetUserFromId { user_id },
                )
            }),
    {
        Ok(self.lookup(user_id))
    }

    /// Fetch many users at once: the answer has one entry per requested
    /// id, in request order, empty where the id was never issued.
    pub fn get_users_from_ids(&self, user_ids: &Vec<u64>) -> (r: Result<
        Vec<Option<User>>,
        BackendError,
    >)
        ensures
            ({
                let wrapped = match r {
                    Ok(v) => Ok(v@.map_values(|u: Option<User>| view_opt_user(u))),
                    Err(e) => Err(e),
                };
                ReplyModel::MaybeUsers(wrapped) == reply_for(
                    self@,
                    RequestModel::GetUsersFromIds { user_ids: user_ids@ },
                )
            }),
    {
        let mut out: Vec<Option<User>> = Vec::new();
        let mut k: usize = 0;
        while k < user_ids.len()
            invariant
                k <= user_ids@.len(),
                out@.len() == k,
                forall|t: int|
                    0 <= t < k ==> view_opt_user(#[trigger] out@[t]) == lookup_user(
                        self@,
                        user_ids@[t],
                    ),
            decreases user_ids@.len() - k,
        {
            out.push(self.lookup(user_ids[k]));
            k += 1;
        }
        proof {
            assert(out@.map_values(|u: Option<User>| view_opt_user(u)) =~= user_ids@.map_values(
                |id: u64| lookup_user(self@, id),
            ));
        }
        Ok(out)
    }

    /// Fetch the first user whose name is exactly the given one.
    pub fn get_user_from_name(&self, name: &String) -> (r: Result<Option<User>, BackendError>)
        ensures
            ({
                let wrapped = match r {
                    Ok(u) => Ok(view_opt_user(u)),
                    Err(e) => Err(e),
                };
                ReplyModel::MaybeUser(wrapped) == reply_for(
                    self@,
                    RequestModel::GetUserFromName { name: name@ },
                )
            }),
    {
        match find_account(&self.accounts, name, LookupKind::ByName) {
            Some(i) => Ok(Some(self.accounts[i].user.clone())),
            None => Ok(None),
        }
    }

    /// Fetch the first user whose email address is exactly the given one.
    pub fn get_user_from_email(&self, email: &String) -> (r: Result<Option<User>, BackendError>)
        ensures
            ({
                let wrapped = match r {
                    Ok(u) => Ok(view_opt_user(u)),
                    Err(e) => Err(e),
                };
                ReplyModel::MaybeUser(wrapped) == reply_for(
                    self@,
                    RequestModel::GetUserFromEmail { email: email@ },
                )
            }),
    {
        match find_account(&self.accounts, email, LookupKind::ByEmail) {
            Some(i) => Ok(Some(self.accounts[i].user.clone())),
            None => Ok(None),
        }
    }
}

/// Law: creating a user round-trips. The id a `CreateUser` call returns,
/// handed straight to `GetUserFromId` on the store the creation produced,
/// yields a record with exactly the created name and email.
pub proof fn lemma_create_then_get(
    m: StoreModel,
    name: Seq<char>,
    email: Seq<char>,
    password: Seq<char>,
)
    requires
        m.accounts.len() < u64::MAX,
    ensures
        ({
            let create = RequestModel::CreateUser { name, email, password };
            let id = m.accounts.len() as u64;
            let after = apply_request(m, create);
            &&& reply_for(m, create) == ReplyModel::UserId(Ok(id))
            &&& reply_for(after, RequestModel::GetUserFromId { user_id: id })
                == ReplyModel::MaybeUser(Ok(Some(UserModel { id, name, email })))
        }),
{
}

/// Law: asking for a never-issued id yields an empty result, not an
/// error, and leaves the store untouched.
pub proof fn lemma_get_unknown_id(m: StoreModel, user_id: u64)
    requires
        m.accounts.len() <= user_id,
    ensures
        reply_for(m, RequestModel::GetUserFromId { user_id }) == ReplyModel::MaybeUser(Ok(None)),
        apply_request(m, RequestModel::GetUserFromId { user_id }) == m,
{
}

/// Law: a bulk user fetch answers with one entry per requested id, in
/// request order — present exactly where the id was issued, empty
/// exactly where it never was.
pub proof fn lemma_get_users_shape(m: StoreModel, user_ids: Seq<u64>)
    ensures
        ({
            let r = reply_for(m, RequestModel::GetUsersFromIds { user_ids });
            &&& r matches ReplyModel::MaybeUsers(Ok(users))
            &&& users.len() == user_ids.len()
            &&& forall|k: int|
                0 <= k < user_ids.len() ==> #[trigger] users[k] == lookup_user(m, user_ids[k])
            &&& forall|k: int|
                0 <= k < user_ids.len() ==> ((#[trigger] users[k]) is Some <==> (
                user_ids[k] as int) < m.accounts.len())
        }),
{
}

/// Law: every backend operation preserves the store invariant — ids stay
/// the indices of their records, so an issued id is never reissued or
/// rebound.
pub proof fn lemma_apply_preserves_inv(m: StoreModel, r: RequestModel)
    requires
        store_inv(m),
    ensures
        store_inv(apply_request(m, r)),
{
    let m2 = apply_request(m, r);
    match r {
        RequestModel::LogoutOthers { session_id, user_id } => {
            if session_valid(m, session_id, user_id) {
                assert forall|j: int| 0 <= j < m2.sessions.len() implies (#[trigger] m2.sessions[j])
                    .session.session_id == j as u64 by {
                    assert(m2.sessions[j].session == m.sessions[j].session);
                }
            }
        },
        _ => {},
    }
}

} // verus!
