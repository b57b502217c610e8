//! The call contract: the fixed enumeration of remote procedures.
//!
//! [`Request`] lists the backend-facing methods, one variant per procedure,
//! each carrying that procedure's argument values. [`Reply`] carries the
//! matching result back from the backend, and [`WireResponse`] is the same
//! result with its domain error translated to the wire-sendable form.
//! [`WireCall`] is the full wire surface: the three methods the server
//! answers by itself plus every backend-forwarded request.

use vstd::prelude::*;

use crate::types::{
    sendable_of, view_opt_string, BackendError, SendableError, SendableErrorModel, Session, User,
    UserMetadata, UserMetadataModel, UserModel,
};

verus! {

/// A backend-forwarded procedure call: the method discriminator plus its
/// argument values, by value.
pub enum Request {
    Ping,
    TryLogin { username_or_email: String, password: String, remote_address: Option<String> },
    CheckSession { session_id: u64, user_id: u64 },
    Logout { session_id: u64, user_id: u64 },
    LogoutOthers { session_id: u64, user_id: u64 },
    CreateUser { name: String, email: String, password: String },
    EditUser { user_id: u64, changes: UserMetadata },
    GetUserFromId { user_id: u64 },
    GetUsersFromIds { user_ids: Vec<u64> },
    GetUserFromName { name: String },
    GetUserFromEmail { email: String },
}

/// Mathematical model of a [`Request`].
pub enum RequestModel {
    Ping,
    TryLogin { username_or_email: Seq<char>, password: Seq<char>, remote_address: Option<Seq<char>> },
    CheckSession { session_id: u64, user_id: u64 },
    Logout { session_id: u64, user_id: u64 },
    LogoutOthers { session_id: u64, user_id: u64 },
    CreateUser { name: Seq<char>, email: Seq<char>, password: Seq<char> },
    EditUser { user_id: u64, changes: UserMetadataModel },
    GetUserFromId { user_id: u64 },
    GetUsersFromIds { user_ids: Seq<u64> },
    GetUserFromName { name: Seq<char> },
    GetUserFromEmail { email: Seq<char> },
}

impl View for Request {
    type V = RequestModel;

    open spec fn view(&self) -> RequestModel {
        match self {
            Request::Ping => RequestModel::Ping,
            Request::TryLogin { username_or_email, password, remote_address } => {
                RequestModel::TryLogin {
                    username_or_email: username_or_email@,
                    password: password@,
                    remote_address: view_opt_string(*remote_address),
                }
            },
            Request::CheckSession { session_id, user_id } => RequestModel::CheckSession {
                session_id: *session_id,
                user_id: *user_id,
            },
            Request::Logout { session_id, user_id } => RequestModel::Logout {
                session_id: *session_id,
                user_id: *user_id,
            },
            Request::LogoutOthers { session_id, user_id } => RequestModel::LogoutOthers {
                session_id: *session_id,
                user_id: *user_id,
            },
            Request::CreateUser { name, email, password } => RequestModel::CreateUser {
                name: name@,
                email: email@,
                password: password@,
            },
            Request::EditUser { user_id, changes } => RequestModel::EditUser {
                user_id: *user_id,
                changes: changes@,
            },
            Request::GetUserFromId { user_id } => RequestModel::GetUserFromId {
                user_id: *user_id,
            },
            Request::GetUsersFromIds { user_ids } => RequestModel::GetUsersFromIds {
                user_ids: user_ids@,
            },
            Request::GetUserFromName { name } => RequestModel::GetUserFromName { name: name@ },
            Request::GetUserFromEmail { email } => RequestModel::GetUserFromEmail {
                email: email@,
            },
        }
    }
}

/// The result of one backend operation, typed by the request's shape.
pub enum Reply {
    Unit(Result<(), BackendError>),
    NewSession(Result<Session, BackendError>),
    Sessions(Result<Vec<Session>, BackendError>),
    UserId(Result<u64, BackendError>),
    MaybeUser(Result<Option<User>, BackendError>),
    MaybeUsers(Result<Vec<Option<User>>, BackendError>),
}

/// Mathematical model of a [`Reply`].
pub enum ReplyModel {
    Unit(Result<(), BackendError>),
    NewSession(Result<Session, BackendError>),
    Sessions(Result<Seq<Session>, BackendError>),
    UserId(Result<u64, BackendError>),
    MaybeUser(Result<Option<UserModel>, BackendError>),
    MaybeUsers(Result<Seq<Option<UserModel>>, BackendError>),
}

pub open spec fn view_opt_user(u: Option<User>) -> Option<UserModel> {
    match u {
        Some(v) => Some(v@),
        None => None,
    }
}

impl View for Reply {
    type V = ReplyModel;

    open spec fn view(&self) -> ReplyModel {
        match self {
            Reply::Unit(r) => ReplyModel::Unit(*r),
            Reply::NewSession(r) => ReplyModel::NewSession(*r),
            Reply::Sessions(r) => ReplyModel::Sessions(
                match r {
                    Ok(v) => Ok(v@),
                    Err(e) => Err(*e),
                },
            ),
            Reply::UserId(r) => ReplyModel::UserId(*r),
            Reply::MaybeUser(r) => ReplyModel::MaybeUser(
                match r {
                    Ok(u) => Ok(view_opt_user(*u)),
                    Err(e) => Err(*e),
                },
            ),
            Reply::MaybeUsers(r) => ReplyModel::MaybeUsers(
                match r {
                    Ok(v) => Ok(v@.map_values(|u: Option<User>| view_opt_user(u))),
                    Err(e) => Err(*e),
                },
            ),
        }
    }
}

/// One call as it crosses the wire: the three methods the server answers
/// without backend involvement, and the forwarded rest.
pub enum WireCall {
    Protocol,
    Ping,
    Time,
    Backend(Request),
}

/// Mathematical model of a [`WireCall`].
pub enum WireCallModel {
    Protocol,
    Ping,
    Time,
    Backend(RequestModel),
}

impl View for WireCall {
    type V = WireCallModel;

    open spec fn view(&self) -> WireCallModel {
        match self {
            WireCall::Protocol => WireCallModel::Protocol,
            WireCall::Ping => WireCallModel::Ping,
            WireCall::Time => WireCallModel::Time,
            WireCall::Backend(r) => WireCallModel::Backend(r@),
        }
    }
}

/// A backend reply with its domain error translated to the wire-sendable
/// representation, ready to be encoded onto the wire.
pub enum WireResponse {
    Unit(Result<(), SendableError>),
    NewSession(Result<Session, SendableError>),
    Sessions(Result<Vec<Session>, SendableError>),
    UserId(Result<u64, SendableError>),
    MaybeUser(Result<Option<User>, SendableError>),
    MaybeUsers(Result<Vec<Option<User>>, SendableError>),
}

/// Mathematical model of a [`WireResponse`].
pub enum WireResponseModel {
    Unit(Result<(), SendableErrorModel>),
    NewSession(Result<Session, SendableErrorModel>),
    Sessions(Result<Seq<Session>, SendableErrorModel>),
    UserId(Result<u64, SendableErrorModel>),
    MaybeUser(Result<Option<UserModel>, SendableErrorModel>),
    MaybeUsers(Result<Seq<Option<UserModel>>, SendableErrorModel>),
}

impl View for WireResponse {
    type V = WireResponseModel;

    open spec fn view(&self) -> WireResponseModel {
        match self {
            WireResponse::Unit(r) => WireResponseModel::Unit(
                match r {
                    Ok(v) => Ok(*v),
                    Err(e) => Err(e@),
                },
            ),
            WireResponse::NewSession(r) => WireResponseModel::NewSession(
                match r {
                    Ok(v) => Ok(*v),
                    Err(e) => Err(e@),
                },
            ),
            WireResponse::Sessions(r) => WireResponseModel::Sessions(
                match r {
                    Ok(v) => Ok(v@),
                    Err(e) => Err(e@),
                },
            ),
            WireResponse::UserId(r) => WireResponseModel::UserId(
                match r {
                    Ok(v) => Ok(*v),
                    Err(e) => Err(e@),
                },
            ),
            WireResponse::MaybeUser(r) => WireResponseModel::MaybeUser(
                match r {
                    Ok(u) => Ok(view_opt_user(*u)),
                    Err(e) => Err(e@),
                },
            ),
            WireResponse::MaybeUsers(r) => WireResponseModel::MaybeUsers(
                match r {
                    Ok(v) => Ok(v@.map_values(|u: Option<User>| view_opt_user(u))),
                    Err(e) => Err(e@),
                },
            ),
        }
    }
}

/// The wire form of a backend reply: the payload is kept, the domain error
/// is re-encoded with [`sendable_of`].
pub open spec fn wire_of(r: ReplyModel) -> WireResponseModel {
    match r {
        ReplyModel::Unit(x) => WireResponseModel::Unit(
            match x {
                Ok(v) => Ok(v),
                Err(e) => Err(sendable_of(e)),
            },
        ),
        ReplyModel::NewSession(x) => WireResponseModel::NewSession(
            match x {
                Ok(v) => Ok(v),
                Err(e) => Err(sendable_of(e)),
            },
        ),
        ReplyModel::Sessions(x) => WireResponseModel::Sessions(
            match x {
                Ok(v) => Ok(v),
                Err(e) => Err(sendable_of(e)),
            },
        ),
        ReplyModel::UserId(x) => WireResponseModel::UserId(
            match x {
                Ok(v) => Ok(v),
                Err(e) => Err(sendable_of(e)),
            },
        ),
        ReplyModel::MaybeUser(x) => WireResponseModel::MaybeUser(
            match x {
                Ok(v) => Ok(v),
                Err(e) => Err(sendable_of(e)),
            },
        ),
        ReplyModel::MaybeUsers(x) => WireResponseModel::MaybeUsers(
            match x {
                Ok(v) => Ok(v),
                Err(e) => Err(sendable_of(e)),
            },
        ),
    }
}

/// Translate a backend reply into its wire response: payloads unchanged,
/// each domain error replaced by its sendable encoding.
pub fn to_wire(reply: Reply) -> (r: WireResponse)
    ensures
        r@ == wire_of(reply@),
{
    match reply {
        Reply::Unit(x) => WireResponse::Unit(
            match x {
                Ok(v) => Ok(v),
                Err(e) => Err(e.to_sendable()),
            },
        ),
        Reply::NewSession(x) => WireResponse::NewSession(
            match x {
                Ok(v) => Ok(v),
                Err(e) => Err(e.to_sendable()),
            },
        ),
        Reply::Sessions(x) => WireResponse::Sessions(
            match x {
                Ok(v) => Ok(v),
                Err(e) => Err(e.to_sendable()),
            },
        ),
        Reply::UserId(x) => WireResponse::UserId(
            match x {
                Ok(v) => Ok(v),
                Err(e) => Err(e.to_sendable()),
            },
        ),
        Reply::MaybeUser(x) => WireResponse::MaybeUser(
            match x {
                Ok(v) => Ok(v),
                Err(e) => Err(e.to_sendable()),
            },
        ),
        Reply::MaybeUsers(x) => WireResponse::MaybeUsers(
            match x {
                Ok(v) => Ok(v),
                Err(e) => Err(e.to_sendable()),
            },
        ),
    }
}

} // verus!
