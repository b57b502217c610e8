//! Domain values exchanged between client, server and backend: users,
//! sessions, metadata edits, and the two layers of the error taxonomy
//! (backend-reported domain errors and their wire-sendable form).

use vstd::prelude::*;

verus! {

/// A user record as the backend reports it.
pub struct User {
    pub id: u64,
    pub name: String,
    pub email: String,
}

/// Mathematical model of a [`User`]: the same fields over sequences.
pub struct UserModel {
    pub id: u64,
    pub name: Seq<char>,
    pub email: Seq<char>,
}

impl View for User {
    type V = UserModel;

    open spec fn view(&self) -> UserModel {
        UserModel { id: self.id, name: self.name@, email: self.email@ }
    }
}

impl Clone for User {
    fn clone(&self) -> (r: Self)
        ensures
            r@ == self@,
    {
        User { id: self.id, name: self.name.clone(), email: self.email.clone() }
    }
}

/// A login session: which user it belongs to and its own identifier.
#[derive(Clone, Copy, PartialEq, Eq, Structural, Debug)]
pub struct Session {
    pub session_id: u64,
    pub user_id: u64,
}

/// A partial edit of a user record: `None` fields are left unchanged.
pub struct UserMetadata {
    pub name: Option<String>,
    pub email: Option<String>,
    pub password: Option<String>,
}

/// Mathematical model of a [`UserMetadata`].
pub struct UserMetadataModel {
    pub name: Option<Seq<char>>,
    pub email: Option<Seq<char>>,
    pub password: Option<Seq<char>>,
}

pub open spec fn view_opt_string(s: Option<String>) -> Option<Seq<char>> {
    match s {
        Some(v) => Some(v@),
        None => None,
    }
}

impl View for UserMetadata {
    type V = UserMetadataModel;

    open spec fn view(&self) -> UserMetadataModel {
        UserMetadataModel {
            name: view_opt_string(self.name),
            email: view_opt_string(self.email),
            password: view_opt_string(self.password),
        }
    }
}

/// A domain error reported by the backend engine. Domain errors are data,
/// not faults: they travel through the reply slot and the wire response.
#[derive(Clone, Copy, PartialEq, Eq, Structural, Debug)]
pub enum BackendError {
    /// No account matches the credentials handed to a login call.
    InvalidCredentials,
    /// The named session does not exist, is no longer active, or belongs
    /// to a different user.
    InvalidSession,
    /// The named user id was never issued.
    UserNotFound,
}

/// A backend error encoded for transmission over the wire: a stable
/// numeric code plus a human-readable message.
pub struct SendableError {
    pub code: u64,
    pub message: String,
}

/// Mathematical model of a [`SendableError`].
pub struct SendableErrorModel {
    pub code: u64,
    pub message: Seq<char>,
}

impl View for SendableError {
    type V = SendableErrorModel;

    open spec fn view(&self) -> SendableErrorModel {
        SendableErrorModel { code: self.code, message: self.message@ }
    }
}

impl Clone for SendableError {
    fn clone(&self) -> (r: Self)
        ensures
            r@ == self@,
    {
        SendableError { code: self.code, message: self.message.clone() }
    }
}

/// The wire encoding of each domain error.
pub open spec fn sendable_of(e: BackendError) -> SendableErrorModel {
    match e {
        BackendError::InvalidCredentials => SendableErrorModel {
            code: 1,
            message: "invalid credentials"@,
        },
        BackendError::InvalidSession => SendableErrorModel {
            code: 2,
            message: "invalid session"@,
        },
        BackendError::UserNotFound => SendableErrorModel {
            code: 3,
            message: "user not found"@,
        },
    }
}

impl BackendError {
    /// Encode this domain error as its wire-sendable form.
    pub fn to_sendable(self) -> (r: SendableError)
        ensures
            r@ == sendable_of(self),
    {
        match self {
            BackendError::InvalidCredentials => SendableError {
                code: 1,
                message: String::from_str("invalid credentials"),
            },
            BackendError::InvalidSession => SendableError {
                code: 2,
                message: String::from_str("invalid session"),
            },
            BackendError::UserNotFound => SendableError {
                code: 3,
                message: String::from_str("user not found"),
            },
        }
    }
}

} // verus!
