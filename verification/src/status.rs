//! Call outcomes: stable status codes with human-readable reasons, and the
//! small request/response records of the authentication protocol.
use vstd::prelude::*;

verus! {

/// The stable code attached to a failed call.
#[derive(Clone, Copy, Debug, PartialEq, Eq, Structural)]
pub enum Code {
    Unauthenticated,
    AlreadyExists,
    InvalidArgument,
    Internal,
}

/// A failure: a stable code plus a human-readable reason.
#[derive(Debug)]
pub struct Status {
    pub code: Code,
    pub message: String,
}

impl Status {
    pub fn unauthenticated(message: &str) -> (r: Status)
        ensures
            r.code == Code::Unauthenticated,
            r.message@ == message@,
    {
        Status { code: Code::Unauthenticated, message: message.to_owned() }
    }

    pub fn already_exists(message: &str) -> (r: Status)
        ensures
            r.code == Code::AlreadyExists,
            r.message@ == message@,
    {
        Status { code: Code::AlreadyExists, message: message.to_owned() }
    }

    pub fn invalid_argument(message: &str) -> (r: Status)
        ensures
            r.code == Code::InvalidArgument,
            r.message@ == message@,
    {
        Status { code: Code::InvalidArgument, message: message.to_owned() }
    }

    /// The code of this status.
    pub fn code(&self) -> (r: Code)
        ensures
            r == self.code,
    {
        self.code
    }
}

/// A username together with the secret that proves it.
#[derive(Debug)]
pub struct Credentials {
    pub username: String,
    pub password: String,
}

impl Clone for Credentials {
    fn clone(&self) -> (r: Self)
        ensures
            r == *self,
    {
        Credentials { username: self.username.clone(), password: self.password.clone() }
    }
}

/// The opaque token handed out on a successful login.
#[derive(Debug)]
pub struct SessionToken {
    pub token: String,
}

/// Whether a sign-up attempt created the account.
#[derive(Clone, Copy, Debug, PartialEq, Eq, Structural)]
pub struct SignUpResult {
    pub result: bool,
}

} // verus!
