//! The session-authentication service: sign-up and login.
use vstd::prelude::*;

use crate::handler::redis::sat_add64;
use crate::handler::session::{SessionHandler, SESSION_TTL_SECS};
use crate::handler::user::{password_matches, UserHandler};
use crate::status::{Code, Credentials, SessionToken, SignUpResult, Status};

verus! {

/// Accepts a call exactly when its `Authorization` metadata carries the
/// fixed bearer token.
pub fn check_session_token(auth: Option<&String>) -> (r: Result<(), Status>)
    ensures
        r is Ok <==> match auth {
            Some(t) => t@ == "Bearer session-token"@,
            None => false,
        },
        r is Err ==> r->Err_0.code == Code::Unauthenticated && r->Err_0.message@
            == "Invalid session token"@,
{
    let expected = "Bearer session-token".to_owned();
    match auth {
        Some(t) => if *t == expected {
            Ok(())
        } else {
            Err(Status::unauthenticated("Invalid session token"))
        },
        None => Err(Status::unauthenticated("Invalid session token")),
    }
}

/// Signs users up and logs them in, handing out session tokens.
pub struct SessionAuthService {
    pub user_handler: UserHandler,
    pub session_handler: SessionHandler,
}

impl SessionAuthService {
    pub fn new(user_handler: UserHandler, session_handler: SessionHandler) -> (r: Self)
        ensures
            r.user_handler == user_handler,
            r.session_handler == session_handler,
    {
        SessionAuthService { user_handler, session_handler }
    }

    /// Creates the account. A username that is already taken fails with
    /// `AlreadyExists` and changes nothing; success records a hash that
    /// accepts exactly the given password.
    pub fn sign_up(&mut self, credentials: Credentials) -> (r: Result<SignUpResult, Status>)
        ensures
            final(self).session_handler == old(self).session_handler,
            final(self).user_handler.sqlite_handler.summaries() == old(
                self,
            ).user_handler.sqlite_handler.summaries(),
            old(self).user_handler.sqlite_handler.user_view().contains_key(credentials.username@)
                ==> r is Err,
            match r {
                Ok(s) => {
                    &&& s.result == true
                    &&& !old(self).user_handler.sqlite_handler.user_view().contains_key(
                        credentials.username@,
                    )
                    &&& exists|h: Seq<char>|
                        password_matches(credentials.password@, h)
                            && final(self).user_handler.sqlite_handler.user_view() == old(
                            self,
                        ).user_handler.sqlite_handler.user_view().insert(credentials.username@, h)
                },
                Err(e) => {
                    &&& e.code == Code::AlreadyExists
                    &&& e.message@ == "Username already taken"@
                    &&& final(self).user_handler.sqlite_handler.user_view() == old(
                        self,
                    ).user_handler.sqlite_handler.user_view()
                },
            },
    {
        if self.user_handler.create(credentials) {
            Ok(SignUpResult { result: true })
        } else {
            Err(Status::already_exists("Username already taken"))
        }
    }

    /// Checks the credentials against the user store; a match starts a
    /// session and answers its token, anything else is `Unauthenticated`
    /// and leaves every store untouched.
    pub fn login(&mut self, credentials: Credentials) -> (r: Result<SessionToken, Status>)
        ensures
            final(self).user_handler == old(self).user_handler,
            final(self).session_handler.redis_handler.clock == old(
                self,
            ).session_handler.redis_handler.clock,
            r is Ok <==> old(self).user_handler.sqlite_handler.user_view().contains_key(
                credentials.username@,
            ) && password_matches(
                credentials.password@,
                old(self).user_handler.sqlite_handler.user_view().index(credentials.username@),
            ),
            match r {
                Ok(tok) => {
                    &&& tok.token@.len() == 36
                    &&& final(self).session_handler.redis_handler.map_view() == old(
                        self,
                    ).session_handler.redis_handler.map_view().insert(
                        tok.token@,
                        (
                            credentials.username@,
                            Some(
                                sat_add64(
                                    old(self).session_handler.redis_handler.clock,
                                    SESSION_TTL_SECS,
                                ),
                            ),
                        ),
                    )
                },
                Err(e) => {
                    &&& e.code == Code::Unauthenticated
                    &&& e.message@ == "Invalid credentials"@
                    &&& *final(self) == *old(self)
                },
            },
    {
        if self.user_handler.login(credentials.clone()) {
            let session_token = self.session_handler.start(credentials.username);
            Ok(SessionToken { token: session_token })
        } else {
            Err(Status::unauthenticated("Invalid credentials"))
        }
    }
}

/// Law: signing up makes the username taken. After a sign-up stores any
/// hash under a username, that username is bound in the user store — so a
/// second sign-up of the same username, whose contract refuses a bound
/// username, must fail.
pub proof fn lemma_signup_twice(
    users: Map<Seq<char>, Seq<char>>,
    username: Seq<char>,
    hash: Seq<char>,
)
    ensures
        users.insert(username, hash).contains_key(username),
{
}

} // verus!
