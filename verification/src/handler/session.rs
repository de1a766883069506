//! Session tokens: issuing them on login and checking them on every
//! authenticated call.
use vstd::prelude::*;

use crate::handler::redis::{sat_add64, RedisHandler};
use crate::status::{Code, Status};

verus! {

/// How long an issued session token stays valid, in seconds.
pub const SESSION_TTL_SECS: u64 = 300;

/// Issues and validates session tokens. All its state lives in the shared
/// key-value store, so one handler value can serve any number of calls.
pub struct SessionHandler {
    pub redis_handler: RedisHandler,
}

/// Relies on uuid7::uuid7: a fresh version-7 UUID, rendered by
/// `to_string` in the canonical 36-character 8-4-4-4-12 hexadecimal form.
#[verifier::external_body]
fn fresh_token() -> (r: String)
    ensures
        r@.len() == 36,
{
    uuid7::uuid7().to_string()
}

/// The failure an unauthenticated call is answered with: the stable code,
/// and a reason that tells missing metadata apart from a bad token.
pub open spec fn unauthenticated_reason(auth: Option<&String>, e: Status) -> bool {
    &&& e.code == Code::Unauthenticated
    &&& (auth is None ==> e.message@ == "Session token not provided"@)
    &&& (auth is Some ==> e.message@ == "Invalid session token"@)
}

impl SessionHandler {
    /// The user a call's `Authorization` metadata proves, if any.
    pub open spec fn auth_user(&self, auth: Option<&String>) -> Option<Seq<char>> {
        match auth {
            None => None,
            Some(t) => self.redis_handler.live_value(t@),
        }
    }

    /// Issues a fresh opaque token bound to `user_name` for the next
    /// `SESSION_TTL_SECS` seconds, and stores the binding.
    pub fn start(&mut self, user_name: String) -> (token: String)
        ensures
            token@.len() == 36,
            final(self).redis_handler.clock == old(self).redis_handler.clock,
            final(self).redis_handler.map_view() == old(self).redis_handler.map_view().insert(
                token@,
                (user_name@, Some(sat_add64(old(self).redis_handler.clock, SESSION_TTL_SECS))),
            ),
    {
        let session_token = fresh_token();
        self.redis_handler.set_key(&session_token, &user_name, Some(SESSION_TTL_SECS));
        session_token
    }

    /// Maps a call's `Authorization` metadata to the user it proves.
    /// Absent metadata and an unknown or lapsed token both fail as
    /// `Unauthenticated`, with distinct reasons. The lookup mutates
    /// nothing: in particular it does not extend the token's life.
    pub fn verify_session_token(&self, auth: Option<&String>) -> (r: Result<String, Status>)
        ensures
            match self.auth_user(auth) {
                Some(u) => r is Ok && r->Ok_0@ == u,
                None => r is Err && unauthenticated_reason(auth, r->Err_0),
            },
    {
        match auth {
            None => Err(Status::unauthenticated("Session token not provided")),
            Some(token) => match self.redis_handler.get_key(token) {
                None => Err(Status::unauthenticated("Invalid session token")),
                Some(user_name) => Ok(user_name),
            },
        }
    }
}

/// Law: issuing then verifying. A token bound to a user with the full
/// time-to-live ahead of it — as `start` binds it, whenever the store's
/// clock is below its largest possible value — is live, and reads back as
/// exactly that user.
pub proof fn lemma_issue_then_verify(
    before: RedisHandler,
    after: RedisHandler,
    token: Seq<char>,
    user: Seq<char>,
)
    requires
        before.clock < u64::MAX,
        after.clock == before.clock,
        after.map_view() == before.map_view().insert(
            token,
            (user, Some(sat_add64(before.clock, SESSION_TTL_SECS))),
        ),
    ensures
        after.live_value(token) == Some(user),
{
}

} // verus!
