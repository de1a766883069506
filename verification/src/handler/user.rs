//! User accounts: creating them with a salted password hash and checking
//! credentials at login.
use vstd::prelude::*;

use argon2::password_hash::{PasswordHasher, PasswordVerifier};
use argon2::Argon2;

use crate::handler::sqlite::SQLiteHandler;
use crate::status::Credentials;

verus! {

/// Whether `password` is the password that the PHC string `hash` was
/// derived from, as argon2's verifier decides it; false as well when
/// `hash` is not a well-formed PHC string.
pub uninterp spec fn password_matches(password: Seq<char>, hash: Seq<char>) -> bool;

/// Relies on argon2's hash_password, under the default argon2 instance:
/// hashing with a fresh random salt yields a PHC string that argon2's own
/// verifier accepts for the same password.
#[verifier::external_body]
fn hash_password(password: &str) -> (r: Option<String>)
    ensures
        match r {
            Some(h) => password_matches(password@, h@),
            None => true,
        },
{
    match Argon2::default().hash_password(password.as_bytes()) {
        Ok(hash) => Some(hash.to_string()),
        Err(_) => None,
    }
}

/// Relies on argon2's verify_password, under the default argon2 instance
/// (no secret): it recomputes the hash that the PHC string `hash`
/// describes over `password` and compares, so the outcome is a function
/// of the two arguments alone, false for a malformed PHC string.
#[verifier::external_body]
fn verify_password(password: &str, hash: &str) -> (r: bool)
    ensures
        r == password_matches(password@, hash@),
{
    Argon2::default().verify_password(password.as_bytes(), hash).is_ok()
}

/// Creates accounts and checks logins against the user store.
pub struct UserHandler {
    pub sqlite_handler: SQLiteHandler,
}

impl UserHandler {
    /// Hashes the password under a fresh salt and inserts the user.
    /// Returns false — leaving the store untouched — when the username is
    /// already taken, or when the hasher fails.
    pub fn create(&mut self, credentials: Credentials) -> (r: bool)
        ensures
            final(self).sqlite_handler.summaries() == old(self).sqlite_handler.summaries(),
            old(self).sqlite_handler.user_view().contains_key(credentials.username@) ==> !r,
            !r ==> final(self).sqlite_handler.user_view()
                == old(self).sqlite_handler.user_view(),
            r ==> !old(self).sqlite_handler.user_view().contains_key(credentials.username@)
                && exists|h: Seq<char>|
                password_matches(credentials.password@, h)
                    && final(self).sqlite_handler.user_view()
                    == old(self).sqlite_handler.user_view().insert(credentials.username@, h),
    {
        match hash_password(credentials.password.as_str()) {
            None => false,
            Some(hash) => {
                let ghost hash_view = hash@;
                let created = self.sqlite_handler.create_user(credentials.username, hash);
                proof {
                    if created {
                        assert(password_matches(credentials.password@, hash_view)
                            && self.sqlite_handler.user_view()
                            == old(self).sqlite_handler.user_view().insert(
                            credentials.username@,
                            hash_view,
                        ));
                    }
                }
                created
            },
        }
    }

    /// Whether the store holds this username and its stored hash accepts
    /// the given password.
    pub fn login(&self, credentials: Credentials) -> (r: bool)
        ensures
            r == (self.sqlite_handler.user_view().contains_key(credentials.username@)
                && password_matches(
                credentials.password@,
                self.sqlite_handler.user_view().index(credentials.username@),
            )),
    {
        let password_hash = self.sqlite_handler.get_hashed_password(credentials.username);
        match password_hash {
            Some(hash) => verify_password(credentials.password.as_str(), hash.as_str()),
            None => false,
        }
    }
}

} // verus!
