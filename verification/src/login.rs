//! Opening a session: the password check and the token that is handed out.

use vstd::prelude::*;
use vstd::string::*;
use crate::auth::{auth_outcome, bcrypt_verdict, session_secret, AuthState};
use crate::status::Refusal;
use crate::users::User;

verus! {

/// The credentials that a caller presents.
pub struct Login {
    pub username: String,
    pub password: String,
}

/// The session token handed to a caller whose credentials were right.
pub struct LoginResponse {
    pub token: String,
}

/// The work factor that session tokens are hashed with.
pub const TOKEN_COST: u32 = 4;

/// Calls `bcrypt::hash`, which salts at random. Trusted: where it returns a
/// hash, `bcrypt::verify` accepts the same password against that hash; an
/// error of the call becomes `None`.
#[verifier::external_body]
pub(crate) fn bcrypt_hash(password: &str, cost: u32) -> (hash: Option<String>)
    ensures
        hash matches Some(h) ==> bcrypt_verdict(password@, h@) == Some(true),
{
    bcrypt::hash(password, cost).ok()
}

/// Checks presented credentials against the account stored under the
/// presented name, if there is one: the account's id where the passwords
/// are equal, `Unauthorized` otherwise.
pub fn login(user: Option<&User>, payload: &Login) -> (r: Result<i64, Refusal>)
    ensures
        r == match user {
            Some(u) => if payload.password@ == u.password@ {
                Ok::<i64, Refusal>(u.id)
            } else {
                Err::<i64, Refusal>(Refusal::Unauthorized)
            },
            None => Err::<i64, Refusal>(Refusal::Unauthorized),
        },
{
    match user {
        Some(u) => {
            if payload.password == u.password {
                Ok(u.id)
            } else {
                Err(Refusal::Unauthorized)
            }
        },
        None => Err(Refusal::Unauthorized),
    }
}

/// Wraps a freshly made hash, if the hashing gave one, as the response.
pub fn token_response(hash: Option<String>) -> (r: Option<LoginResponse>)
    ensures
        match hash {
            Some(h) => r == Some(LoginResponse { token: h }),
            None => r is None,
        },
{
    match hash {
        Some(h) => Some(LoginResponse { token: h }),
        None => None,
    }
}

/// Makes the token of a session opened at `time` with `password`. Whatever
/// token comes back verifies against the session's secret.
pub fn issue_token(password: &str, time: &str) -> (r: Option<LoginResponse>)
    ensures
        r matches Some(response) ==> bcrypt_verdict(password@ + time@, response.token@) == Some(
            true,
        ),
{
    let secret = session_secret(password, time);
    token_response(bcrypt_hash(secret.as_str(), TOKEN_COST))
}

/// A token opens the session it was issued for: a token that verifies
/// against a user's password and login time authenticates that user, where
/// the user is the only one looked at.
pub proof fn lemma_issued_token_opens_session(user: User, token: Seq<char>)
    requires
        user.last_login is Some,
        bcrypt_verdict(user.password@ + user.last_login->0@, token) == Some(true),
    ensures
        auth_outcome(Some(token), seq![user]) == Ok::<AuthState, Refusal>(AuthState { id: user.id }),
{
    crate::auth::lemma_owner_is_first_match(seq![user], token, 0);
}

} // verus!
