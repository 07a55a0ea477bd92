//! Session tokens: who a presented token belongs to.

use vstd::prelude::*;
use vstd::string::*;
use crate::status::Refusal;
use crate::users::User;

verus! {

/// The authenticated user of a request.
#[derive(Clone, Copy)]
pub struct AuthState {
    pub id: i64,
}

/// What `bcrypt::verify` returns for a password and a hash: `Some` of its
/// verdict, or `None` where it reports an error (a malformed hash).
pub uninterp spec fn bcrypt_verdict(password: Seq<char>, hash: Seq<char>) -> Option<bool>;

/// Calls `bcrypt::verify`. Trusted: the result is a function of the two
/// texts alone, named `bcrypt_verdict`; an error of the call becomes `None`.
#[verifier::external_body]
pub(crate) fn bcrypt_verify(password: &str, hash: &str) -> (verdict: Option<bool>)
    ensures
        verdict == bcrypt_verdict(password@, hash@),
{
    bcrypt::verify(password, hash).ok()
}

/// A verdict counts as acceptance only where the check ran and said yes.
pub open spec fn accepted(verdict: Option<bool>) -> bool {
    verdict == Some(true)
}

/// Whether a verdict of the hash check accepts the token.
pub fn is_accepted(verdict: Option<bool>) -> (r: bool)
    ensures
        r == accepted(verdict),
{
    match verdict {
        Some(yes) => yes,
        None => false,
    }
}

/// The text that a session token is derived from: the password followed by
/// the time of the login.
pub fn session_secret(password: &str, last_login: &str) -> (secret: String)
    ensures
        secret@ == password@ + last_login@,
{
    let mut secret = password.to_owned();
    secret.append(last_login);
    secret
}

/// Whether `token` is the token of this user's open session.
pub open spec fn token_matches(user: User, token: Seq<char>) -> bool {
    user.has_session() && accepted(bcrypt_verdict(user.session_secret(), token))
}

/// The first user of the list whose open session the token belongs to.
pub open spec fn session_owner(users: Seq<User>, token: Seq<char>) -> Option<User>
    decreases users.len(),
{
    if users.len() == 0 {
        None
    } else if token_matches(users[0], token) {
        Some(users[0])
    } else {
        session_owner(users.drop_first(), token)
    }
}

/// The owner of a token is the first user of the list that it matches.
pub proof fn lemma_owner_is_first_match(users: Seq<User>, token: Seq<char>, i: int)
    requires
        0 <= i < users.len(),
        token_matches(users[i], token),
        forall|j: int| 0 <= j < i ==> !token_matches(#[trigger] users[j], token),
    ensures
        session_owner(users, token) == Some(users[i]),
    decreases users.len(),
{
    if i > 0 {
        let rest = users.drop_first();
        assert(!token_matches(users[0], token));
        assert forall|j: int| 0 <= j < i - 1 implies !token_matches(#[trigger] rest[j], token) by {
            assert(rest[j] == users[j + 1]);
        }
        lemma_owner_is_first_match(rest, token, i - 1);
    }
}

/// A token that matches no user of the list has no owner.
pub proof fn lemma_no_match_no_owner(users: Seq<User>, token: Seq<char>)
    requires
        forall|j: int| 0 <= j < users.len() ==> !token_matches(#[trigger] users[j], token),
    ensures
        session_owner(users, token) is None,
    decreases users.len(),
{
    if users.len() > 0 {
        let rest = users.drop_first();
        assert(!token_matches(users[0], token));
        assert forall|j: int| 0 <= j < rest.len() implies !token_matches(
            #[trigger] rest[j],
            token,
        ) by {
            assert(rest[j] == users[j + 1]);
        }
        lemma_no_match_no_owner(rest, token);
    }
}

/// A user without an open session owns no token: with every session
/// closed, every token is refused.
pub proof fn lemma_closed_sessions_refuse(users: Seq<User>, token: Seq<char>)
    requires
        forall|j: int| 0 <= j < users.len() ==> !(#[trigger] users[j]).has_session(),
    ensures
        auth_outcome(Some(token), users) == Err::<AuthState, Refusal>(Refusal::Unauthorized),
{
    lemma_no_match_no_owner(users, token);
}

/// Finds the user that a token belongs to: the first in the list with an
/// open session whose secret the token verifies against.
pub fn token_is_valid<'a>(users: &'a Vec<User>, token: &str) -> (r: Option<&'a User>)
    ensures
        match r {
            Some(user) => session_owner(users@, token@) == Some(*user),
            None => session_owner(users@, token@) is None,
        },
{
    let mut i: usize = 0;
    proof {
        assert(users@.skip(0) =~= users@);
    }
    while i < users.len()
        invariant
            i <= users.len(),
            session_owner(users@, token@) == session_owner(users@.skip(i as int), token@),
        decreases users.len() - i,
    {
        let user = &users[i];
        proof {
            assert(users@.skip(i as int)[0] == users@[i as int]);
            assert(users@.skip(i as int).drop_first() =~= users@.skip(i + 1));
        }
        match &user.last_login {
            Some(time) => {
                let secret = session_secret(user.password.as_str(), time.as_str());
                if is_accepted(bcrypt_verify(secret.as_str(), token)) {
                    return Some(user);
                }
            },
            None => {},
        }
        i += 1;
    }
    None
}

/// What the check of a request's authorization header comes to.
pub open spec fn auth_outcome(auth_header: Option<Seq<char>>, users: Seq<User>) -> Result<
    AuthState,
    Refusal,
> {
    match auth_header {
        None => Err(Refusal::Unauthorized),
        Some(token) => match session_owner(users, token) {
            Some(user) => Ok(AuthState { id: user.id }),
            None => Err(Refusal::Unauthorized),
        },
    }
}

/// Authenticates a request from its authorization header, if it has one
/// that is text: the owner of the token, or `Unauthorized`.
pub fn auth(auth_header: Option<&str>, users: &Vec<User>) -> (r: Result<AuthState, Refusal>)
    ensures
        r == auth_outcome(
            match auth_header {
                Some(token) => Some(token@),
                None => None,
            },
            users@,
        ),
{
    match auth_header {
        Some(token) => {
            match token_is_valid(users, token) {
                Some(user) => Ok(AuthState { id: user.id }),
                None => Err(Refusal::Unauthorized),
            }
        },
        None => Err(Refusal::Unauthorized),
    }
}

} // verus!
