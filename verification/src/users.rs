//! Stored user accounts, as the access rules read them.

use vstd::prelude::*;

verus! {

/// One stored account. `last_login` is set while a session is open.
#[derive(Clone)]
pub struct User {
    pub id: i64,
    pub username: String,
    pub password: String,
    pub last_login: Option<String>,
}

impl User {
    /// Whether a session of this user is open.
    pub open spec fn has_session(&self) -> bool {
        self.last_login is Some
    }

    /// The text that an open session's token was derived from: the password
    /// followed by the time of the login.
    pub open spec fn session_secret(&self) -> Seq<char>
        recommends
            self.has_session(),
    {
        self.password@ + self.last_login->0@
    }
}

} // verus!
