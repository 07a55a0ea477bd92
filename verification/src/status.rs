//! Why a request is turned away, and the status that tells the caller.

use vstd::prelude::*;

verus! {

/// The reasons for which the service refuses a request.
#[derive(Clone, Copy, Debug, PartialEq, Eq, Structural)]
pub enum Refusal {
    /// No valid session token was presented.
    Unauthorized,
    /// The entity asked for does not exist.
    NotFound,
    /// The entity belongs to another user.
    Forbidden,
}

impl Refusal {
    /// The HTTP status of this refusal, as a number.
    pub open spec fn spec_status_code(&self) -> u16 {
        match self {
            Refusal::Unauthorized => 401u16,
            Refusal::NotFound => 404u16,
            Refusal::Forbidden => 403u16,
        }
    }

    /// The HTTP status of this refusal.
    pub fn status_code(&self) -> (code: u16)
        ensures
            code == self.spec_status_code(),
            400 <= code < 500,
    {
        match self {
            Refusal::Unauthorized => 401u16,
            Refusal::NotFound => 404u16,
            Refusal::Forbidden => 403u16,
        }
    }
}

} // verus!
