//! Text snippets and who may touch them.

use vstd::prelude::*;
use crate::auth::AuthState;
use crate::status::Refusal;

verus! {

/// A stored snippet.
#[derive(Clone)]
pub struct Snippet {
    pub id: i64,
    pub title: String,
    pub body: String,
    pub created_at: String,
    pub user_id: i64,
}

/// A snippet as a caller submits it. The owner is filled in by the service.
pub struct CreateSnippet {
    pub title: String,
    pub body: String,
    pub user_id: Option<i64>,
}

/// What the access rule says of a looked-up snippet and a user: a missing
/// snippet is not found, another user's snippet is forbidden.
pub open spec fn access(snippet: Option<Snippet>, user: AuthState) -> Option<Refusal> {
    match snippet {
        None => Some(Refusal::NotFound),
        Some(s) => if s.user_id != user.id {
            Some(Refusal::Forbidden)
        } else {
            None
        },
    }
}

/// Reading one snippet: the snippet itself where the rule allows it, the
/// refusal where not.
pub fn handle_get_snippet(snippet: Option<Snippet>, current_user: &AuthState) -> (r: Result<
    Snippet,
    Refusal,
>)
    ensures
        match access(snippet, *current_user) {
            Some(refusal) => r == Err::<Snippet, Refusal>(refusal),
            None => r == Ok::<Snippet, Refusal>(snippet->0),
        },
{
    match snippet {
        None => Err(Refusal::NotFound),
        Some(s) => {
            if s.user_id != current_user.id {
                Err(Refusal::Forbidden)
            } else {
                Ok(s)
            }
        },
    }
}

/// Creating a snippet: the submitted snippet with the current user as its
/// owner, whatever owner the submission named.
pub fn handle_create_snippet(current_user: &AuthState, snippet: CreateSnippet) -> (r: CreateSnippet)
    ensures
        r.title == snippet.title,
        r.body == snippet.body,
        r.user_id == Some(current_user.id),
{
    CreateSnippet { title: snippet.title, body: snippet.body, user_id: Some(current_user.id) }
}

/// Updating a snippet: goes ahead exactly where the stored snippet exists
/// and belongs to the current user.
pub fn handle_update_snippet(existing_snippet: &Option<Snippet>, current_user: &AuthState) -> (r:
    Result<(), Refusal>)
    ensures
        match access(*existing_snippet, *current_user) {
            Some(refusal) => r == Err::<(), Refusal>(refusal),
            None => r is Ok,
        },
{
    match existing_snippet {
        None => Err(Refusal::NotFound),
        Some(s) => {
            if s.user_id != current_user.id {
                Err(Refusal::Forbidden)
            } else {
                Ok(())
            }
        },
    }
}

/// Deleting a snippet: goes ahead exactly where the stored snippet exists
/// and belongs to the current user.
pub fn handle_delete_snippet(existing_snippet: &Option<Snippet>, current_user: &AuthState) -> (r:
    Result<(), Refusal>)
    ensures
        match access(*existing_snippet, *current_user) {
            Some(refusal) => r == Err::<(), Refusal>(refusal),
            None => r is Ok,
        },
{
    match existing_snippet {
        None => Err(Refusal::NotFound),
        Some(s) => {
            if s.user_id != current_user.id {
                Err(Refusal::Forbidden)
            } else {
                Ok(())
            }
        },
    }
}

} // verus!
