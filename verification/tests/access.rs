use script_runner::auth::{auth, is_accepted, session_secret, token_is_valid, AuthState};
use script_runner::login::{issue_token, login, token_response, Login, TOKEN_COST};
use script_runner::snippets::{
    handle_create_snippet, handle_delete_snippet, handle_get_snippet, handle_update_snippet,
    CreateSnippet, Snippet,
};
use script_runner::status::Refusal;
use script_runner::users::User;

// bcrypt of "password" at cost 4
const PASSWORD_HASH: &str = "$2a$04$UuTkLRZZ6QofpDOlMz32MuuxEHA43WOemOYHPz6.SjsVsyO1tDU96";

fn user(id: i64, name: &str, password: &str, last_login: Option<&str>) -> User {
    User {
        id,
        username: name.to_string(),
        password: password.to_string(),
        last_login: last_login.map(|t| t.to_string()),
    }
}

fn snippet(id: i64, user_id: i64) -> Snippet {
    Snippet {
        id,
        title: "t".to_string(),
        body: "1 + 1".to_string(),
        created_at: "2024-01-01 00:00:00".to_string(),
        user_id,
    }
}

#[test]
fn refusal_status_codes() {
    assert_eq!(Refusal::Unauthorized.status_code(), 401);
    assert_eq!(Refusal::NotFound.status_code(), 404);
    assert_eq!(Refusal::Forbidden.status_code(), 403);
}

#[test]
fn verdicts() {
    assert!(is_accepted(Some(true)));
    assert!(!is_accepted(Some(false)));
    assert!(!is_accepted(None));
}

#[test]
fn secret_is_password_then_time() {
    assert_eq!(session_secret("pass", "word"), "password");
    assert_eq!(session_secret("", ""), "");
}

#[test]
fn token_of_open_session_is_found() {
    let users = vec![
        user(1, "ann", "other", Some("word")),
        user(2, "bob", "pass", None),
        user(3, "cat", "pass", Some("word")),
        user(4, "dan", "pass", Some("word")),
    ];
    let found = token_is_valid(&users, PASSWORD_HASH);
    assert_eq!(found.map(|u| u.id), Some(3));
}

#[test]
fn token_without_open_session_is_not_found() {
    let users = vec![user(1, "ann", "password", None), user(2, "bob", "pass", Some("wor"))];
    assert!(token_is_valid(&users, PASSWORD_HASH).is_none());
}

#[test]
fn malformed_token_is_not_found() {
    let users = vec![user(1, "ann", "pass", Some("word"))];
    assert!(token_is_valid(&users, "password").is_none());
    assert!(token_is_valid(&users, "").is_none());
    assert!(token_is_valid(&users, "$2a$04$short").is_none());
}

#[test]
fn no_users_no_owner() {
    assert!(token_is_valid(&Vec::new(), PASSWORD_HASH).is_none());
}

#[test]
fn auth_without_header_is_unauthorized() {
    let users = vec![user(1, "ann", "pass", Some("word"))];
    assert_eq!(auth(None, &users).map(|a| a.id), Err(Refusal::Unauthorized));
}

#[test]
fn auth_with_wrong_token_is_unauthorized() {
    let users = vec![user(1, "ann", "pass", Some("other"))];
    assert_eq!(auth(Some(PASSWORD_HASH), &users).map(|a| a.id), Err(Refusal::Unauthorized));
}

#[test]
fn auth_with_token_gives_owner() {
    let users = vec![user(7, "ann", "pass", Some("word"))];
    assert_eq!(auth(Some(PASSWORD_HASH), &users).map(|a| a.id), Ok(7));
}

#[test]
fn login_checks_password() {
    let stored = user(5, "ann", "secret", None);
    let good = Login { username: "ann".to_string(), password: "secret".to_string() };
    let bad = Login { username: "ann".to_string(), password: "Secret".to_string() };
    assert_eq!(login(Some(&stored), &good), Ok(5));
    assert_eq!(login(Some(&stored), &bad), Err(Refusal::Unauthorized));
    assert_eq!(login(None, &good), Err(Refusal::Unauthorized));
}

#[test]
fn token_cost() {
    assert_eq!(TOKEN_COST, 4);
}

#[test]
fn token_response_wraps_hash() {
    assert_eq!(token_response(Some("h".to_string())).map(|r| r.token), Some("h".to_string()));
    assert!(token_response(None).is_none());
}

#[test]
fn issued_token_is_a_hash_of_the_secret() {
    let response = issue_token("secret", "2024-01-01 10:00:00").expect("a token");
    assert_ne!(response.token, "secret2024-01-01 10:00:00");
    assert!(response.token.starts_with("$2b$04$"));
    assert_eq!(bcrypt::verify("secret2024-01-01 10:00:00", &response.token).ok(), Some(true));
    assert_eq!(bcrypt::verify("secret", &response.token).ok(), Some(false));
}

#[test]
fn issued_token_opens_the_session() {
    let time = "2024-01-01 10:00:00";
    let response = issue_token("secret", time).expect("a token");
    let users = vec![user(1, "ann", "secret", None), user(2, "bob", "secret", Some(time))];
    assert_eq!(auth(Some(&response.token), &users).map(|a| a.id), Ok(2));
    let closed = vec![user(2, "bob", "secret", None)];
    assert_eq!(auth(Some(&response.token), &closed).map(|a| a.id), Err(Refusal::Unauthorized));
}

#[test]
fn get_snippet_rules() {
    let me = AuthState { id: 1 };
    assert_eq!(handle_get_snippet(None, &me).map(|s| s.id), Err(Refusal::NotFound));
    assert_eq!(handle_get_snippet(Some(snippet(9, 2)), &me).map(|s| s.id), Err(Refusal::Forbidden));
    let mine = handle_get_snippet(Some(snippet(9, 1)), &me).expect("allowed");
    assert_eq!(mine.id, 9);
    assert_eq!(mine.body, "1 + 1");
    assert_eq!(mine.user_id, 1);
}

#[test]
fn update_and_delete_rules() {
    let me = AuthState { id: 1 };
    assert_eq!(handle_update_snippet(&None, &me), Err(Refusal::NotFound));
    assert_eq!(handle_update_snippet(&Some(snippet(9, 2)), &me), Err(Refusal::Forbidden));
    assert_eq!(handle_update_snippet(&Some(snippet(9, 1)), &me), Ok(()));
    assert_eq!(handle_delete_snippet(&None, &me), Err(Refusal::NotFound));
    assert_eq!(handle_delete_snippet(&Some(snippet(9, 2)), &me), Err(Refusal::Forbidden));
    assert_eq!(handle_delete_snippet(&Some(snippet(9, 1)), &me), Ok(()));
}

#[test]
fn created_snippet_belongs_to_the_current_user() {
    let me = AuthState { id: 4 };
    let submitted =
        CreateSnippet { title: "t".to_string(), body: "b".to_string(), user_id: Some(99) };
    let stored = handle_create_snippet(&me, submitted);
    assert_eq!(stored.user_id, Some(4));
    assert_eq!(stored.title, "t");
    assert_eq!(stored.body, "b");
    let unowned = CreateSnippet { title: "t".to_string(), body: "b".to_string(), user_id: None };
    assert_eq!(handle_create_snippet(&me, unowned).user_id, Some(4));
}
