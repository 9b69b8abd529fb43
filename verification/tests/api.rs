//! The request/response side: the ingress gateway's error taxonomy, the
//! login decision, and the token claims rules.

use trcd::database::UserDBEntry;
use trcd::login::{login_decision, login_ok_body, LoginError, LoginRequest};
use trcd::server::{ApiError, Server};
use trcd::socket_server::AppState;
use trcd::token::{Claims, JWT_LIFE_MINUTES};
use trcd::user::{User, UserMode, UserPermissions};

fn sample_user() -> User {
    User {
        user_type: UserMode::User,
        permission_level: UserPermissions::User,
        username: "dummy test user".to_string(),
        handle: "test_user".to_string(),
        provider_site: None,
        banned: false,
    }
}

fn request(handle: &str, password: &str) -> LoginRequest {
    LoginRequest {
        handle: handle.to_string(),
        password: password.to_string(),
    }
}

fn entry(password: &str) -> UserDBEntry {
    UserDBEntry {
        password_hash: password.to_string(),
        username: "test_user".to_string(),
        inner_user: sample_user(),
    }
}

#[test]
fn health_check_body_is_exact() {
    assert_eq!(
        Server::health_check(),
        "{\"message\":\"TRCd Server is running.\",\"status\":\"ok\"}"
    );
}

#[test]
fn ingress_rejects_empty_body_first() {
    let mut state = AppState::new();
    // The empty body wins even when the token is also bad.
    let result = Server::new_message(&mut state.tx, None, "general".to_string(), String::new());
    match result {
        Err(ApiError::BadRequest(msg)) => assert_eq!(msg, "body length cannot be 0"),
        other => panic!("expected a bad request, got {:?}", other),
    }
}

#[test]
fn ingress_rejects_invalid_token() {
    let mut state = AppState::new();
    let result = Server::new_message(&mut state.tx, None, "general".to_string(), "hi".to_string());
    assert!(matches!(result, Err(ApiError::Unauthorized)));
}

#[test]
fn ingress_succeeds_without_subscribers() {
    // A publish with no listeners is not a failure.
    let mut state = AppState::new();
    let result = Server::new_message(
        &mut state.tx,
        Some(sample_user()),
        "general".to_string(),
        "hi".to_string(),
    );
    assert!(result.is_ok());
}

#[test]
fn api_error_statuses_and_bodies() {
    let (status, body) = ApiError::NotFound.status_and_body();
    assert_eq!(status, 404);
    assert_eq!(body, "{\"error\":\"404 Not found.\"}");

    let (status, body) = ApiError::BadRequest("body length cannot be 0".to_string())
        .status_and_body();
    assert_eq!(status, 400);
    assert_eq!(body, "{\"error\":\"body length cannot be 0\"}");

    let (status, body) = ApiError::Unauthorized.status_and_body();
    assert_eq!(status, 401);
    assert_eq!(body, "{\"error\":\"invalid token\"}");

    let (status, body) = ApiError::InternalServerError.status_and_body();
    assert_eq!(status, 500);
    assert_eq!(
        body,
        "{\"error\":\"Internal Server error, which is to say: not your fault. Contact an Admin.\"}"
    );
}

#[test]
fn login_rejects_empty_fields() {
    let r = login_decision(&request("", "secret"), None);
    assert_eq!(r, Err(LoginError::EmptyHandle));
    let r = login_decision(&request("test_user", ""), None);
    assert_eq!(r, Err(LoginError::EmptyPassword));
}

#[test]
fn login_rejects_unknown_user_and_wrong_password() {
    let r = login_decision(&request("test_user", "secret"), None);
    assert_eq!(r, Err(LoginError::UnknownUser));
    let r = login_decision(&request("test_user", "wrong"), Some(entry("secret")));
    assert_eq!(r, Err(LoginError::WrongPassword));
}

#[test]
fn login_accepts_matching_password() {
    let r = login_decision(&request("test_user", "secret"), Some(entry("secret")));
    assert_eq!(r, Ok(sample_user()));
}

#[test]
fn login_error_responses_are_exact() {
    assert_eq!(LoginError::EmptyHandle.status(), 400);
    assert_eq!(
        LoginError::EmptyHandle.response_body(),
        "{\"error\":true,\"value\":\"field \\\"handle\\\" cannot be empty\"}"
    );
    assert_eq!(LoginError::EmptyPassword.status(), 400);
    assert_eq!(
        LoginError::EmptyPassword.response_body(),
        "{\"error\":true,\"value\":\"field \\\"password\\\" cannot be empty\"}"
    );
    assert_eq!(LoginError::UnknownUser.status(), 401);
    assert_eq!(
        LoginError::UnknownUser.response_body(),
        "{\"error\":true,\"value\":\"No user found matching that handle\"}"
    );
    assert_eq!(LoginError::WrongPassword.status(), 401);
    assert_eq!(
        LoginError::WrongPassword.response_body(),
        "{\"error\":true,\"value\":\"invalid password\"}"
    );
    assert_eq!(LoginError::TokenCreation.status(), 500);
    assert_eq!(
        LoginError::TokenCreation.response_body(),
        "{\"error\":true,\"value\":\"Internal Server Error. Please report to an admin (probably via email...)\"}"
    );
}

#[test]
fn login_ok_body_carries_token() {
    assert_eq!(
        login_ok_body("abc.def.ghi"),
        "{\"error\":false,\"token\":\"abc.def.ghi\"}"
    );
}

#[test]
fn claims_expire_one_lifetime_after_issue() {
    let now: usize = 1_700_000_000;
    let claims = Claims::for_user(sample_user(), 7, now);
    assert_eq!(claims.iat, now);
    assert_eq!(claims.sub, 7);
    assert_eq!(claims.exp, now + JWT_LIFE_MINUTES * 60);
    assert_eq!(claims.user, sample_user());

    assert!(claims.live_at(now));
    assert!(claims.live_at(claims.exp - 1));
    assert!(!claims.live_at(claims.exp));
    assert!(!claims.live_at(claims.exp + 1));
}

#[test]
fn user_entry_keeps_public_record() {
    let entry = trcd::storage::UserEntry::new("secret".to_string(), 3, sample_user());
    assert_eq!(entry.inner, sample_user());
}

#[test]
fn user_equality_is_structural() {
    let a = sample_user();
    let mut b = sample_user();
    assert_eq!(a, b);
    b.banned = true;
    assert_ne!(a, b);
    let mut c = sample_user();
    c.provider_site = Some("example.org".to_string());
    assert_ne!(a, c);
}
