//! Issuing and validating signed tokens, round trip and failure cases.

use trcd::token::{create_token, validate_token, Claims};
use trcd::user::{User, UserMode, UserPermissions};

const SECRET: &str = "a test signing phrase";

fn dummy_user() -> User {
    User {
        user_type: UserMode::User,
        username: "dummy test user".to_string(),
        permission_level: UserPermissions::User,
        handle: "test_user".to_string(),
        provider_site: None,
        banned: false,
    }
}

#[test]
fn test_create_valid_jwt() {
    let dummy_user = dummy_user();

    // Cloning because we need to compare with the original result later.
    let result = create_token(dummy_user.clone(), None, SECRET);
    assert!(result.is_ok(), "Expected no errors with a user this simple");
    let result = result.unwrap();

    let validation = validate_token(&result, SECRET);
    assert!(
        validation.is_ok(),
        "Expected the JWT to be valid; this could trip if your computer takes 30 minutes to complete one test."
    );
    let final_user = validation.unwrap();

    assert_eq!(
        final_user, dummy_user,
        "Expected the JWT result to be the same as the initial User."
    );
}

#[test]
fn test_invalid_jwt() {
    // A straight-up invalid token must not work at all.
    assert!(
        validate_token("not a valid jwt", SECRET).is_err(),
        "Expected an invalid jwt to not work"
    );

    // An expired token must not work either.
    let alg_leeway = jsonwebtoken::Validation::new(jsonwebtoken::Algorithm::HS512).leeway;

    let expired_time = chrono::Utc::now()
        .checked_sub_signed(chrono::Duration::minutes(30 + (alg_leeway as i64)))
        .expect("Invalid Timestamp");

    let dummy_user = dummy_user();

    // A token created in a simulated past, just barely past the expiration
    // time.
    let expired_token = create_token(dummy_user, Some(expired_time.timestamp()), SECRET);
    assert!(expired_token.is_ok(), "Simulated tokens shouldn't crash.");
    let expired_token = expired_token.unwrap();

    assert!(
        validate_token(&expired_token, SECRET).is_err(),
        "an expired token should not pass validation"
    )
}

#[test]
fn token_with_wrong_secret_is_rejected() {
    let token = create_token(dummy_user(), None, SECRET).unwrap();
    assert!(validate_token(&token, "another phrase entirely").is_err());
}

#[test]
fn token_round_trip_keeps_every_field() {
    let user = User {
        user_type: UserMode::Bot,
        username: "A \"quoted\" name".to_string(),
        permission_level: UserPermissions::Moderator,
        handle: "bot-7".to_string(),
        provider_site: Some("example.org".to_string()),
        banned: true,
    };
    let token = create_token(user.clone(), None, SECRET).unwrap();
    assert_eq!(validate_token(&token, SECRET), Ok(user));
}

#[test]
fn claims_json_text_is_exact() {
    let claims = Claims {
        exp: 1000,
        sub: 7,
        iat: 900,
        user: dummy_user(),
    };
    assert_eq!(
        claims.to_json(),
        "{\"exp\":1000,\"sub\":7,\"iat\":900,\"user\":{\"user_type\":\"User\",\"permission_level\":\"User\",\"username\":\"dummy test user\",\"handle\":\"test_user\",\"provider_site\":null,\"banned\":false}}"
    );
}

#[test]
fn token_creation_is_deterministic() {
    // The token is a function of the claims text and the secret alone: the
    // same user, creation time and secret give the identical token string.
    let t = 1_700_000_000i64;
    let a = create_token(dummy_user(), Some(t), SECRET).unwrap();
    let b = create_token(dummy_user(), Some(t), SECRET).unwrap();
    assert_eq!(a, b);
}

#[test]
fn tampered_payload_is_rejected() {
    // Replacing the payload segment invalidates the signature.
    let token = create_token(dummy_user(), None, SECRET).unwrap();
    let parts: Vec<&str> = token.split('.').collect();
    assert_eq!(parts.len(), 3);
    let forged = format!("{}.e30.{}", parts[0], parts[2]);
    assert!(validate_token(&forged, SECRET).is_err());
}

#[test]
fn negative_creation_time_is_refused() {
    assert!(create_token(dummy_user(), Some(-1), SECRET).is_err());
}
