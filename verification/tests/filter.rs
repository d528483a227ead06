//! Tests of the authorization filter: header parsing, role enforcement, and
//! the role model.

use auth_core::auth::{admin_greeting, authorize, authorize_at, jwt_from_header, user_greeting};
use auth_core::codec::encode_claims;
use auth_core::error::Error;
use auth_core::role::Role;

const NOW: i64 = 1_700_000_000;

fn secret() -> Vec<u8> {
    b"filter-test-secret".to_vec()
}

fn bearer(token: &str) -> Vec<u8> {
    format!("Bearer {}", token).into_bytes()
}

#[test]
fn missing_header_is_rejected() {
    let r = authorize_at(&secret(), &Role::User, None, NOW);
    assert_eq!(r.unwrap_err(), Error::NoAuthHeaderError);
}

#[test]
fn non_utf8_header_is_malformed() {
    let header = vec![0x42, 0xff, 0xfe];
    let r = authorize_at(&secret(), &Role::User, Some(&header), NOW);
    assert_eq!(r.unwrap_err(), Error::InvalidAuthHeaderError);
}

#[test]
fn header_without_bearer_prefix_is_malformed() {
    for h in ["Basic abc", "bearer x", "Bearer", "", "Beare r x"] {
        let header = h.as_bytes().to_vec();
        let r = authorize_at(&secret(), &Role::User, Some(&header), NOW);
        assert_eq!(r.unwrap_err(), Error::InvalidAuthHeaderError);
    }
}

#[test]
fn jwt_from_header_strips_one_prefix() {
    let header = b"Bearer Bearer x".to_vec();
    assert_eq!(jwt_from_header(Some(&header)).unwrap(), "Bearer x");
}

#[test]
fn invalid_token_in_header_is_rejected() {
    let s = secret();
    let header = bearer("not.a.token");
    let r = authorize_at(&s, &Role::User, Some(&header), NOW);
    assert_eq!(r.unwrap_err(), Error::JWTTokenError);
}

#[test]
fn expired_token_in_header_is_rejected() {
    let s = secret();
    let token = encode_claims(&s, &"uid-9".to_string(), &"Admin".to_string(), -10, NOW).unwrap();
    let r = authorize_at(&s, &Role::Admin, Some(&bearer(&token)), NOW);
    assert_eq!(r.unwrap_err(), Error::JWTTokenError);
}

#[test]
fn admin_token_passes_both_filters() {
    let s = secret();
    let token = encode_claims(&s, &"admin-uid".to_string(), &"Admin".to_string(), 3600, NOW)
        .unwrap();
    let header = bearer(&token);
    assert_eq!(authorize_at(&s, &Role::Admin, Some(&header), NOW).unwrap(), "admin-uid");
    assert_eq!(authorize_at(&s, &Role::User, Some(&header), NOW).unwrap(), "admin-uid");
}

#[test]
fn user_token_passes_user_filter_and_fails_admin_filter() {
    let s = secret();
    let token = encode_claims(&s, &"user-uid".to_string(), &"User".to_string(), 3600, NOW)
        .unwrap();
    let header = bearer(&token);
    assert_eq!(authorize_at(&s, &Role::User, Some(&header), NOW).unwrap(), "user-uid");
    assert_eq!(
        authorize_at(&s, &Role::Admin, Some(&header), NOW).unwrap_err(),
        Error::NoPermissionError
    );
}

#[test]
fn unknown_role_string_degrades_to_user() {
    let s = secret();
    let token = encode_claims(&s, &"odd-uid".to_string(), &"Superuser".to_string(), 3600, NOW)
        .unwrap();
    let header = bearer(&token);
    assert_eq!(authorize_at(&s, &Role::User, Some(&header), NOW).unwrap(), "odd-uid");
    assert_eq!(
        authorize_at(&s, &Role::Admin, Some(&header), NOW).unwrap_err(),
        Error::NoPermissionError
    );
}

#[test]
fn authorize_with_live_clock_accepts_fresh_token() {
    let s = secret();
    let now = chrono::Utc::now().timestamp();
    let token = encode_claims(&s, &"live-uid".to_string(), &"User".to_string(), 3600, now)
        .unwrap();
    assert_eq!(authorize(&s, &Role::User, Some(&bearer(&token))).unwrap(), "live-uid");
}

#[test]
fn role_from_str_defaults_to_user() {
    assert_eq!(Role::from_str("Admin"), Role::Admin);
    assert_eq!(Role::from_str("User"), Role::User);
    assert_eq!(Role::from_str("Refresh"), Role::User);
    assert_eq!(Role::from_str(""), Role::User);
    assert_eq!(Role::from_str("admin"), Role::User);
}

#[test]
fn role_names_round_trip() {
    assert_eq!(Role::Admin.name(), "Admin");
    assert_eq!(Role::User.name(), "User");
    assert_eq!(Role::from_str(&Role::Admin.name()), Role::Admin);
}

#[test]
fn greetings_carry_the_uid() {
    assert_eq!(user_greeting(&"u1".to_string()), "Hello User u1");
    assert_eq!(admin_greeting(&"a1".to_string()), "Hello Admin a1");
}

#[test]
fn error_statuses_match_the_response_mapping() {
    assert_eq!(Error::WrongCredentialsError.status(), 403);
    assert_eq!(Error::JWTTokenCreationError.status(), 500);
    assert_eq!(Error::JWTTokenError.status(), 401);
    assert_eq!(Error::NoAuthHeaderError.status(), 401);
    assert_eq!(Error::InvalidAuthHeaderError.status(), 401);
    assert_eq!(Error::NoPermissionError.status(), 401);
    assert_eq!(Error::KeyNotFoundError.status(), 500);
    assert_eq!(Error::DatabaseInsertError.status(), 500);
    assert_eq!(Error::UserAlreadyExistsError.status(), 400);
    assert_eq!(Error::HashingError.status(), 500);
    assert_eq!(Error::UserNotFoundError.status(), 404);
}

#[test]
fn error_messages_match_the_response_mapping() {
    assert_eq!(Error::WrongCredentialsError.message(), "wrong credentials");
    assert_eq!(Error::JWTTokenCreationError.message(), "Internal Server Error!");
    assert_eq!(Error::JWTTokenError.message(), "jwt token no valid");
    assert_eq!(Error::NoAuthHeaderError.message(), "no auth header");
    assert_eq!(Error::InvalidAuthHeaderError.message(), "invalid auth header");
    assert_eq!(Error::NoPermissionError.message(), "no permission");
    assert_eq!(Error::KeyNotFoundError.message(), "key not found");
    assert_eq!(Error::DatabaseInsertError.message(), "Insertion in DB failed");
    assert_eq!(Error::UserAlreadyExistsError.message(), "User aready exists");
    assert_eq!(Error::HashingError.message(), "Could not hash password");
    assert_eq!(Error::UserNotFoundError.message(), "Could not find user");
}
