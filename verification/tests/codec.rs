//! Tests of the token codec: round trips, expiry, and signature tampering.

use auth_core::codec::{create_jwt, create_refresh_jwt, decode_token, encode_claims, token_round_trip};
use auth_core::error::Error;
use auth_core::role::Role;

const NOW: i64 = 1_700_000_000;

fn secret() -> Vec<u8> {
    b"a-test-signing-secret".to_vec()
}

#[test]
fn round_trip_returns_matching_claims() {
    let s = secret();
    let claims = token_round_trip(&s, &"uid-1".to_string(), &"User".to_string(), 3600, NOW)
        .unwrap();
    assert_eq!(claims.sub, "uid-1");
    assert_eq!(claims.role, "User");
    assert_eq!(claims.exp, NOW + 3600);
}

#[test]
fn round_trip_admin_claims() {
    let s = secret();
    let token = encode_claims(&s, &"uid-2".to_string(), &"Admin".to_string(), 7200, NOW).unwrap();
    let claims = decode_token(&s, &token, NOW).unwrap();
    assert_eq!(claims.sub, "uid-2");
    assert_eq!(claims.role, "Admin");
    assert_eq!(claims.exp, NOW + 7200);
}

#[test]
fn negative_ttl_is_rejected_as_expired() {
    let s = secret();
    for ttl in [-1i64, -5, -1_000_000, 0] {
        let token = encode_claims(&s, &"uid-3".to_string(), &"User".to_string(), ttl, NOW)
            .unwrap();
        let r = decode_token(&s, &token, NOW);
        assert_eq!(r.unwrap_err(), Error::JWTTokenError);
        assert!(token_round_trip(&s, &"uid-3".to_string(), &"User".to_string(), ttl, NOW).is_err());
    }
}

#[test]
fn token_expires_once_clock_passes_expiry() {
    let s = secret();
    let token = encode_claims(&s, &"uid-4".to_string(), &"User".to_string(), 60, NOW).unwrap();
    assert!(decode_token(&s, &token, NOW).is_ok());
    assert!(decode_token(&s, &token, NOW + 59).is_ok());
    // expiry is strict: at exp the token is already lapsed
    assert_eq!(decode_token(&s, &token, NOW + 60).unwrap_err(), Error::JWTTokenError);
}

#[test]
fn signature_bit_flips_all_fail() {
    let s = secret();
    let token = encode_claims(&s, &"uid-5".to_string(), &"User".to_string(), 3600, NOW).unwrap();
    let dot = token.rfind('.').unwrap();
    let bytes = token.as_bytes();
    for i in (dot + 1)..bytes.len() {
        for bit in 0..8u8 {
            let mut mutated = bytes.to_vec();
            mutated[i] ^= 1u8 << bit;
            if let Ok(mutated_token) = String::from_utf8(mutated) {
                let r = decode_token(&s, &mutated_token, NOW);
                assert!(r.is_err(), "bit {} of byte {} went undetected", bit, i);
            }
        }
    }
}

#[test]
fn wrong_secret_is_rejected() {
    let s = secret();
    let other = b"another-secret".to_vec();
    let token = encode_claims(&s, &"uid-6".to_string(), &"User".to_string(), 3600, NOW).unwrap();
    assert_eq!(decode_token(&other, &token, NOW).unwrap_err(), Error::JWTTokenError);
}

#[test]
fn garbage_tokens_are_rejected() {
    let s = secret();
    for junk in ["", "abc", "a.b.c", "no dots here", "e30.e30.e30"] {
        assert_eq!(decode_token(&s, &junk.to_string(), NOW).unwrap_err(), Error::JWTTokenError);
    }
}

#[test]
fn create_jwt_carries_role_and_one_hour_ttl() {
    let s = secret();
    let token = create_jwt(&s, &"uid-7".to_string(), &Role::Admin, NOW).unwrap();
    let claims = decode_token(&s, &token, NOW).unwrap();
    assert_eq!(claims.sub, "uid-7");
    assert_eq!(claims.role, "Admin");
    assert_eq!(claims.exp, NOW + 3600);
}

#[test]
fn create_refresh_jwt_carries_marker_and_fourteen_day_ttl() {
    let s = secret();
    let token = create_refresh_jwt(&s, &"uid-8".to_string(), NOW).unwrap();
    let claims = decode_token(&s, &token, NOW).unwrap();
    assert_eq!(claims.sub, "uid-8");
    assert_eq!(claims.role, "Refresh");
    assert_eq!(claims.exp, NOW + 14 * 24 * 60 * 60);
}
