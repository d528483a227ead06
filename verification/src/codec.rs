//! The token codec: signed claims encoded to and decoded from compact token
//! strings.
//!
//! Signing and signature verification are done by the `jsonwebtoken` crate
//! (HMAC-SHA512) behind two trusted wrappers. Both directions are
//! deterministic functions of the secret and their input, so their results
//! are named by uninterpreted spec functions; the expiry check itself is
//! verified code.

use vstd::prelude::*;

use crate::error::Error;
use crate::role::{spec_role_name, Role};

verus! {

/// Lifetime of an access token, in seconds (one hour).
pub const ACCESS_TTL_SECONDS: i64 = 3600;

/// Lifetime of a refresh token, in seconds (fourteen days).
pub const REFRESH_TTL_SECONDS: i64 = 1209600;

/// The payload of a signed token: subject (a user id), a role-or-kind string
/// (`"User"`, `"Admin"`, or the reserved refresh marker `"Refresh"`), and an
/// absolute expiry timestamp in seconds since the Unix epoch.
#[derive(Debug)]
pub struct Claims {
    pub sub: String,
    pub role: String,
    pub exp: i64,
}

/// The token that signing the claims `(sub, role, exp)` with `secret` yields.
pub uninterp spec fn spec_jwt_token(secret: Seq<u8>, sub: Seq<char>, role: Seq<char>, exp: int) -> Seq<char>;

/// The outcome of signature verification of `token` under `secret`: the
/// embedded claims if the signature and structure are good, `None` otherwise.
pub uninterp spec fn spec_jwt_verify(secret: Seq<u8>, token: Seq<char>) -> Option<(Seq<char>, Seq<char>, int)>;

/// Relies on jsonwebtoken's `encode` with HMAC-SHA512: signing with an HMAC
/// secret accepts any key length and cannot fail, the token is a
/// deterministic function of the secret and the claims, and jsonwebtoken's
/// `decode` under the same secret recovers exactly those claims from it.
#[verifier::external_body]
fn jwt_encode_raw(secret: &Vec<u8>, sub: &str, role: &str, exp: i64) -> (r: Option<String>)
    ensures
        r is Some,
        r matches Some(t) ==> {
            &&& t@ == spec_jwt_token(secret@, sub@, role@, exp as int)
            &&& spec_jwt_verify(secret@, t@) == Some((sub@, role@, exp as int))
        },
{
    let mut claims = serde_json::Map::new();
    claims.insert("sub".to_string(), serde_json::Value::from(sub));
    claims.insert("role".to_string(), serde_json::Value::from(role));
    claims.insert("exp".to_string(), serde_json::Value::from(exp));
    let header = jsonwebtoken::Header::new(jsonwebtoken::Algorithm::HS512);
    let key = jsonwebtoken::EncodingKey::from_secret(secret);
    jsonwebtoken::encode(&header, &serde_json::Value::Object(claims), &key).ok()
}

/// Relies on jsonwebtoken's `decode` with HMAC-SHA512 and expiry validation
/// turned off: acceptance, and the claims recovered, are a deterministic
/// function of the secret and the token, and a token is accepted only if its
/// signature verifies under the secret.
#[verifier::external_body]
fn jwt_decode_raw(secret: &Vec<u8>, token: &str) -> (r: Option<Claims>)
    ensures
        r matches Some(c) ==> spec_jwt_verify(secret@, token@) == Some((c.sub@, c.role@, c.exp as int)),
        r is None ==> spec_jwt_verify(secret@, token@) is None,
{
    let key = jsonwebtoken::DecodingKey::from_secret(secret);
    let mut validation = jsonwebtoken::Validation::new(jsonwebtoken::Algorithm::HS512);
    validation.validate_exp = false;
    validation.required_spec_claims = std::collections::HashSet::new();
    let data = jsonwebtoken::decode::<serde_json::Value>(token, &key, &validation).ok()?;
    let sub = data.claims.get("sub")?.as_str()?.to_string();
    let role = data.claims.get("role")?.as_str()?.to_string();
    let exp = data.claims.get("exp")?.as_i64()?;
    Some(Claims { sub, role, exp })
}

/// Build claims expiring `ttl` seconds after `now` and sign them.
pub fn encode_claims(secret: &Vec<u8>, sub: &String, role: &String, ttl: i64, now: i64) -> (r: Result<
    String,
    Error,
>)
    requires
        i64::MIN <= now + ttl <= i64::MAX,
    ensures
        r is Ok,
        r matches Ok(t) ==> {
            &&& t@ == spec_jwt_token(secret@, sub@, role@, now + ttl)
            &&& spec_jwt_verify(secret@, t@) == Some((sub@, role@, (now + ttl) as int))
        },
{
    let exp: i64 = now + ttl;
    match jwt_encode_raw(secret, sub.as_str(), role.as_str(), exp) {
        Some(t) => Ok(t),
        None => Err(Error::JWTTokenCreationError),
    }
}

/// Issue an access token for `uid` carrying the given role, valid for one
/// hour from `now`.
pub fn create_jwt(secret: &Vec<u8>, uid: &String, role: &Role, now: i64) -> (r: Result<String, Error>)
    requires
        now + ACCESS_TTL_SECONDS <= i64::MAX,
    ensures
        r is Ok,
        r matches Ok(t) ==> {
            &&& t@ == spec_jwt_token(secret@, uid@, spec_role_name(*role), now + ACCESS_TTL_SECONDS)
            &&& spec_jwt_verify(secret@, t@) == Some(
                (uid@, spec_role_name(*role), (now + ACCESS_TTL_SECONDS) as int),
            )
        },
{
    let role_name = role.name();
    encode_claims(secret, uid, &role_name, ACCESS_TTL_SECONDS, now)
}

/// Issue a refresh token for `uid`, marked with the reserved role value
/// `"Refresh"`, valid for fourteen days from `now`.
pub fn create_refresh_jwt(secret: &Vec<u8>, uid: &String, now: i64) -> (r: Result<String, Error>)
    requires
        now + REFRESH_TTL_SECONDS <= i64::MAX,
    ensures
        r is Ok,
        r matches Ok(t) ==> {
            &&& t@ == spec_jwt_token(secret@, uid@, "Refresh"@, now + REFRESH_TTL_SECONDS)
            &&& spec_jwt_verify(secret@, t@) == Some(
                (uid@, "Refresh"@, (now + REFRESH_TTL_SECONDS) as int),
            )
        },
{
    let marker = "Refresh".to_owned();
    encode_claims(secret, uid, &marker, REFRESH_TTL_SECONDS, now)
}

/// What decoding `token` under `secret` at time `now` returns: the embedded
/// claims if the signature verifies and the expiry lies strictly in the
/// future, and `JWTTokenError` on a bad signature, malformed structure, or
/// lapsed expiry.
pub open spec fn spec_decode(secret: Seq<u8>, token: Seq<char>, now: int, r: Result<Claims, Error>) -> bool {
    match spec_jwt_verify(secret, token) {
        None => r == Err::<Claims, Error>(Error::JWTTokenError),
        Some((sub, role, exp)) => if exp > now {
            match r {
                Ok(c) => c.sub@ == sub && c.role@ == role && c.exp == exp,
                Err(_) => false,
            }
        } else {
            r == Err::<Claims, Error>(Error::JWTTokenError)
        },
    }
}

/// Verify a token's signature and check that it has not expired; a pure
/// function of the secret, the token and the current time.
pub fn decode_token(secret: &Vec<u8>, token: &String, now: i64) -> (r: Result<Claims, Error>)
    ensures
        spec_decode(secret@, token@, now as int, r),
{
    match jwt_decode_raw(secret, token.as_str()) {
        Some(c) => if c.exp > now {
            Ok(c)
        } else {
            Err(Error::JWTTokenError)
        },
        None => Err(Error::JWTTokenError),
    }
}

/// Round trip of the codec: decoding a freshly issued token under the same
/// secret and at the issuing time succeeds exactly when the ttl is positive,
/// yields exactly the claims the token was issued with, and rejects a token
/// issued with a non-positive ttl as expired.
pub fn token_round_trip(secret: &Vec<u8>, sub: &String, role: &String, ttl: i64, now: i64) -> (r:
    Result<Claims, Error>)
    requires
        i64::MIN <= now + ttl <= i64::MAX,
    ensures
        r is Ok <==> ttl > 0,
        r matches Ok(c) ==> c.sub@ == sub@ && c.role@ == role@ && c.exp == now + ttl,
        r matches Err(e) ==> e == Error::JWTTokenError,
{
    let token = match encode_claims(secret, sub, role, ttl, now) {
        Ok(t) => t,
        Err(e) => return Err(e),
    };
    decode_token(secret, &token, now)
}

} // verus!
