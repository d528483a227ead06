//! The per-request authorization filter: extract the bearer token from an
//! `Authorization` header, validate it, and enforce the required role.
//!
//! The header arrives as raw bytes. It must be valid UTF-8 and begin with
//! `"Bearer "`; the rest is the token. A missing header is
//! `NoAuthHeaderError`, a malformed one `InvalidAuthHeaderError`; an invalid
//! or expired token propagates `JWTTokenError`; a role too low for the guard
//! is `NoPermissionError`. On success the filter yields the token's subject
//! as the authenticated identity.

use vstd::prelude::*;

use crate::codec::{decode_token, spec_jwt_verify};
use crate::error::Error;
use crate::role::{spec_role_allows, spec_role_of, Role};
use vstd::string::StrSliceExecFns;
use vstd::string::StringExecFns;
use vstd::utf8::{decode_utf8, valid_utf8};

verus! {

/// The bytes of an optional header value.
pub open spec fn spec_opt_bytes(h: Option<&Vec<u8>>) -> Option<Seq<u8>> {
    match h {
        Some(b) => Some(b@),
        None => None::<Seq<u8>>,
    }
}

/// The token embedded in an `Authorization` header value: the characters
/// after the `"Bearer "` prefix, if the value carries that prefix.
pub open spec fn spec_bearer_token(header: Seq<char>) -> Option<Seq<char>> {
    if header.len() >= 7 && header.subrange(0, 7) == "Bearer "@ {
        Some(header.subrange(7, header.len() as int))
    } else {
        None::<Seq<char>>
    }
}

/// Relies on std's `String::from_utf8`: it succeeds exactly on valid UTF-8
/// input and returns the characters those bytes encode.
#[verifier::external_body]
fn bytes_to_string(bytes: &Vec<u8>) -> (r: Option<String>)
    ensures
        r matches Some(s) ==> valid_utf8(bytes@) && s@ == decode_utf8(bytes@),
        r is None ==> !valid_utf8(bytes@),
{
    String::from_utf8(bytes.clone()).ok()
}

/// What extracting the token from an optional `Authorization` header value
/// returns.
pub open spec fn spec_header_token(header: Option<Seq<u8>>, r: Result<String, Error>) -> bool {
    match header {
        None => r == Err::<String, Error>(Error::NoAuthHeaderError),
        Some(bytes) => if !valid_utf8(bytes) {
            r == Err::<String, Error>(Error::InvalidAuthHeaderError)
        } else {
            match spec_bearer_token(decode_utf8(bytes)) {
                None => r == Err::<String, Error>(Error::InvalidAuthHeaderError),
                Some(tok) => match r {
                    Ok(t) => t@ == tok,
                    Err(_) => false,
                },
            }
        },
    }
}

/// Extract the bearer token from an optional `Authorization` header value.
pub fn jwt_from_header(auth_header: Option<&Vec<u8>>) -> (r: Result<String, Error>)
    ensures
        spec_header_token(spec_opt_bytes(auth_header), r),
{
    let bytes = match auth_header {
        Some(b) => b,
        None => return Err(Error::NoAuthHeaderError),
    };
    let s = match bytes_to_string(bytes) {
        Some(s) => s,
        None => return Err(Error::InvalidAuthHeaderError),
    };
    let bearer = "Bearer ";
    proof {
        reveal_strlit("Bearer ");
    }
    let n = s.as_str().unicode_len();
    if n < 7 {
        return Err(Error::InvalidAuthHeaderError);
    }
    let mut i: usize = 0;
    while i < 7
        invariant
            0 <= i <= 7,
            n == s@.len(),
            n >= 7,
            spec_opt_bytes(auth_header) == Some(bytes@),
            valid_utf8(bytes@),
            s@ == decode_utf8(bytes@),
            bearer@ == "Bearer "@,
            bearer@.len() == 7,
            forall|j: int| 0 <= j < i ==> s@[j] == bearer@[j],
        decreases 7 - i,
    {
        if s.as_str().get_char(i) != bearer.get_char(i) {
            proof {
                assert(s@.subrange(0, 7)[i as int] != "Bearer "@[i as int]);
                assert(s@.subrange(0, 7) != "Bearer "@);
            }
            return Err(Error::InvalidAuthHeaderError);
        }
        i += 1;
    }
    proof {
        assert(s@.subrange(0, 7) =~= "Bearer "@);
    }
    let token = s.as_str().substring_char(7, n).to_owned();
    proof {
        assert(token@ =~= spec_bearer_token(s@).unwrap());
    }
    Ok(token)
}

/// What authorizing a request with the given required role, header and clock
/// returns.
pub open spec fn spec_authorize(
    secret: Seq<u8>,
    required: Role,
    header: Option<Seq<u8>>,
    now: int,
    r: Result<String, Error>,
) -> bool {
    match header {
        None => r == Err::<String, Error>(Error::NoAuthHeaderError),
        Some(bytes) => if !valid_utf8(bytes) {
            r == Err::<String, Error>(Error::InvalidAuthHeaderError)
        } else {
            match spec_bearer_token(decode_utf8(bytes)) {
                None => r == Err::<String, Error>(Error::InvalidAuthHeaderError),
                Some(tok) => match spec_jwt_verify(secret, tok) {
                    None => r == Err::<String, Error>(Error::JWTTokenError),
                    Some((sub, role, exp)) => if exp <= now {
                        r == Err::<String, Error>(Error::JWTTokenError)
                    } else if !spec_role_allows(required, spec_role_of(role)) {
                        r == Err::<String, Error>(Error::NoPermissionError)
                    } else {
                        match r {
                            Ok(u) => u@ == sub,
                            Err(_) => false,
                        }
                    },
                },
            }
        },
    }
}

/// Validate the bearer token in `auth_header` at time `now` and enforce
/// `required`; on success, return the token's subject.
pub fn authorize_at(secret: &Vec<u8>, required: &Role, auth_header: Option<&Vec<u8>>, now: i64) -> (r:
    Result<String, Error>)
    ensures
        spec_authorize(secret@, *required, spec_opt_bytes(auth_header), now as int, r),
{
    let token = match jwt_from_header(auth_header) {
        Ok(t) => t,
        Err(e) => return Err(e),
    };
    let claims = match decode_token(secret, &token, now) {
        Ok(c) => c,
        Err(e) => return Err(e),
    };
    let token_role = Role::from_str(claims.role.as_str());
    if *required == Role::Admin && token_role != Role::Admin {
        return Err(Error::NoPermissionError);
    }
    Ok(claims.sub)
}

/// Relies on chrono's `Utc::now`: the clock reading, in seconds since the
/// Unix epoch. Nothing is assumed of the value.
#[verifier::external_body]
pub(crate) fn unix_now() -> i64 {
    chrono::Utc::now().timestamp()
}

/// Validate the bearer token in `auth_header` at the current time and enforce
/// `required`; on success, return the token's subject.
pub fn authorize(secret: &Vec<u8>, required: &Role, auth_header: Option<&Vec<u8>>) -> (r: Result<
    String,
    Error,
>)
    ensures
        exists|now: int| spec_authorize(secret@, *required, spec_opt_bytes(auth_header), now, r),
{
    let now = unix_now();
    let r = authorize_at(secret, required, auth_header, now);
    proof {
        assert(spec_authorize(secret@, *required, spec_opt_bytes(auth_header), now as int, r));
    }
    r
}

/// The greeting a protected user route answers with.
pub fn user_greeting(uid: &String) -> (r: String)
    ensures
        r@ == "Hello User "@ + uid@,
{
    "Hello User ".to_owned().concat(uid.as_str())
}

/// The greeting a protected admin route answers with.
pub fn admin_greeting(uid: &String) -> (r: String)
    ensures
        r@ == "Hello Admin "@ + uid@,
{
    "Hello Admin ".to_owned().concat(uid.as_str())
}

} // verus!
