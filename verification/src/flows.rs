//! The credential flows: signup, login and refresh, orchestrating the
//! password-hash contract, the token codec and the credential store.
//!
//! Each flow is built from a verified step function — `signup_record`,
//! `login_tokens`, `refresh_tokens` — that takes the record a store lookup
//! produced and decides everything between the store operations, so a
//! transport layer over an external store can call the same verified
//! decisions. Each flow exists twice: a `*_at` form taking the clock reading
//! as an argument, with an exact contract, and a form reading the clock
//! itself. Password hashing is bcrypt behind trusted wrappers; uid
//! generation is a random uuid of which nothing is assumed.

use vstd::prelude::*;

use crate::auth::unix_now;
use crate::codec::{
    create_jwt, create_refresh_jwt, decode_token, spec_jwt_token, spec_jwt_verify,
    ACCESS_TTL_SECONDS, REFRESH_TTL_SECONDS,
};
use crate::error::Error;
use crate::role::{spec_role_name, spec_role_of, Role};
use crate::store::{
    lemma_count_email_push, lemma_count_email_zero, lemma_find_email_first,
    lemma_find_refresh_first, lemma_push_new_email_preserves_wf,
    lemma_update_same_email_preserves_wf, spec_count_email, spec_find_email, spec_find_refresh,
    store_wf, Store, User, UserView,
};

verus! {

pub struct SignupRequest {
    pub email: String,
    pub password: String,
    pub role: String,
}

pub struct LoginRequest {
    pub email: String,
    pub password: String,
}

#[derive(Debug)]
pub struct LoginResponse {
    pub token: String,
    pub refresh_token: String,
}

pub struct RefreshRequest {
    pub refresh_token: String,
}

#[derive(Debug)]
pub struct RefreshResponse {
    pub access_token: String,
    pub refresh_token: Option<String>,
}

/// The role a signup is given when the request names none.
pub fn default_role() -> (r: String)
    ensures
        r@ == "User"@,
{
    "User".to_owned()
}

/// The bcrypt verdict on a password against a bcrypt hash string:
/// `Some(true)` on a match, `Some(false)` on a mismatch, `None` where bcrypt
/// cannot parse the hash string or its cost lies out of range — all of it a
/// deterministic function of the two arguments.
pub uninterp spec fn spec_bcrypt_verify(password: Seq<char>, hash: Seq<char>) -> Option<bool>;

/// Relies on bcrypt's `verify`: acceptance, rejection, or a failure on a
/// malformed hash string are all deterministic in the password and the hash.
#[verifier::external_body]
fn bcrypt_verify(password: &str, hash: &str) -> (r: Option<bool>)
    ensures
        r == spec_bcrypt_verify(password@, hash@),
{
    bcrypt::verify(password, hash).ok()
}

/// Relies on bcrypt's `hash`: a freshly salted, well-formed one-way hash that
/// bcrypt's `verify` accepts for exactly the password it was made from. Only
/// drawing the salt from the operating system's randomness can fail, which
/// surfaces as `None`.
#[verifier::external_body]
fn bcrypt_hash(password: &str) -> (r: Option<String>)
    ensures
        r matches Some(h) ==> spec_bcrypt_verify(password@, h@) == Some(true),
{
    bcrypt::hash(password, bcrypt::DEFAULT_COST).ok()
}

/// Relies on uuid's `Uuid::new_v4`: a freshly generated random uuid in its
/// hyphenated textual form, 36 characters long. Nothing is assumed about
/// which value comes back.
#[verifier::external_body]
fn fresh_uid() -> (r: String)
    ensures
        r@.len() == 36,
{
    uuid::Uuid::new_v4().to_string()
}

/// What building a signup record returns: `HashingError` exactly when the
/// hasher's randomness failed; otherwise a record carrying the email and
/// role, a hash bcrypt accepts for the password, and an initial refresh
/// token bound to the record's fresh uid.
pub open spec fn spec_signup_record(
    secret: Seq<u8>,
    email: Seq<char>,
    password: Seq<char>,
    role: Seq<char>,
    now: int,
    r: Result<User, Error>,
) -> bool {
    match r {
        Err(e) => e == Error::HashingError,
        Ok(u) => {
            &&& u@.email == email
            &&& u@.role == role
            &&& spec_bcrypt_verify(password, u@.password) == Some(true)
            &&& u@.refresh_token == Some(
                spec_jwt_token(secret, u@.uid, "Refresh"@, now + REFRESH_TTL_SECONDS),
            )
        },
    }
}

/// Build the record a signup persists: hash the password, generate a fresh
/// uid, and bind an initial refresh token to it. The decision step between a
/// store's uniqueness check and its insert.
pub fn signup_record(secret: &Vec<u8>, email: String, password: &String, role: String, now: i64) -> (r:
    Result<User, Error>)
    requires
        now + REFRESH_TTL_SECONDS <= i64::MAX,
    ensures
        spec_signup_record(secret@, email@, password@, role@, now as int, r),
{
    let hashed = match bcrypt_hash(password.as_str()) {
        Some(h) => h,
        None => return Err(Error::HashingError),
    };
    let uid = fresh_uid();
    let refresh_token = match create_refresh_jwt(secret, &uid, now) {
        Ok(t) => Some(t),
        Err(e) => return Err(e),
    };
    Ok(User { uid, email, password: hashed, role, refresh_token })
}

/// What issuing a login's token pair for a found record returns:
/// `HashingError` exactly when the stored hash cannot be parsed,
/// `WrongCredentialsError` exactly when bcrypt rejects the password, and
/// otherwise a fresh access token carrying the user's role and a fresh
/// refresh token, both bound to the user's uid.
pub open spec fn spec_login_tokens(
    secret: Seq<u8>,
    u: UserView,
    password: Seq<char>,
    now: int,
    r: Result<LoginResponse, Error>,
) -> bool {
    match spec_bcrypt_verify(password, u.password) {
        None => r == Err::<LoginResponse, Error>(Error::HashingError),
        Some(false) => r == Err::<LoginResponse, Error>(Error::WrongCredentialsError),
        Some(true) => match r {
            Err(_) => false,
            Ok(resp) => {
                &&& resp.token@ == spec_jwt_token(
                    secret,
                    u.uid,
                    spec_role_name(spec_role_of(u.role)),
                    now + ACCESS_TTL_SECONDS,
                )
                &&& resp.refresh_token@ == spec_jwt_token(
                    secret,
                    u.uid,
                    "Refresh"@,
                    now + REFRESH_TTL_SECONDS,
                )
                &&& spec_jwt_verify(secret, resp.refresh_token@) == Some(
                    (u.uid, "Refresh"@, now + REFRESH_TTL_SECONDS),
                )
            },
        },
    }
}

/// Verify a password against a found record's stored hash and, on a match,
/// issue the login token pair. The decision step between a store's lookup
/// and its update.
pub fn login_tokens(secret: &Vec<u8>, user: &User, password: &String, now: i64) -> (r: Result<
    LoginResponse,
    Error,
>)
    requires
        now + REFRESH_TTL_SECONDS <= i64::MAX,
    ensures
        spec_login_tokens(secret@, user@, password@, now as int, r),
{
    let matched = match bcrypt_verify(password.as_str(), user.password.as_str()) {
        Some(b) => b,
        None => return Err(Error::HashingError),
    };
    if !matched {
        return Err(Error::WrongCredentialsError);
    }
    let role = Role::from_str(user.role.as_str());
    let token = match create_jwt(secret, &user.uid, &role, now) {
        Ok(t) => t,
        Err(e) => return Err(e),
    };
    let refresh_token = match create_refresh_jwt(secret, &user.uid, now) {
        Ok(t) => t,
        Err(e) => return Err(e),
    };
    Ok(LoginResponse { token, refresh_token })
}

/// What exchanging a presented refresh token for a found record returns:
/// `JWTTokenError` exactly when the presented token's signature or structure
/// is bad or its expiry has lapsed; otherwise a fresh access token carrying
/// the user's role and a fresh refresh token, both bound to the user's uid.
pub open spec fn spec_refresh_tokens(
    secret: Seq<u8>,
    u: UserView,
    token: Seq<char>,
    now: int,
    r: Result<RefreshResponse, Error>,
) -> bool {
    match spec_jwt_verify(secret, token) {
        None => r == Err::<RefreshResponse, Error>(Error::JWTTokenError),
        Some((sub, role, exp)) => if exp <= now {
            r == Err::<RefreshResponse, Error>(Error::JWTTokenError)
        } else {
            match r {
                Err(_) => false,
                Ok(resp) => {
                    &&& resp.access_token@ == spec_jwt_token(
                        secret,
                        u.uid,
                        spec_role_name(spec_role_of(u.role)),
                        now + ACCESS_TTL_SECONDS,
                    )
                    &&& resp.refresh_token matches Some(rt)
                    &&& rt@ == spec_jwt_token(secret, u.uid, "Refresh"@, now + REFRESH_TTL_SECONDS)
                    &&& spec_jwt_verify(secret, rt@) == Some(
                        (u.uid, "Refresh"@, now + REFRESH_TTL_SECONDS),
                    )
                },
            }
        },
    }
}

/// Validate a presented refresh token independently of the store match and,
/// if it is good, issue the new token pair. The decision step between a
/// store's lookup and its conditional update.
pub fn refresh_tokens(secret: &Vec<u8>, user: &User, presented: &String, now: i64) -> (r: Result<
    RefreshResponse,
    Error,
>)
    requires
        now + REFRESH_TTL_SECONDS <= i64::MAX,
    ensures
        spec_refresh_tokens(secret@, user@, presented@, now as int, r),
{
    match decode_token(secret, presented, now) {
        Ok(_) => (),
        Err(e) => return Err(e),
    };
    let role = Role::from_str(user.role.as_str());
    let access_token = match create_jwt(secret, &user.uid, &role, now) {
        Ok(t) => t,
        Err(e) => return Err(e),
    };
    let new_refresh = match create_refresh_jwt(secret, &user.uid, now) {
        Ok(t) => t,
        Err(e) => return Err(e),
    };
    Ok(RefreshResponse { access_token, refresh_token: Some(new_refresh) })
}

/// What signup does to the store and returns. A taken email is rejected
/// outright; `HashingError` comes exactly when the hasher's randomness
/// failed, leaving the store unchanged; otherwise a record is appended
/// holding a hash bcrypt accepts for the password, the requested role, and
/// an initial refresh token bound to the new uid, and the new uid comes
/// back.
pub open spec fn spec_signup(
    pre: Seq<UserView>,
    post: Seq<UserView>,
    secret: Seq<u8>,
    email: Seq<char>,
    password: Seq<char>,
    role: Seq<char>,
    now: int,
    r: Result<String, Error>,
) -> bool {
    if spec_find_email(pre, email) is Some {
        r == Err::<String, Error>(Error::UserAlreadyExistsError) && post == pre
    } else {
        match r {
            Err(e) => e == Error::HashingError && post == pre,
            Ok(uid) => {
                &&& post.len() == pre.len() + 1
                &&& post == pre.push(post.last())
                &&& post.last().uid == uid@
                &&& post.last().email == email
                &&& post.last().role == role
                &&& spec_bcrypt_verify(password, post.last().password) == Some(true)
                &&& post.last().refresh_token == Some(
                    spec_jwt_token(secret, uid@, "Refresh"@, now + REFRESH_TTL_SECONDS),
                )
            },
        }
    }
}

/// Sign a new user up at time `now`: reject a taken email, build the new
/// record, and persist it.
pub fn signup_at(store: &mut Store, secret: &Vec<u8>, req: SignupRequest, now: i64) -> (r: Result<
    String,
    Error,
>)
    requires
        store_wf(old(store)@),
        now + REFRESH_TTL_SECONDS <= i64::MAX,
    ensures
        store_wf(final(store)@),
        spec_signup(old(store)@, final(store)@, secret@, req.email@, req.password@, req.role@, now as int, r),
{
    let SignupRequest { email, password, role } = req;
    if store.find_by_email(&email).is_some() {
        return Err(Error::UserAlreadyExistsError);
    }
    let user = match signup_record(secret, email, &password, role, now) {
        Ok(u) => u,
        Err(e) => return Err(e),
    };
    let uid = user.uid.clone();
    proof {
        lemma_find_email_first(old(store)@, req.email@);
        lemma_push_new_email_preserves_wf(old(store)@, user@);
    }
    store.push_user(user);
    Ok(uid)
}

/// What login does to the store and returns. An unknown email is
/// `UserNotFoundError`; otherwise the outcome is `spec_login_tokens` on the
/// found record, and exactly on success the stored refresh token is
/// unconditionally replaced by the returned one — the store never holds a
/// refresh token that was not handed to a caller.
pub open spec fn spec_login(
    pre: Seq<UserView>,
    post: Seq<UserView>,
    secret: Seq<u8>,
    email: Seq<char>,
    password: Seq<char>,
    now: int,
    r: Result<LoginResponse, Error>,
) -> bool {
    match spec_find_email(pre, email) {
        None => r == Err::<LoginResponse, Error>(Error::UserNotFoundError) && post == pre,
        Some(i) => {
            let u = pre[i];
            &&& spec_login_tokens(secret, u, password, now, r)
            &&& match r {
                Ok(resp) => post == pre.update(
                    i,
                    UserView { refresh_token: Some(resp.refresh_token@), ..u },
                ),
                Err(_) => post == pre,
            }
        },
    }
}

/// Log a user in at time `now`: find the record by email, verify the
/// password and issue the token pair, and persist the new refresh token over
/// any prior value.
pub fn login_at(store: &mut Store, secret: &Vec<u8>, req: LoginRequest, now: i64) -> (r: Result<
    LoginResponse,
    Error,
>)
    requires
        store_wf(old(store)@),
        now + REFRESH_TTL_SECONDS <= i64::MAX,
    ensures
        store_wf(final(store)@),
        spec_login(old(store)@, final(store)@, secret@, req.email@, req.password@, now as int, r),
{
    let i = match store.find_by_email(&req.email) {
        Some(i) => i,
        None => return Err(Error::UserNotFoundError),
    };
    let resp = match login_tokens(secret, store.user_at(i), &req.password, now) {
        Ok(t) => t,
        Err(e) => return Err(e),
    };
    proof {
        lemma_update_same_email_preserves_wf(
            store@,
            i as int,
            (UserView { refresh_token: Some(resp.refresh_token@), ..store@[i as int] }),
        );
    }
    store.set_refresh(i, resp.refresh_token.clone());
    Ok(resp)
}

/// What refresh does to the store and returns. The presented token must
/// equal some record's currently stored refresh token, else
/// `UserNotFoundError` — this is how a superseded token is refused.
/// Otherwise the outcome is `spec_refresh_tokens` on the found record, and
/// exactly on success the stored token is rotated to the returned one — the
/// store never holds a refresh token that was not handed to a caller.
pub open spec fn spec_refresh(
    pre: Seq<UserView>,
    post: Seq<UserView>,
    secret: Seq<u8>,
    token: Seq<char>,
    now: int,
    r: Result<RefreshResponse, Error>,
) -> bool {
    match spec_find_refresh(pre, token) {
        None => r == Err::<RefreshResponse, Error>(Error::UserNotFoundError) && post == pre,
        Some(i) => {
            let u = pre[i];
            &&& spec_refresh_tokens(secret, u, token, now, r)
            &&& match r {
                Ok(resp) => resp.refresh_token matches Some(rt) && post == pre.update(
                    i,
                    UserView { refresh_token: Some(rt@), ..u },
                ),
                Err(_) => post == pre,
            }
        },
    }
}

/// Exchange a refresh token at time `now`: find the record whose stored
/// token equals the presented one, validate the token and issue the new
/// pair, and rotate the stored token to the new value by conditional update.
pub fn refresh_at(store: &mut Store, secret: &Vec<u8>, req: RefreshRequest, now: i64) -> (r: Result<
    RefreshResponse,
    Error,
>)
    requires
        store_wf(old(store)@),
        now + REFRESH_TTL_SECONDS <= i64::MAX,
    ensures
        store_wf(final(store)@),
        spec_refresh(old(store)@, final(store)@, secret@, req.refresh_token@, now as int, r),
{
    let i = match store.find_by_refresh(&req.refresh_token) {
        Some(i) => i,
        None => return Err(Error::UserNotFoundError),
    };
    let resp = match refresh_tokens(secret, store.user_at(i), &req.refresh_token, now) {
        Ok(t) => t,
        Err(e) => return Err(e),
    };
    let new_refresh = match &resp.refresh_token {
        Some(t) => t.clone(),
        None => return Err(Error::JWTTokenCreationError),
    };
    proof {
        lemma_update_same_email_preserves_wf(
            store@,
            i as int,
            (UserView { refresh_token: Some(new_refresh@), ..store@[i as int] }),
        );
    }
    match store.rotate_refresh(&req.refresh_token, new_refresh) {
        Some(_) => Ok(resp),
        // unreachable: the store cannot have changed since the lookup, so the
        // conditional update cannot miss; kept to keep the rotation a single
        // compare-and-swap step
        None => Err(Error::UserNotFoundError),
    }
}

/// Sign a new user up at the current time.
pub fn signup(store: &mut Store, secret: &Vec<u8>, req: SignupRequest) -> (r: Result<String, Error>)
    requires
        store_wf(old(store)@),
    ensures
        store_wf(final(store)@),
        (r == Err::<String, Error>(Error::JWTTokenCreationError) && final(store)@ == old(store)@)
            || exists|now: int|
            spec_signup(old(store)@, final(store)@, secret@, req.email@, req.password@, req.role@, now, r),
{
    let now = unix_now();
    if now > i64::MAX - REFRESH_TTL_SECONDS {
        return Err(Error::JWTTokenCreationError);
    }
    let r = signup_at(store, secret, req, now);
    r
}

/// Log a user in at the current time.
pub fn login(store: &mut Store, secret: &Vec<u8>, req: LoginRequest) -> (r: Result<
    LoginResponse,
    Error,
>)
    requires
        store_wf(old(store)@),
    ensures
        store_wf(final(store)@),
        (r == Err::<LoginResponse, Error>(Error::JWTTokenCreationError) && final(store)@ == old(store)@)
            || exists|now: int|
            spec_login(old(store)@, final(store)@, secret@, req.email@, req.password@, now, r),
{
    let now = unix_now();
    if now > i64::MAX - REFRESH_TTL_SECONDS {
        return Err(Error::JWTTokenCreationError);
    }
    let r = login_at(store, secret, req, now);
    r
}

/// Exchange a refresh token at the current time.
pub fn refresh(store: &mut Store, secret: &Vec<u8>, req: RefreshRequest) -> (r: Result<
    RefreshResponse,
    Error,
>)
    requires
        store_wf(old(store)@),
    ensures
        store_wf(final(store)@),
        (r == Err::<RefreshResponse, Error>(Error::JWTTokenCreationError) && final(store)@ == old(store)@)
            || exists|now: int|
            spec_refresh(old(store)@, final(store)@, secret@, req.refresh_token@, now, r),
{
    let now = unix_now();
    if now > i64::MAX - REFRESH_TTL_SECONDS {
        return Err(Error::JWTTokenCreationError);
    }
    let r = refresh_at(store, secret, req, now);
    r
}

/// Signing up the same email twice: the first signup succeeds, so the second
/// is rejected with `UserAlreadyExistsError`, leaves the store unchanged,
/// and the store holds exactly one record for that email.
pub proof fn lemma_duplicate_signup_rejected(
    pre: Seq<UserView>,
    mid: Seq<UserView>,
    post: Seq<UserView>,
    secret: Seq<u8>,
    email: Seq<char>,
    pw1: Seq<char>,
    pw2: Seq<char>,
    role1: Seq<char>,
    role2: Seq<char>,
    now1: int,
    now2: int,
    r1: Result<String, Error>,
    r2: Result<String, Error>,
)
    requires
        spec_find_email(pre, email) is None,
        spec_signup(pre, mid, secret, email, pw1, role1, now1, r1),
        r1 is Ok,
        spec_signup(mid, post, secret, email, pw2, role2, now2, r2),
    ensures
        r2 == Err::<String, Error>(Error::UserAlreadyExistsError),
        post == mid,
        spec_count_email(post, email) == 1,
{
    lemma_find_email_first(pre, email);
    lemma_count_email_zero(pre, email);
    let u = mid.last();
    assert(mid == pre.push(u) && u.email == email);
    lemma_count_email_push(pre, u, email);
    lemma_find_email_first(mid, email);
    assert(mid[mid.len() - 1].email == email);
    assert(spec_find_email(mid, email) is Some);
}

/// Refresh rotation prevents reuse: once a presented refresh token has been
/// rotated, presenting the same token again fails with `UserNotFoundError`
/// and leaves the store unchanged. This needs the presented token's expiry
/// to differ from the one stamped on its replacement (two issuances at
/// distinct timestamps always differ), and that no second record stored the
/// same token.
pub proof fn lemma_refresh_rotation_single_use(
    pre: Seq<UserView>,
    mid: Seq<UserView>,
    post: Seq<UserView>,
    secret: Seq<u8>,
    token: Seq<char>,
    now1: int,
    now2: int,
    r1: Result<RefreshResponse, Error>,
    r2: Result<RefreshResponse, Error>,
)
    requires
        spec_refresh(pre, mid, secret, token, now1, r1),
        r1 is Ok,
        (spec_jwt_verify(secret, token) matches Some(c) && c.2 != now1 + REFRESH_TTL_SECONDS),
        forall|j: int|
            0 <= j < pre.len() && pre[j].refresh_token == Some(token) ==> Some(j)
                == spec_find_refresh(pre, token),
        spec_refresh(mid, post, secret, token, now2, r2),
    ensures
        r2 == Err::<RefreshResponse, Error>(Error::UserNotFoundError),
        post == mid,
{
    lemma_find_refresh_first(pre, token);
    match spec_find_refresh(pre, token) {
        None => {
            assert(false);
        },
        Some(i) => {
            match r1 {
                Err(_) => {
                    assert(false);
                },
                Ok(resp) => {
                    let rt = resp.refresh_token.unwrap();
                    assert(spec_jwt_verify(secret, rt@) == Some(
                        (pre[i].uid, "Refresh"@, now1 + REFRESH_TTL_SECONDS),
                    ));
                    assert(rt@ != token);
                    assert forall|j: int| 0 <= j < mid.len() implies mid[j].refresh_token != Some(
                        token,
                    ) by {
                        if j == i {
                            assert(mid[j].refresh_token == Some(rt@));
                        } else {
                            assert(mid[j] == pre[j]);
                        }
                    }
                    lemma_find_refresh_first(mid, token);
                    if spec_find_refresh(mid, token) is Some {
                        assert(false);
                    }
                },
            }
        },
    }
}

} // verus!
