//! The error taxonomy of the credential core, and the response mapping that
//! the transport layer applies to each error.

use vstd::prelude::*;

verus! {

#[derive(Clone, Copy, Debug, PartialEq, Eq, Structural)]
pub enum Error {
    WrongCredentialsError,
    JWTTokenCreationError,
    JWTTokenError,
    NoAuthHeaderError,
    InvalidAuthHeaderError,
    NoPermissionError,
    KeyNotFoundError,
    DatabaseInsertError,
    UserAlreadyExistsError,
    HashingError,
    UserNotFoundError,
}

/// The HTTP status code each error surfaces as.
pub open spec fn spec_error_status(e: Error) -> u16 {
    match e {
        Error::WrongCredentialsError => 403,
        Error::JWTTokenCreationError => 500,
        Error::JWTTokenError => 401,
        Error::NoAuthHeaderError => 401,
        Error::InvalidAuthHeaderError => 401,
        Error::NoPermissionError => 401,
        Error::KeyNotFoundError => 500,
        Error::DatabaseInsertError => 500,
        Error::UserAlreadyExistsError => 400,
        Error::HashingError => 500,
        Error::UserNotFoundError => 404,
    }
}

/// The message body each error surfaces with. Token-creation failures are
/// masked as a generic internal error; every other error reports its own
/// description.
pub open spec fn spec_error_message(e: Error) -> Seq<char> {
    match e {
        Error::WrongCredentialsError => "wrong credentials"@,
        Error::JWTTokenCreationError => "Internal Server Error!"@,
        Error::JWTTokenError => "jwt token no valid"@,
        Error::NoAuthHeaderError => "no auth header"@,
        Error::InvalidAuthHeaderError => "invalid auth header"@,
        Error::NoPermissionError => "no permission"@,
        Error::KeyNotFoundError => "key not found"@,
        Error::DatabaseInsertError => "Insertion in DB failed"@,
        Error::UserAlreadyExistsError => "User aready exists"@,
        Error::HashingError => "Could not hash password"@,
        Error::UserNotFoundError => "Could not find user"@,
    }
}

impl Error {
    /// The HTTP status code this error surfaces as.
    pub fn status(&self) -> (r: u16)
        ensures
            r == spec_error_status(*self),
    {
        match self {
            Error::WrongCredentialsError => 403,
            Error::JWTTokenCreationError => 500,
            Error::JWTTokenError => 401,
            Error::NoAuthHeaderError => 401,
            Error::InvalidAuthHeaderError => 401,
            Error::NoPermissionError => 401,
            Error::KeyNotFoundError => 500,
            Error::DatabaseInsertError => 500,
            Error::UserAlreadyExistsError => 400,
            Error::HashingError => 500,
            Error::UserNotFoundError => 404,
        }
    }

    /// The message body this error surfaces with.
    pub fn message(&self) -> (r: String)
        ensures
            r@ == spec_error_message(*self),
    {
        match self {
            Error::WrongCredentialsError => "wrong credentials".to_owned(),
            Error::JWTTokenCreationError => "Internal Server Error!".to_owned(),
            Error::JWTTokenError => "jwt token no valid".to_owned(),
            Error::NoAuthHeaderError => "no auth header".to_owned(),
            Error::InvalidAuthHeaderError => "invalid auth header".to_owned(),
            Error::NoPermissionError => "no permission".to_owned(),
            Error::KeyNotFoundError => "key not found".to_owned(),
            Error::DatabaseInsertError => "Insertion in DB failed".to_owned(),
            Error::UserAlreadyExistsError => "User aready exists".to_owned(),
            Error::HashingError => "Could not hash password".to_owned(),
            Error::UserNotFoundError => "Could not find user".to_owned(),
        }
    }
}

} // verus!
