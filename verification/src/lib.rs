//! Credential and session lifecycle core: a signed-token codec, a role model,
//! a bearer-token authorization filter, and the signup / login / refresh
//! credential flows over an in-memory credential store.
//!
//! Token signing, password hashing, unique-id generation and the clock are
//! provided by outside crates behind trusted wrappers; everything that
//! decides — expiry checks, role enforcement, header parsing, store lookups
//! and refresh-token rotation — is verified.

pub mod auth;
pub mod codec;
pub mod error;
pub mod flows;
pub mod role;
pub mod store;
