//! The closed set of authorization roles, and the policy by which a required
//! role admits a token's role.
//!
//! Unknown or missing role strings degrade to `User`, the least privilege.
//! A `User` requirement only checks that the token decoded; an `Admin`
//! requirement admits exactly `Admin` tokens.

use vstd::prelude::*;

verus! {

#[derive(Clone, Copy, Debug, PartialEq, Eq, Structural)]
pub enum Role {
    User,
    Admin,
}

/// The role a role string names: `"Admin"` names `Admin`, anything else
/// degrades to `User`.
pub open spec fn spec_role_of(s: Seq<char>) -> Role {
    if s == "Admin"@ {
        Role::Admin
    } else {
        Role::User
    }
}

/// The canonical name of a role.
pub open spec fn spec_role_name(role: Role) -> Seq<char> {
    match role {
        Role::User => "User"@,
        Role::Admin => "Admin"@,
    }
}

/// Whether a token carrying `actual` satisfies a guard requiring `required`.
/// A `User` requirement admits every decoded token; an `Admin` requirement
/// admits only `Admin`.
pub open spec fn spec_role_allows(required: Role, actual: Role) -> bool {
    required == Role::User || actual == Role::Admin
}

impl Role {
    /// Parse a role string; unknown values default to `User`.
    pub fn from_str(role: &str) -> (r: Role)
        ensures
            r == spec_role_of(role@),
    {
        if role.to_owned() == "Admin".to_owned() {
            Role::Admin
        } else {
            Role::User
        }
    }

    /// The canonical name of this role.
    pub fn name(&self) -> (r: String)
        ensures
            r@ == spec_role_name(*self),
    {
        match self {
            Role::User => "User".to_owned(),
            Role::Admin => "Admin".to_owned(),
        }
    }
}

/// Asymmetric role enforcement: an `Admin` token passes both an `Admin` and a
/// `User` guard; a `User` token passes a `User` guard but never an `Admin`
/// guard.
pub proof fn lemma_role_enforcement()
    ensures
        spec_role_allows(Role::Admin, Role::Admin),
        spec_role_allows(Role::User, Role::Admin),
        spec_role_allows(Role::User, Role::User),
        !spec_role_allows(Role::Admin, Role::User),
{
}

} // verus!
