//! The access policies that gate every endpoint.
//!
//! Every mutating or sensitive operation re-derives its authorization from
//! the caller's validated claims and the owner of the touched entity, never
//! from client-supplied identity fields. The policy of each endpoint is one
//! of four reusable predicates, so that near-identical endpoints cannot
//! drift apart.

use vstd::prelude::*;

use crate::auth::Claims;

verus! {

/// The four access policies used by the endpoints.
#[derive(Clone, Copy, Debug, PartialEq, Eq, Structural)]
pub enum Policy {
    /// Any authenticated caller is allowed.
    AnyAuthenticated,
    /// Only an admin is allowed.
    IsAdmin,
    /// The owner of the entity (the account itself) or an admin.
    IsSelfOrAdmin,
    /// The author of the entity (a comment) or an admin.
    IsAuthorOrAdmin,
}

/// What a policy decides, given the caller's claims and the subject id the
/// touched entity is owned by.
pub open spec fn policy_allows(policy: Policy, claims: Claims, owner_id: i32) -> bool {
    match policy {
        Policy::AnyAuthenticated => true,
        Policy::IsAdmin => claims.admin,
        Policy::IsSelfOrAdmin => claims.admin || claims.id == owner_id,
        Policy::IsAuthorOrAdmin => claims.admin || claims.id == owner_id,
    }
}

impl Policy {
    /// Decide whether `claims` may act on an entity owned by `owner_id`.
    pub fn allows(&self, claims: &Claims, owner_id: i32) -> (r: bool)
        ensures
            r == policy_allows(*self, *claims, owner_id),
    {
        match self {
            Policy::AnyAuthenticated => true,
            Policy::IsAdmin => claims.admin,
            Policy::IsSelfOrAdmin => claims.admin || claims.id == owner_id,
            Policy::IsAuthorOrAdmin => claims.admin || claims.id == owner_id,
        }
    }
}

} // verus!
