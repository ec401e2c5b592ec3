//! The endpoint family: one verified function per route.
//!
//! Every endpoint is the same thin composition: authenticate, check the
//! policy from the table in [`crate::policy`], perform the store
//! operation, and project the result for the caller. Each one carries a
//! contract equating its outcome and the new store with a spec-level
//! transition function of the old store and the caller's claims, so that
//! the access rules are facts about the specs, not just about one code
//! path.

use vstd::prelude::*;

use crate::auth::{authenticate, spec_authenticate, view_opt_str, Claims};
use crate::error::{BabibappError, ErrorKind};

pub mod comment;
pub mod student;
pub mod teacher;
pub mod token;

verus! {

/// The ghost shape of an endpoint outcome: the view of the returned value,
/// or the kind of the error.
pub open spec fn res_view<T: View>(r: Result<T, BabibappError>) -> Result<T::V, ErrorKind> {
    match r {
        Ok(t) => Ok(t@),
        Err(e) => Err(e.kind),
    }
}

/// Authenticate, collapsing every failure — missing header, bad signature,
/// expired token — into the one `Unauthenticated` outcome with one fixed
/// message, so that callers cannot tell which check failed.
pub fn require_auth(auth_header: Option<&str>, secret: &str, now: i64) -> (r: Result<
    Claims,
    BabibappError,
>)
    ensures
        match spec_authenticate(view_opt_str(auth_header), secret@, now) {
            Some(c) => r == Ok::<Claims, BabibappError>(c),
            None => r is Err && (r->Err_0).kind == ErrorKind::Unauthenticated,
        },
        r is Err ==> (r->Err_0).msg is Some && ((r->Err_0).msg->0)@ == "not authenticated"@,
{
    match authenticate(auth_header, secret, now) {
        Ok(c) => Ok(c),
        Err(_) => Err(BabibappError::with_msg(ErrorKind::Unauthenticated, "not authenticated")),
    }
}

} // verus!
