//! The error taxonomy shared by the whole crate.
//!
//! Authentication and policy failures are turned into typed outcomes at the
//! endpoint boundary, with no internal detail leaked: an expired token and a
//! bad signature both surface under the same status code. Store failures
//! distinguish "not found" from everything else, because that distinction is
//! observable behaviour.

use vstd::prelude::*;

verus! {

/// The kinds of failure an operation can surface.
#[derive(Clone, Copy, Debug, PartialEq, Eq, Structural)]
pub enum ErrorKind {
    /// A missing, malformed or unverifiable token.
    Unauthenticated,
    /// A well-signed token whose expiry has passed.
    Expired,
    /// An authenticated caller that the policy denies.
    Forbidden,
    /// The target entity is absent.
    NotFound,
    /// A uniqueness violation.
    Conflict,
    /// A malformed payload.
    BadRequest,
    /// A store or transport failure, reported without detail.
    Internal,
}

/// A typed error with an optional static message.
#[derive(Clone, Copy, Debug)]
pub struct BabibappError {
    pub kind: ErrorKind,
    pub msg: Option<&'static str>,
}

impl BabibappError {
    /// An error of the given kind, without a message.
    pub fn new(kind: ErrorKind) -> (r: BabibappError)
        ensures
            r.kind == kind,
            r.msg is None,
    {
        BabibappError { kind, msg: None }
    }

    /// An error of the given kind carrying a message.
    pub fn with_msg(kind: ErrorKind, msg: &'static str) -> (r: BabibappError)
        ensures
            r.kind == kind,
            r.msg == Some(msg),
    {
        BabibappError { kind, msg: Some(msg) }
    }

    /// A generic request failure carrying a message.
    pub fn from_msg(msg: &'static str) -> (r: BabibappError)
        ensures
            r.kind == ErrorKind::BadRequest,
            r.msg == Some(msg),
    {
        BabibappError { kind: ErrorKind::BadRequest, msg: Some(msg) }
    }

    /// The HTTP status code this error surfaces as: 401 for every
    /// authentication or policy failure (never revealing which check
    /// failed), 404 for an absent entity, and 400 for everything else.
    pub fn status_code(&self) -> (r: u16)
        ensures
            r == spec_status_code(self.kind),
    {
        match self.kind {
            ErrorKind::Unauthenticated => 401,
            ErrorKind::Expired => 401,
            ErrorKind::Forbidden => 401,
            ErrorKind::NotFound => 404,
            ErrorKind::Conflict => 400,
            ErrorKind::BadRequest => 400,
            ErrorKind::Internal => 400,
        }
    }

    /// A printable description; the message if one was attached, otherwise a
    /// generic text that leaks nothing about the failure.
    pub fn message(&self) -> (r: &'static str)
        ensures
            self.msg is Some ==> r == self.msg->0,
            self.msg is None ==> r@ == "request failed"@,
    {
        match self.msg {
            Some(m) => m,
            None => "request failed",
        }
    }
}

/// The status code of each error kind.
pub open spec fn spec_status_code(kind: ErrorKind) -> u16 {
    match kind {
        ErrorKind::Unauthenticated => 401,
        ErrorKind::Expired => 401,
        ErrorKind::Forbidden => 401,
        ErrorKind::NotFound => 404,
        ErrorKind::Conflict => 400,
        ErrorKind::BadRequest => 400,
        ErrorKind::Internal => 400,
    }
}

} // verus!
