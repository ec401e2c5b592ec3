//! Single-field payload wrappers accepted by the endpoints.

use vstd::prelude::*;

verus! {

/// A token string, as carried in request and response bodies.
#[derive(Debug, Clone)]
pub struct TokenWrapper {
    pub token: String,
}

/// A new email address.
#[derive(Debug, Clone)]
pub struct EmailWrapper {
    pub email: String,
}

/// A new plain password.
#[derive(Debug, Clone)]
pub struct PasswordWrapper {
    pub password: String,
}

/// A new first and last name.
#[derive(Debug, Clone)]
pub struct NameWrapper {
    pub first_name: String,
    pub last_name: String,
}

} // verus!
