//! A small multi-tenant feedback platform: students and teachers are
//! registered, and students post voted comments about teachers and each
//! other.
//!
//! The heart of the crate is its authorization and view-projection core:
//! signed, expiring session tokens; a caller identity derived from a token;
//! policy checks that gate every mutation; and a projector that redacts
//! every entity into a full or a limited view depending on who is asking.
//! The persistent state is modelled by an in-memory [`store::Store`] with
//! verified invariants; the endpoint family in [`request`] composes
//! authentication, policy, store operation and projection, and carries a
//! contract that pins the outcome for every input.

pub mod auth;
pub mod cli;
pub mod error;
pub mod models;
pub mod password;
pub mod policy;
pub mod project;
pub mod request;
pub mod settings;
pub mod store;
