//! The domain entities: accounts, teachers, comments, votes, and the small
//! payload wrappers the endpoints accept.
//!
//! Every entity has a ghost view over mathematical values (`Seq<char>` for
//! strings), and the contracts of the store and of the endpoints are stated
//! over those views.

pub mod comment;
pub mod student;
pub mod teacher;
pub mod wrappers;
