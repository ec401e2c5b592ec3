//! The error taxonomy and its status-code mapping.

use babibapp::error::{BabibappError, ErrorKind};

#[test]
fn auth_failures_share_one_status_code() {
    assert_eq!(BabibappError::new(ErrorKind::Unauthenticated).status_code(), 401);
    assert_eq!(BabibappError::new(ErrorKind::Expired).status_code(), 401);
    assert_eq!(BabibappError::new(ErrorKind::Forbidden).status_code(), 401);
}

#[test]
fn not_found_is_distinct_from_other_failures() {
    assert_eq!(BabibappError::new(ErrorKind::NotFound).status_code(), 404);
    assert_eq!(BabibappError::new(ErrorKind::Conflict).status_code(), 400);
    assert_eq!(BabibappError::new(ErrorKind::BadRequest).status_code(), 400);
    assert_eq!(BabibappError::new(ErrorKind::Internal).status_code(), 400);
}

#[test]
fn from_msg_is_a_bad_request_with_that_message() {
    let e = BabibappError::from_msg("Token expired!");
    assert_eq!(e.kind, ErrorKind::BadRequest);
    assert_eq!(e.message(), "Token expired!");
    assert_eq!(e.status_code(), 400);
}

#[test]
fn message_without_detail_is_generic() {
    let e = BabibappError::new(ErrorKind::Internal);
    assert_eq!(e.message(), "request failed");
}
