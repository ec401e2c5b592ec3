//! Token codec behaviour: round trips, tamper rejection, expiry.

use babibapp::auth::{
    decode_jwt, token_from_claims, token_from_request, validate_token, Claims,
};
use babibapp::error::ErrorKind;
use babibapp::models::wrappers::TokenWrapper;
use babibapp::request::token::validate;

const NOW: i64 = 1_700_000_000;
const SECRET: &str = "test-signing-secret";

fn mint(id: i32, admin: bool, exp: i64) -> String {
    token_from_claims(Claims { id, admin, exp }, SECRET)
        .expect("minting cannot fail")
        .token
}

#[test]
fn round_trip_returns_the_claims() {
    let claims = Claims::new(7, false, 24, NOW);
    assert_eq!(claims.exp, NOW + 24 * 3600);
    let token = token_from_claims(claims, SECRET).unwrap().token;
    let validated = validate_token(&token, SECRET, NOW).unwrap();
    assert_eq!(validated, claims);
}

#[test]
fn round_trip_admin_and_edge_ids() {
    for (id, admin) in [(0, true), (1, false), (i32::MAX, true), (-5, false)] {
        let claims = Claims { id, admin, exp: NOW + 60 };
        let token = token_from_claims(claims, SECRET).unwrap().token;
        assert_eq!(validate_token(&token, SECRET, NOW).unwrap(), claims);
    }
}

#[test]
fn tampering_with_any_byte_is_rejected() {
    let token = mint(42, true, NOW + 3600);
    let bytes = token.as_bytes();
    for i in 0..bytes.len() {
        let mut tampered = bytes.to_vec();
        tampered[i] = if tampered[i] == b'x' { b'y' } else { b'x' };
        let tampered = String::from_utf8(tampered).unwrap();
        if tampered == token {
            continue;
        }
        assert!(
            decode_jwt(&tampered, SECRET).is_err(),
            "byte {} flipped but the token was accepted",
            i
        );
    }
}

#[test]
fn decoding_with_another_secret_is_rejected() {
    let token = mint(42, false, NOW + 3600);
    assert!(decode_jwt(&token, "some-other-secret").is_err());
    assert!(decode_jwt(&token, SECRET).is_ok());
}

#[test]
fn garbage_tokens_are_rejected() {
    for bad in ["", "abc", "a.b.c", "Bearer", "...."] {
        assert!(decode_jwt(bad, SECRET).is_err());
    }
}

#[test]
fn expiry_boundary() {
    let exp = NOW + 100;
    let token = mint(3, false, exp);
    assert!(validate_token(&token, SECRET, exp - 1).is_ok());
    let at_expiry = validate_token(&token, SECRET, exp);
    assert_eq!(at_expiry.unwrap_err().kind, ErrorKind::Expired);
    let after = validate_token(&token, SECRET, exp + 1_000_000);
    assert_eq!(after.unwrap_err().kind, ErrorKind::Expired);
}

#[test]
fn decode_ignores_expiry_but_validate_does_not() {
    let exp = NOW - 100;
    let token = mint(3, false, exp);
    assert!(decode_jwt(&token, SECRET).is_ok());
    assert!(validate_token(&token, SECRET, NOW).is_err());
}

#[test]
fn bearer_prefix_is_stripped() {
    let tw = token_from_request(Some("Bearer abc.def.ghi")).unwrap();
    assert_eq!(tw.token, "abc.def.ghi");
}

#[test]
fn bare_token_is_kept() {
    let tw = token_from_request(Some("abc.def.ghi")).unwrap();
    assert_eq!(tw.token, "abc.def.ghi");
    let short = token_from_request(Some("Bearer")).unwrap();
    assert_eq!(short.token, "Bearer");
    let lower = token_from_request(Some("bearer abc")).unwrap();
    assert_eq!(lower.token, "bearer abc");
}

#[test]
fn missing_header_is_rejected() {
    let err = token_from_request(None).unwrap_err();
    assert_eq!(err.kind, ErrorKind::Unauthenticated);
}

#[test]
fn validation_failures_are_indistinguishable() {
    let expired = mint(9, false, NOW - 10);
    let garbled = "not.a.token".to_string();
    let e1 = validate(&TokenWrapper { token: expired }, SECRET, NOW).unwrap_err();
    let e2 = validate(&TokenWrapper { token: garbled }, SECRET, NOW).unwrap_err();
    let fresh = mint(9, false, NOW + 10);
    let e3 = validate(&TokenWrapper { token: fresh }, "other-secret", NOW).unwrap_err();
    for e in [e1, e2, e3] {
        assert_eq!(e.kind, ErrorKind::Unauthenticated);
        assert_eq!(e.message(), "invalid token");
        assert_eq!(e.status_code(), 401);
    }
}

#[test]
fn validate_endpoint_says_valid_token() {
    let token = mint(9, false, NOW + 10);
    let ok = validate(&TokenWrapper { token }, SECRET, NOW).unwrap();
    assert_eq!(ok, "Valid token");
    let bad = validate(&TokenWrapper { token: "nonsense".to_string() }, SECRET, NOW);
    assert_eq!(bad.unwrap_err().kind, ErrorKind::Unauthenticated);
}
