//! The login flow: minting tokens and checking them.
//!
//! Login verifies credentials against the store and mints a signed token;
//! the distinguished root identity is mintable only when the presented
//! credentials match the out-of-band configured root pair, with its own
//! expiry window. Nothing here trusts a client-supplied identity: the
//! claims come from the matched account row or from the root settings.

use vstd::prelude::*;

use crate::auth::{
    jwt_claims, jwt_of, spec_validate_token, token_from_claims, validate_token, Claims,
};
use crate::error::{BabibappError, ErrorKind};
use crate::models::student::{LoginStudent, StudentV};
use crate::models::wrappers::TokenWrapper;
use crate::password::{bcrypt_verified, verify_password};
use crate::settings::{RootSettings, TokenSettings};
use crate::store::{find_student_by_email, Store};

verus! {

/// The claims a login attempt earns: the root identity for the configured
/// root credentials, the account's identity when the password verifies
/// against the stored hash, and a typed failure otherwise — `NotFound` for
/// an unknown email, `Unauthenticated` for a wrong password.
pub open spec fn spec_login_claims(
    students: Seq<StudentV>,
    root: RootSettings,
    token: TokenSettings,
    email: Seq<char>,
    password: Seq<char>,
    now: i64,
) -> Result<Claims, ErrorKind> {
    if email == root.email@ && password == root.password@ {
        Ok(Claims { id: 0, admin: true, exp: (now + root.expiration_minutes * 60) as i64 })
    } else {
        match find_student_by_email(students, email) {
            None => Err(ErrorKind::NotFound),
            Some(st) => if bcrypt_verified(password, st.password_hash) {
                Ok(
                    Claims {
                        id: st.id,
                        admin: st.admin,
                        exp: (now + token.expiration_hours * 3600) as i64,
                    },
                )
            } else {
                Err(ErrorKind::Unauthenticated)
            },
        }
    }
}

/// Log in: mint a token for the root identity or for the account whose
/// email and password match; the token carries exactly the claims that
/// [`spec_login_claims`] assigns. The bounds on `now` and the two expiry
/// windows only rule out expiries past the end of the epoch range.
pub fn generate(
    store: &Store,
    token_settings: &TokenSettings,
    root_settings: &RootSettings,
    form: &LoginStudent,
    now: i64,
) -> (r: Result<TokenWrapper, BabibappError>)
    requires
        store.wf(),
        0 <= now,
        0 <= root_settings.expiration_minutes,
        now + root_settings.expiration_minutes * 60 <= i64::MAX,
        0 <= token_settings.expiration_hours,
        now + token_settings.expiration_hours * 3600 <= i64::MAX,
    ensures
        match spec_login_claims(
            store@.students,
            *root_settings,
            *token_settings,
            form.email@,
            form.password@,
            now,
        ) {
            Ok(c) => r is Ok && (r->Ok_0).token@ == jwt_of(
                c.id,
                c.admin,
                c.exp,
                token_settings.secret@,
            ) && jwt_claims((r->Ok_0).token@, token_settings.secret@) == Some(
                (c.id, c.admin, c.exp),
            ),
            Err(k) => r is Err && (r->Err_0).kind == k,
        },
{
    if form.email == root_settings.email && form.password == root_settings.password {
        let claims = Claims::root(root_settings.expiration_minutes, now);
        match token_from_claims(claims, token_settings.secret.as_str()) {
            Ok(t) => Ok(t),
            Err(e) => Err(e),
        }
    } else {
        match store.get_student_by_email(&form.email) {
            None => Err(BabibappError::with_msg(ErrorKind::NotFound, "no student with this email")),
            Some(student) => {
                if verify_password(&form.password, &student.password_hash) {
                    let claims = Claims::new(
                        student.id,
                        student.admin,
                        token_settings.expiration_hours,
                        now,
                    );
                    match token_from_claims(claims, token_settings.secret.as_str()) {
                        Ok(t) => Ok(t),
                        Err(e) => Err(e),
                    }
                } else {
                    Err(BabibappError::with_msg(ErrorKind::Unauthenticated, "wrong password"))
                }
            },
        }
    }
}

/// Check a presented token: decoding and expiry against `now`, with every
/// failure surfaced as the same `Unauthenticated` outcome carrying one
/// fixed message — whether the token was malformed, badly signed or
/// expired is not revealed.
pub fn validate(token: &TokenWrapper, secret: &str, now: i64) -> (r: Result<
    &'static str,
    BabibappError,
>)
    ensures
        match spec_validate_token(token.token@, secret@, now) {
            Some(_) => r is Ok && (r->Ok_0)@ == "Valid token"@,
            None => r is Err && (r->Err_0).kind == ErrorKind::Unauthenticated && (
            r->Err_0).msg is Some && ((r->Err_0).msg->0)@ == "invalid token"@,
        },
{
    match validate_token(token.token.as_str(), secret, now) {
        Ok(_) => Ok("Valid token"),
        Err(_) => Err(BabibappError::with_msg(ErrorKind::Unauthenticated, "invalid token")),
    }
}

/// Root bootstrap: logging in with the configured root email and password
/// yields admin claims for subject 0, expiring after the root window —
/// whatever the store holds.
pub proof fn lemma_root_bootstrap(
    students: Seq<StudentV>,
    root: RootSettings,
    token: TokenSettings,
    email: Seq<char>,
    password: Seq<char>,
    now: i64,
)
    requires
        email == root.email@,
        password == root.password@,
    ensures
        spec_login_claims(students, root, token, email, password, now) == Ok::<Claims, ErrorKind>(
            Claims { id: 0, admin: true, exp: (now + root.expiration_minutes * 60) as i64 },
        ),
{
}

/// The root window is its own setting: when it is shorter than the account
/// window, a root token minted at some instant expires strictly earlier
/// than any account token minted at the same instant.
pub proof fn lemma_root_expiry_distinct(root: RootSettings, token: TokenSettings, now: i64)
    requires
        0 <= now,
        0 <= root.expiration_minutes,
        now + root.expiration_minutes * 60 <= i64::MAX,
        now + token.expiration_hours * 3600 <= i64::MAX,
        root.expiration_minutes * 60 < token.expiration_hours * 3600,
    ensures
        ((now + root.expiration_minutes * 60) as i64) < ((now + token.expiration_hours
            * 3600) as i64),
{
}

} // verus!
