//! The token codec and the authorization context.
//!
//! A session token is a signed, expiring claims set: subject id, admin flag
//! and an absolute expiry in epoch seconds. Minting and checking the
//! signature is done by the `jsonwebtoken` crate behind two trusted
//! wrappers; everything around them — expiry checking, header stripping,
//! and the composition into [`authenticate`] — is verified. Validation is
//! stateless: every request re-derives the caller's identity from the token
//! alone, against an explicitly passed current time.

use vstd::prelude::*;

use crate::error::{BabibappError, ErrorKind};
use crate::models::wrappers::TokenWrapper;

verus! {

/// The claims carried inside a token: the authenticated caller's identity.
/// Produced only by successful token validation, never from client input.
#[derive(Clone, Copy, Debug, PartialEq, Eq, Structural)]
pub struct Claims {
    /// The subject id; 0 is the distinguished root identity.
    pub id: i32,
    /// Whether the caller has admin privileges.
    pub admin: bool,
    /// Absolute expiry, in epoch seconds.
    pub exp: i64,
}

impl Claims {
    /// Claims for a regular account, expiring `expiration_hours` after `now`.
    pub fn new(id: i32, admin: bool, expiration_hours: i64, now: i64) -> (r: Claims)
        requires
            0 <= now,
            0 <= expiration_hours,
            now + expiration_hours * 3600 <= i64::MAX,
        ensures
            r == (Claims { id, admin, exp: (now + expiration_hours * 3600) as i64 }),
    {
        Claims { id, admin, exp: now + expiration_hours * 3600 }
    }

    /// Claims for the root bootstrap identity: subject id 0, admin, with its
    /// own (typically short) expiry window of `expiration_minutes` after
    /// `now`.
    pub fn root(expiration_minutes: i64, now: i64) -> (r: Claims)
        requires
            0 <= now,
            0 <= expiration_minutes,
            now + expiration_minutes * 60 <= i64::MAX,
        ensures
            r == (Claims { id: 0, admin: true, exp: (now + expiration_minutes * 60) as i64 }),
    {
        Claims { id: 0, admin: true, exp: now + expiration_minutes * 60 }
    }
}

/// The token string that `jsonwebtoken` mints for the given claims and
/// secret. Named, not written out: the encoding (base64 of a JSON header
/// and payload, HMAC-SHA256 signed) is a deterministic function of the
/// claims and the secret, and nothing in this crate depends on its shape.
pub uninterp spec fn jwt_of(id: i32, admin: bool, exp: i64, secret: Seq<char>) -> Seq<char>;

/// What decoding a token string under a secret yields: the claims if the
/// signature verifies and the payload is well-formed, `None` otherwise.
/// With expiry checking turned off, the outcome is a deterministic function
/// of the token and the secret alone.
pub uninterp spec fn jwt_claims(token: Seq<char>, secret: Seq<char>) -> Option<(i32, bool, i64)>;

/// Relies on `jsonwebtoken::encode` with the default (HS256) header and an
/// HMAC secret. The token is a deterministic function of the claims and the
/// secret: base64 of the fixed header and of the claims object, signed with
/// HMAC-SHA256. The call always succeeds for this key family — HMAC accepts
/// keys of any length, and JSON serialization of an object of three plain
/// values cannot error. Decoding under the same secret recovers exactly
/// these claims (the crate's documented round trip).
#[verifier::external_body]
pub fn create_jwt(claims: Claims, secret: &str) -> (r: Result<String, BabibappError>)
    ensures
        r is Ok,
        (r->Ok_0)@ == jwt_of(claims.id, claims.admin, claims.exp, secret@),
        jwt_claims((r->Ok_0)@, secret@) == Some((claims.id, claims.admin, claims.exp)),
{
    let mut payload = serde_json::Map::new();
    payload.insert("id".to_string(), serde_json::Value::from(claims.id));
    payload.insert("admin".to_string(), serde_json::Value::from(claims.admin));
    payload.insert("exp".to_string(), serde_json::Value::from(claims.exp));
    let key = jsonwebtoken::EncodingKey::from_secret(secret.as_bytes());
    let header = jsonwebtoken::Header::default();
    match jsonwebtoken::encode(&header, &serde_json::Value::Object(payload), &key) {
        Ok(token) => Ok(token),
        Err(_) => Err(BabibappError::new(ErrorKind::Internal)),
    }
}

/// Relies on `jsonwebtoken::decode` with HS256, signature verification on
/// and expiry checking off: the outcome is a function of the token and the
/// secret alone, and is `None` whenever the signature does not match or the
/// payload does not carry the expected claims.
#[verifier::external_body]
fn jwt_decode_raw(token: &str, secret: &str) -> (r: Option<(i32, bool, i64)>)
    ensures
        r == jwt_claims(token@, secret@),
{
    let key = jsonwebtoken::DecodingKey::from_secret(secret.as_bytes());
    let mut validation = jsonwebtoken::Validation::new(jsonwebtoken::Algorithm::HS256);
    validation.validate_exp = false;
    validation.required_spec_claims = std::collections::HashSet::new();
    let data = jsonwebtoken::decode::<serde_json::Value>(token, &key, &validation).ok()?;
    let id = i32::try_from(data.claims.get("id")?.as_i64()?).ok()?;
    let admin = data.claims.get("admin")?.as_bool()?;
    let exp = data.claims.get("exp")?.as_i64()?;
    Some((id, admin, exp))
}

/// Decode a token under a secret, without any expiry check.
pub fn decode_jwt(token: &str, secret: &str) -> (r: Result<Claims, BabibappError>)
    ensures
        match jwt_claims(token@, secret@) {
            Some(c) => r == Ok::<Claims, BabibappError>(Claims { id: c.0, admin: c.1, exp: c.2 }),
            None => r is Err && (r->Err_0).kind == ErrorKind::Unauthenticated,
        },
{
    match jwt_decode_raw(token, secret) {
        Some((id, admin, exp)) => Ok(Claims { id, admin, exp }),
        None => Err(BabibappError::with_msg(ErrorKind::Unauthenticated, "invalid token")),
    }
}

/// What validating a token at instant `now` yields: the decoded claims when
/// the signature verifies and the expiry is still in the future.
pub open spec fn spec_validate_token(token: Seq<char>, secret: Seq<char>, now: i64) -> Option<
    Claims,
> {
    match jwt_claims(token, secret) {
        Some(c) => if c.2 > now {
            Some(Claims { id: c.0, admin: c.1, exp: c.2 })
        } else {
            None
        },
        None => None,
    }
}

/// Decode a token and check that it has not expired at instant `now`. A bad
/// signature and a past expiry are distinct kinds internally, but both map
/// to the same status code (see [`crate::error`]).
pub fn validate_token(token: &str, secret: &str, now: i64) -> (r: Result<Claims, BabibappError>)
    ensures
        match jwt_claims(token@, secret@) {
            None => r is Err && (r->Err_0).kind == ErrorKind::Unauthenticated,
            Some(c) => if c.2 > now {
                r == Ok::<Claims, BabibappError>(Claims { id: c.0, admin: c.1, exp: c.2 })
            } else {
                r is Err && (r->Err_0).kind == ErrorKind::Expired
            },
        },
        r is Ok <==> spec_validate_token(token@, secret@, now) is Some,
        r is Ok ==> Some(r->Ok_0) == spec_validate_token(token@, secret@, now),
{
    let claims = match decode_jwt(token, secret) {
        Ok(c) => c,
        Err(e) => {
            return Err(e);
        },
    };
    if claims.exp > now {
        Ok(claims)
    } else {
        Err(BabibappError::with_msg(ErrorKind::Expired, "token expired"))
    }
}

/// Wrap a token string.
pub fn token_from_jwt(jwt: &str) -> (r: TokenWrapper)
    ensures
        r.token@ == jwt@,
{
    TokenWrapper { token: jwt.to_owned() }
}

/// Mint a token for the given claims.
pub fn token_from_claims(claims: Claims, secret: &str) -> (r: Result<
    TokenWrapper,
    BabibappError,
>)
    ensures
        r is Ok,
        (r->Ok_0).token@ == jwt_of(claims.id, claims.admin, claims.exp, secret@),
        jwt_claims((r->Ok_0).token@, secret@) == Some((claims.id, claims.admin, claims.exp)),
{
    match create_jwt(claims, secret) {
        Ok(jwt) => Ok(token_from_jwt(jwt.as_str())),
        Err(e) => Err(e),
    }
}

/// A header value with a leading `Bearer ` scheme marker stripped; any other
/// value is taken as the bare token.
pub open spec fn spec_strip_bearer(h: Seq<char>) -> Seq<char> {
    if h.len() >= 7 && h.subrange(0, 7) == "Bearer "@ {
        h.subrange(7, h.len() as int)
    } else {
        h
    }
}

/// Extract the token from the value of an Authorization header, stripping
/// an optional `Bearer ` scheme marker.
pub fn token_from_request(auth_header: Option<&str>) -> (r: Result<TokenWrapper, BabibappError>)
    ensures
        match auth_header {
            None => r is Err && (r->Err_0).kind == ErrorKind::Unauthenticated,
            Some(h) => r is Ok && (r->Ok_0).token@ == spec_strip_bearer(h@),
        },
{
    let h = match auth_header {
        Some(h) => h,
        None => {
            return Err(BabibappError::with_msg(ErrorKind::Unauthenticated, "no authorization header"));
        },
    };
    let len = h.unicode_len();
    let prefix = "Bearer ";
    proof {
        reveal_strlit("Bearer ");
    }
    if len >= 7 {
        let mut i: usize = 0;
        let mut matched = true;
        while i < 7
            invariant
                0 <= i <= 7,
                len == h@.len(),
                7 <= h@.len(),
                prefix@ == "Bearer "@,
                prefix@.len() == 7,
                matched <==> (forall|j: int| 0 <= j < i ==> h@[j] == prefix@[j]),
            decreases 7 - i,
        {
            if h.get_char(i) != prefix.get_char(i) {
                matched = false;
            }
            i += 1;
        }
        if matched {
            assert(h@.subrange(0, 7) =~= "Bearer "@);
            let token = h.substring_char(7, len);
            Ok(token_from_jwt(token))
        } else {
            proof {
                let j = choose|j: int| 0 <= j < 7 && h@[j] != prefix@[j];
                assert(h@.subrange(0, 7)[j] == h@[j]);
                assert(h@.subrange(0, 7) != "Bearer "@);
            }
            Ok(token_from_jwt(h))
        }
    } else {
        assert(h@.len() < 7);
        Ok(token_from_jwt(h))
    }
}

/// The view of an optional header value.
pub open spec fn view_opt_str(h: Option<&str>) -> Option<Seq<char>> {
    match h {
        Some(s) => Some(s@),
        None => None,
    }
}

/// What authenticating a request at instant `now` yields: the validated
/// claims of the token carried in the Authorization header, if any.
pub open spec fn spec_authenticate(
    auth_header: Option<Seq<char>>,
    secret: Seq<char>,
    now: i64,
) -> Option<Claims> {
    match auth_header {
        None => None,
        Some(h) => spec_validate_token(spec_strip_bearer(h), secret, now),
    }
}

/// Derive the caller's identity from the Authorization header of an inbound
/// request: extract the token, decode it, and check its expiry against
/// `now`. Every endpoint but login and token validation depends on this.
pub fn authenticate(auth_header: Option<&str>, secret: &str, now: i64) -> (r: Result<
    Claims,
    BabibappError,
>)
    ensures
        match spec_authenticate(view_opt_str(auth_header), secret@, now) {
            Some(c) => r == Ok::<Claims, BabibappError>(c),
            None => r is Err && ((r->Err_0).kind == ErrorKind::Unauthenticated || (
            r->Err_0).kind == ErrorKind::Expired),
        },
{
    let token = match token_from_request(auth_header) {
        Ok(t) => t,
        Err(e) => {
            return Err(e);
        },
    };
    validate_token(token.token.as_str(), secret, now)
}

/// Round trip: a token minted from any claims and validated with the same
/// secret at any instant before the expiry yields exactly those claims.
pub fn token_round_trip(claims: Claims, secret: &str, now: i64) -> (r: Result<
    Claims,
    BabibappError,
>)
    requires
        claims.exp > now,
    ensures
        r == Ok::<Claims, BabibappError>(claims),
{
    let token = match token_from_claims(claims, secret) {
        Ok(t) => t,
        Err(e) => {
            return Err(e);
        },
    };
    validate_token(token.token.as_str(), secret, now)
}

/// Expiry monotonicity: a token that validates at some instant does not
/// validate at any instant at or past its expiry.
pub proof fn lemma_expiry_monotonic(
    token: Seq<char>,
    secret: Seq<char>,
    t1: i64,
    t2: i64,
    c: Claims,
)
    requires
        spec_validate_token(token, secret, t1) == Some(c),
        t2 >= c.exp,
    ensures
        spec_validate_token(token, secret, t2) is None,
{
}

} // verus!
