//! JWT claims: issuing access and refresh tokens, and reading a decoded token's subject.
use vstd::prelude::*;
use crate::clock::{now_secs, now_unix_secs};
use crate::errors::AppError;
use crate::ids::{uuid_parse, uuid_parsed, uuid_text, uuid_to_string};
use crate::text::str_eq;

verus! {

/// JWT payload embedded in both access and refresh tokens.
#[derive(Debug)]
pub struct Claims {
    /// Subject: the user's UUID in hyphenated form.
    pub sub: String,
    /// Either "access" or "refresh".
    pub token_type: String,
    /// Expiry as a UNIX timestamp (seconds).
    pub exp: usize,
    /// Issued-at as a UNIX timestamp (seconds).
    pub iat: usize,
}

/// What `jsonwebtoken::encode` gives for an HS256 token (default header) whose
/// payload is `{"sub","token_type","exp","iat"}` in that order, signed with `secret`.
pub uninterp spec fn hs256_token(sub: Seq<char>, token_type: Seq<char>, exp: usize, iat: usize, secret: Seq<char>) -> Seq<char>;

/// A character of a compact JWT: the URL-safe base64 alphabet and `.`.
pub open spec fn is_token_char(c: char) -> bool {
    ('A' <= c && c <= 'Z') || ('a' <= c && c <= 'z') || ('0' <= c && c <= '9') || c == '-' || c == '_' || c == '.'
}

pub open spec fn is_token_text(t: Seq<char>) -> bool {
    forall|i: int| 0 <= i < t.len() ==> is_token_char(#[trigger] t[i])
}

/// `t` is a token for `user_id` of `token_type`, signed with `secret`,
/// issued at some time and expiring `expiry_secs` later.
pub open spec fn token_for(t: Seq<char>, user_id: u128, token_type: Seq<char>, secret: Seq<char>, expiry_secs: i64) -> bool {
    &&& is_token_text(t)
    &&& exists|now: usize| {
        let c = #[trigger] Claims::issued(user_id, token_type, now, expiry_secs);
        t == hs256_token(c.0, c.1, c.2, c.3, secret)
    }
}

/// `jsonwebtoken::encode` with the default header (HS256) and
/// `EncodingKey::from_secret`, on the claims as a JSON object in field order.
/// The token is named, not restated. It is also stated that encoding
/// succeeds: the key family (HMAC) matches HS256, serializing a header and a
/// map of strings and integers cannot fail, and HMAC signing cannot fail;
/// and that the token is URL-safe base64 parts joined by `.`.
#[verifier::external_body]
fn encode_hs256(claims: &Claims, secret: &str) -> (r: Result<String, String>)
    ensures
        r is Ok,
        r matches Ok(t) ==> t@ == hs256_token(claims.sub@, claims.token_type@, claims.exp, claims.iat, secret@),
        r matches Ok(t) ==> is_token_text(t@),
{
    let mut payload = serde_json::Map::new();
    payload.insert("sub".to_string(), serde_json::Value::from(claims.sub.as_str()));
    payload.insert("token_type".to_string(), serde_json::Value::from(claims.token_type.as_str()));
    payload.insert("exp".to_string(), serde_json::Value::from(claims.exp));
    payload.insert("iat".to_string(), serde_json::Value::from(claims.iat));
    let key = jsonwebtoken::EncodingKey::from_secret(secret.as_bytes());
    jsonwebtoken::encode(&jsonwebtoken::Header::default(), &payload, &key).map_err(|e| e.to_string())
}

/// What `jsonwebtoken::decode` gives for `token` with `DecodingKey::from_secret`
/// and the default HS256 validation, expiry not checked, read as the four
/// claims `(sub, token_type, exp, iat)`; `None` when it fails or a claim is
/// missing or of another type.
pub uninterp spec fn hs256_decoded(token: Seq<char>, secret: Seq<char>) -> Option<(Seq<char>, Seq<char>, usize, usize)>;

/// The four claims of `c`, in field order.
pub open spec fn claims_tuple(c: Claims) -> (Seq<char>, Seq<char>, usize, usize) {
    (c.sub@, c.token_type@, c.exp, c.iat)
}

/// The claims of a decoding result, if any.
pub open spec fn decoded_view(r: Option<Claims>) -> Option<(Seq<char>, Seq<char>, usize, usize)> {
    match r {
        Some(c) => Some(claims_tuple(c)),
        None => None,
    }
}

/// `r` decodes every token issued with `secret` to the claims it was issued with.
pub open spec fn decodes_issued(token: Seq<char>, secret: Seq<char>, r: Option<Claims>) -> bool {
    forall|s: Seq<char>, t: Seq<char>, e: usize, i: usize|
        token == #[trigger] hs256_token(s, t, e, i, secret) ==> (r matches Some(c) && claims_tuple(c) == (s, t, e, i))
}

/// `jsonwebtoken::decode` into a JSON object, with `DecodingKey::from_secret`
/// and `Validation::default()` except that expiry is left to the caller; the
/// four claims are then read as strings and unsigned integers. The result is
/// named. It is also stated that a token `encode` made with the same secret
/// decodes to the claims it was made of: the signature checks, the header is
/// HS256, `exp` is present and there is no audience.
#[verifier::external_body]
fn decode_hs256(token: &str, secret: &str) -> (r: Option<Claims>)
    ensures
        decoded_view(r) == hs256_decoded(token@, secret@),
        decodes_issued(token@, secret@, r),
{
    let mut validation = jsonwebtoken::Validation::default();
    validation.validate_exp = false;
    let key = jsonwebtoken::DecodingKey::from_secret(secret.as_bytes());
    let data = jsonwebtoken::decode::<serde_json::Map<String, serde_json::Value>>(token, &key, &validation).ok()?;
    let c = data.claims;
    Some(Claims {
        sub: c.get("sub")?.as_str()?.to_string(),
        token_type: c.get("token_type")?.as_str()?.to_string(),
        exp: c.get("exp")?.as_u64()? as usize,
        iat: c.get("iat")?.as_u64()? as usize,
    })
}

/// Seconds a token stays accepted after its `exp` (`jsonwebtoken`'s default leeway).
pub const EXPIRY_LEEWAY_SECS: u64 = 60;

/// The claims of `token` checked at time `now` (seconds since the epoch): a
/// token whose signature and claims decode is accepted until `EXPIRY_LEEWAY_SECS`
/// after its `exp`; anything else is `Unauthorized`.
pub fn validate_token_at(token: &str, secret: &str, now: u64) -> (r: Result<Claims, AppError>)
    ensures
        match hs256_decoded(token@, secret@) {
            Some(c) => if now <= c.2 + EXPIRY_LEEWAY_SECS {
                r matches Ok(k) && claims_tuple(k) == c
            } else {
                r matches Err(e) && e is Unauthorized
            },
            None => r matches Err(e) && e is Unauthorized,
        },
        forall|s: Seq<char>, t: Seq<char>, e: usize, i: usize|
            token@ == #[trigger] hs256_token(s, t, e, i, secret@) && now <= e + EXPIRY_LEEWAY_SECS ==> (r matches Ok(k)
                && claims_tuple(k) == (s, t, e, i)),
{
    match decode_hs256(token, secret) {
        Some(c) => {
            let exp: u128 = c.exp as u128;
            if (now as u128) <= exp + (EXPIRY_LEEWAY_SECS as u128) {
                Ok(c)
            } else {
                Err(AppError::Unauthorized)
            }
        },
        None => Err(AppError::Unauthorized),
    }
}

/// Validates a token's signature, claims and expiry against the current
/// time; any failure is `Unauthorized`. Accepted claims are the token's own.
pub fn validate_token(token: &str, secret: &str) -> (r: Result<Claims, AppError>)
    ensures
        r matches Ok(k) ==> hs256_decoded(token@, secret@) == Some(claims_tuple(k)),
        r matches Err(e) ==> e is Unauthorized,
        hs256_decoded(token@, secret@) is None ==> r is Err,
{
    let now = now_unix_secs();
    validate_token_at(token, secret, now)
}

/// The user a token of type `expected` speaks for at time `now`: its claims
/// decode, it has not expired (with the leeway), its type is `expected` and
/// its subject is a UUID.
pub open spec fn token_subject_at(token: Seq<char>, secret: Seq<char>, expected: Seq<char>, now: u64) -> Option<u128> {
    match hs256_decoded(token, secret) {
        Some(c) => if now <= c.2 + EXPIRY_LEEWAY_SECS {
            subject_spec(c.0, c.1, expected)
        } else {
            None
        },
        None => None,
    }
}

/// The user a token of type `expected` speaks for, leaving expiry aside.
pub open spec fn token_subject(token: Seq<char>, secret: Seq<char>, expected: Seq<char>) -> Option<u128> {
    match hs256_decoded(token, secret) {
        Some(c) => subject_spec(c.0, c.1, expected),
        None => None,
    }
}

impl Claims {
    /// The claims of a token for `user_id` issued at `now` that expires `expiry_secs` later
    /// (`now + expiry_secs as usize`, wrapping as unsigned machine arithmetic does).
    pub open spec fn issued(user_id: u128, token_type: Seq<char>, now: usize, expiry_secs: i64) -> (Seq<char>, Seq<char>, usize, usize) {
        (uuid_text(user_id), token_type, now.wrapping_add(expiry_secs as usize), now)
    }

    /// The claims of a token for `user_id` of type `token_type`, issued at `now`.
    pub fn issue(user_id: u128, token_type: &str, now: usize, expiry_secs: i64) -> (c: Claims)
        ensures
            (c.sub@, c.token_type@, c.exp, c.iat) == Claims::issued(user_id, token_type@, now, expiry_secs),
    {
        Claims {
            sub: uuid_to_string(user_id),
            token_type: token_type.to_string(),
            exp: now.wrapping_add(expiry_secs as usize),
            iat: now,
        }
    }
}

/// Creates a signed token for `user_id`, issued now.
fn create_token(user_id: u128, token_type: &str, secret: &str, expiry_secs: i64) -> (r: Result<String, AppError>)
    ensures
        r matches Ok(t) && token_for(t@, user_id, token_type@, secret@, expiry_secs),
{
    let now = now_secs() as usize;
    let claims = Claims::issue(user_id, token_type, now, expiry_secs);
    match encode_hs256(&claims, secret) {
        Ok(token) => Ok(token),
        Err(e) => {
            let mut msg = "failed to create JWT: ".to_string();
            msg.append(e.as_str());
            Err(AppError::Internal(msg))
        },
    }
}

/// An access token (used for API calls) for `user_id`.
pub fn create_access_token(user_id: u128, secret: &str, expiry_secs: i64) -> (r: Result<String, AppError>)
    ensures
        r matches Ok(t) && token_for(t@, user_id, "access"@, secret@, expiry_secs),
{
    create_token(user_id, "access", secret, expiry_secs)
}

/// A refresh token (used only to obtain new access tokens) for `user_id`.
pub fn create_refresh_token(user_id: u128, secret: &str, expiry_secs: i64) -> (r: Result<String, AppError>)
    ensures
        r matches Ok(t) && token_for(t@, user_id, "refresh"@, secret@, expiry_secs),
{
    create_token(user_id, "refresh", secret, expiry_secs)
}

/// The user a decoded token of the expected type speaks for: `Unauthorized`
/// when the type differs or the subject is not a UUID.
pub open spec fn subject_spec(sub: Seq<char>, token_type: Seq<char>, expected_type: Seq<char>) -> Option<u128> {
    if token_type == expected_type {
        uuid_parsed(sub)
    } else {
        None
    }
}

/// A refresh token never passes as an access token, nor the other way round.
pub proof fn law_token_types_not_interchangeable(sub: Seq<char>)
    ensures
        subject_spec(sub, "refresh"@, "access"@) is None,
        subject_spec(sub, "access"@, "refresh"@) is None,
{
    reveal_strlit("refresh");
    reveal_strlit("access");
    assert("refresh"@[0] != "access"@[0]);
}

/// The user id in validated claims, if the token has the expected type.
pub fn claims_subject(claims: &Claims, expected_type: &str) -> (r: Result<u128, AppError>)
    ensures
        match subject_spec(claims.sub@, claims.token_type@, expected_type@) {
            Some(u) => r == Ok::<u128, AppError>(u),
            None => r is Err && r->Err_0 is Unauthorized,
        },
        forall|u: u128|
            claims.sub@ == #[trigger] uuid_text(u) && claims.token_type@ == expected_type@ ==> r
                == Ok::<u128, AppError>(u),
{
    if !str_eq(claims.token_type.as_str(), expected_type) {
        return Err(AppError::Unauthorized);
    }
    match uuid_parse(claims.sub.as_str()) {
        Some(u) => Ok(u),
        None => Err(AppError::Unauthorized),
    }
}

} // verus!
