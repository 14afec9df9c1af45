//! The authenticated user of a request.
use vstd::prelude::*;
use crate::auth::jwt::{
    claims_subject, subject_spec, token_subject, token_subject_at, validate_token_at, Claims,
};
use crate::clock::now_unix_secs;
use crate::errors::AppError;
use crate::ids::uuid_text;

verus! {

/// The user a request is authenticated as.
#[derive(Debug, Clone, Copy)]
pub struct Auth {
    pub user_id: u128,
}

/// The token in an `Authorization: Bearer <token>` header value.
pub open spec fn bearer_spec(h: Seq<char>) -> Option<Seq<char>> {
    let prefix = "Bearer "@;
    if prefix.len() <= h.len() && h.take(prefix.len() as int) == prefix {
        Some(h.skip(prefix.len() as int))
    } else {
        None
    }
}

/// The token of an `Authorization` header, which must start with `Bearer `.
pub fn bearer_token(authorization: Option<&str>) -> (r: Option<String>)
    ensures
        match authorization {
            Some(h) => match bearer_spec(h@) {
                Some(t) => r matches Some(s) && s@ == t,
                None => r is None,
            },
            None => r is None,
        },
{
    let h = match authorization {
        Some(h) => h,
        None => return None,
    };
    let prefix = "Bearer ";
    proof { reveal_strlit("Bearer "); }
    let n = h.unicode_len();
    let plen = prefix.unicode_len();
    if n < plen {
        return None;
    }
    let head = h.substring_char(0, plen);
    if !crate::text::str_eq(head, prefix) {
        assert(h@.take(plen as int) =~= head@);
        return None;
    }
    assert(h@.take(plen as int) =~= head@);
    let rest = h.substring_char(plen, n);
    assert(rest@ =~= h@.skip(plen as int));
    Some(rest.to_string())
}

impl Auth {
    /// Authenticates a request from its validated token claims: only access
    /// tokens whose subject is a UUID are accepted.
    pub fn from_claims(claims: &Claims) -> (r: Result<Auth, AppError>)
        ensures
            match subject_spec(claims.sub@, claims.token_type@, "access"@) {
                Some(u) => r matches Ok(a) && a.user_id == u,
                None => r is Err && r->Err_0 is Unauthorized,
            },
            forall|u: u128|
                claims.sub@ == #[trigger] uuid_text(u) && claims.token_type@ == "access"@ ==> (r matches Ok(
                    a,
                ) && a.user_id == u),
    {
        match claims_subject(claims, "access") {
            Ok(u) => Ok(Auth { user_id: u }),
            Err(e) => Err(e),
        }
    }

    /// Authenticates a request at time `now` from its `Authorization` header:
    /// a bearer access token, signed with `secret`, not expired, whose subject
    /// is a UUID; anything else is `Unauthorized`.
    pub fn authenticate_at(authorization: Option<&str>, secret: &str, now: u64) -> (r: Result<Auth, AppError>)
        ensures
            match (match authorization {
                Some(h) => bearer_spec(h@),
                None => None,
            }) {
                Some(t) => match token_subject_at(t, secret@, "access"@, now) {
                    Some(u) => r matches Ok(a) && a.user_id == u,
                    None => r matches Err(e) && e is Unauthorized,
                },
                None => r matches Err(e) && e is Unauthorized,
            },
    {
        let token = match bearer_token(authorization) {
            Some(t) => t,
            None => return Err(AppError::Unauthorized),
        };
        let claims = match validate_token_at(token.as_str(), secret, now) {
            Ok(c) => c,
            Err(e) => return Err(e),
        };
        Auth::from_claims(&claims)
    }

    /// Authenticates a request from its `Authorization` header against the
    /// current time: an accepted caller is the subject of a bearer access
    /// token signed with `secret`; every refusal is `Unauthorized`.
    pub fn authenticate(authorization: Option<&str>, secret: &str) -> (r: Result<Auth, AppError>)
        ensures
            r matches Ok(a) ==> (match authorization {
                Some(h) => bearer_spec(h@),
                None => None,
            }) matches Some(t) && token_subject(t, secret@, "access"@) == Some(a.user_id),
            r matches Err(e) ==> e is Unauthorized,
    {
        let now = now_unix_secs();
        Auth::authenticate_at(authorization, secret, now)
    }
}

} // verus!
