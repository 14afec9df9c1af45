//! Decisions of the HTTP layer: which browser origins may call the API, and
//! which error responses are rewritten into the JSON error shape.
use vstd::prelude::*;
use crate::errors::{ErrorData, ErrorResponse};

verus! {

/// `p` is a prefix of `s`.
pub open spec fn bytes_prefix(p: Seq<u8>, s: Seq<u8>) -> bool {
    p.len() <= s.len() && s.take(p.len() as int) == p
}

fn starts_with_bytes(s: &[u8], p: &[u8]) -> (r: bool)
    ensures
        r == bytes_prefix(p@, s@),
{
    if p.len() > s.len() {
        return false;
    }
    let mut i: usize = 0;
    while i < p.len()
        invariant
            p@.len() <= s@.len(),
            i <= p@.len(),
            forall|j: int| 0 <= j < i ==> s@[j] == p@[j],
        decreases p@.len() - i,
    {
        if s[i] != p[i] {
            assert(s@.take(p@.len() as int)[i as int] != p@[i as int]);
            return false;
        }
        i = i + 1;
    }
    assert(s@.take(p@.len() as int) =~= p@);
    true
}

fn equal_bytes(s: &[u8], p: &[u8]) -> (r: bool)
    ensures
        r == (s@ == p@),
{
    if s.len() != p.len() {
        return false;
    }
    let b = starts_with_bytes(s, p);
    proof {
        if b {
            assert(s@ =~= s@.take(p@.len() as int));
        } else if s@ == p@ {
            assert(s@.take(p@.len() as int) =~= p@);
        }
    }
    b
}

/// Browser origins the API accepts credentials from: `http://localhost` and
/// `http://127.0.0.1`, with or without a port.
pub open spec fn origin_allowed(o: Seq<u8>) -> bool {
    ||| bytes_prefix("http://localhost:"@.map_values(|c: char| c as u8), o)
    ||| o == "http://localhost"@.map_values(|c: char| c as u8)
    ||| bytes_prefix("http://127.0.0.1:"@.map_values(|c: char| c as u8), o)
    ||| o == "http://127.0.0.1"@.map_values(|c: char| c as u8)
}

/// Whether the CORS layer allows the origin `origin` (its header bytes).
pub fn is_allowed_origin(origin: &[u8]) -> (r: bool)
    ensures
        r == origin_allowed(origin@),
{
    proof {
        reveal_strlit("http://localhost:");
        reveal_strlit("http://localhost");
        reveal_strlit("http://127.0.0.1:");
        reveal_strlit("http://127.0.0.1");
        vstd::string::is_ascii_spec_bytes("http://localhost:");
        vstd::string::is_ascii_spec_bytes("http://localhost");
        vstd::string::is_ascii_spec_bytes("http://127.0.0.1:");
        vstd::string::is_ascii_spec_bytes("http://127.0.0.1");
    }
    let a = "http://localhost:".as_bytes();
    let b = "http://localhost".as_bytes();
    let c = "http://127.0.0.1:".as_bytes();
    let d = "http://127.0.0.1".as_bytes();
    assert(a@ =~= "http://localhost:"@.map_values(|c: char| c as u8));
    assert(b@ =~= "http://localhost"@.map_values(|c: char| c as u8));
    assert(c@ =~= "http://127.0.0.1:"@.map_values(|c: char| c as u8));
    assert(d@ =~= "http://127.0.0.1"@.map_values(|c: char| c as u8));
    starts_with_bytes(origin, a) || equal_bytes(origin, b) || starts_with_bytes(origin, c) || equal_bytes(
        origin,
        d,
    )
}

/// Responses the JSON error shape is applied to: 4xx responses whose
/// content type starts with `text/plain` (the extractors' plain-text rejections).
pub open spec fn plain_client_error(status: u16, content_type: Option<Seq<char>>) -> bool {
    &&& 400 <= status <= 499
    &&& content_type matches Some(ct) && "text/plain"@.len() <= ct.len() && ct.take("text/plain"@.len() as int)
        == "text/plain"@
}

/// Whether a response must be rewritten into the JSON error shape.
pub fn needs_json_error(status: u16, content_type: Option<&str>) -> (r: bool)
    ensures
        r == plain_client_error(status, match content_type {
            Some(c) => Some(c@),
            None => None,
        }),
{
    if status < 400 || status > 499 {
        return false;
    }
    match content_type {
        None => false,
        Some(ct) => {
            let prefix = "text/plain";
            let n = ct.unicode_len();
            let plen = prefix.unicode_len();
            if n < plen {
                return false;
            }
            let head = ct.substring_char(0, plen);
            assert(ct@.take(plen as int) =~= head@);
            crate::text::str_eq(head, prefix)
        },
    }
}

/// The rewritten response for a plain-text client error: same status, the
/// generic bad-request message, and the original text as detail. When the
/// body could not be read (`None`), the answer is a bare 500.
pub fn plain_error_response(status: u16, body_text: Option<String>) -> (r: (u16, Option<ErrorResponse>))
    ensures
        match body_text {
            Some(t) => r.0 == status && (r.1 matches Some(e) && e.message@ == "Invalid request parameters."@
                && e.data == Some(ErrorData::Detail(t))),
            None => r.0 == 500 && r.1 is None,
        },
{
    match body_text {
        Some(t) => (
            status,
            Some(ErrorResponse { message: "Invalid request parameters.".to_string(), data: Some(ErrorData::Detail(t)) }),
        ),
        None => (500, None),
    }
}

} // verus!
