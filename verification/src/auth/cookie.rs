//! `Set-Cookie` values for the auth tokens, and reading a cookie back.
use vstd::prelude::*;
use axum::http::HeaderValue;
use axum::http::header::InvalidHeaderValue;
use crate::text::{chars_of, decimal, is_whitespace, push_signed_decimal, signed_decimal, trim, trim_end, trim_start, unicode_white_space};

verus! {

#[verifier::external_type_specification]
#[verifier::external_body]
pub struct ExHeaderValue(HeaderValue);

#[verifier::external_type_specification]
#[verifier::external_body]
pub struct ExInvalidHeaderValue(InvalidHeaderValue);

/// A character whose UTF-8 bytes may all stand in a header value: bytes 32 to
/// 255 except 127, and tab. Every non-ASCII character qualifies.
pub open spec fn header_char_ok(c: char) -> bool {
    c == '\t' || (' ' <= c && c != '\x7f')
}

pub open spec fn header_text_ok(s: Seq<char>) -> bool {
    forall|i: int| 0 <= i < s.len() ==> header_char_ok(#[trigger] s[i])
}

/// The header value `HeaderValue::from_str` makes of `text`.
pub uninterp spec fn header_value_of(text: Seq<char>) -> HeaderValue;

/// `HeaderValue::from_str`: succeeds exactly when every byte is allowed in a
/// header value (32 to 255 except 127, and tab), as `http`'s source checks;
/// the value made is named, not restated.
#[verifier::external_body]
fn header_value_from_str(s: &str) -> (r: Result<HeaderValue, InvalidHeaderValue>)
    ensures
        r is Ok <==> header_text_ok(s@),
        r matches Ok(h) ==> h == header_value_of(s@),
{
    HeaderValue::from_str(s)
}

/// The `Set-Cookie` text for an auth token: HttpOnly, Secure, SameSite=Lax.
pub open spec fn set_cookie_spec(name: Seq<char>, value: Seq<char>, max_age_secs: int, path: Seq<char>) -> Seq<char> {
    name + "="@ + value + "; HttpOnly; Secure; SameSite=Lax; Path="@ + path + "; Max-Age="@
        + signed_decimal(max_age_secs)
}

/// The `Set-Cookie` text that expires a cookie at once.
pub open spec fn clear_cookie_spec(name: Seq<char>, path: Seq<char>) -> Seq<char> {
    name + "=; HttpOnly; Secure; SameSite=Lax; Path="@ + path + "; Max-Age=0"@
}

proof fn lemma_header_text_ok_concat(a: Seq<char>, b: Seq<char>)
    requires
        header_text_ok(a),
        header_text_ok(b),
    ensures
        header_text_ok(a + b),
{
    assert forall|i: int| 0 <= i < (a + b).len() implies header_char_ok(#[trigger] (a + b)[i]) by {
        if i < a.len() {
            assert((a + b)[i] == a[i]);
        } else {
            assert((a + b)[i] == b[i - a.len()]);
        }
    }
}

proof fn lemma_decimal_ok(n: nat)
    ensures
        header_text_ok(decimal(n)),
    decreases n,
{
    if n >= 10 {
        lemma_decimal_ok(n / 10);
        assert forall|i: int| 0 <= i < decimal(n).len() implies header_char_ok(#[trigger] decimal(n)[i]) by {
            if i < decimal(n / 10).len() {
                assert(decimal(n)[i] == decimal(n / 10)[i]);
            }
        }
    }
}

proof fn lemma_signed_decimal_ok(i: int)
    ensures
        header_text_ok(signed_decimal(i)),
{
    if i < 0 {
        lemma_decimal_ok((-i) as nat);
        lemma_header_text_ok_concat(seq!['-'], decimal((-i) as nat));
    } else {
        lemma_decimal_ok(i as nat);
    }
}

/// The `Set-Cookie` text for an auth token.
pub fn set_cookie_text(name: &str, value: &str, max_age_secs: i64, path: &str) -> (r: String)
    ensures
        r@ == set_cookie_spec(name@, value@, max_age_secs as int, path@),
{
    let mut s = name.to_string();
    s.append("=");
    s.append(value);
    s.append("; HttpOnly; Secure; SameSite=Lax; Path=");
    s.append(path);
    s.append("; Max-Age=");
    push_signed_decimal(&mut s, max_age_secs);
    s
}

/// The `Set-Cookie` text that expires a cookie; the path must match the one it was set with.
pub fn clear_cookie_text(name: &str, path: &str) -> (r: String)
    ensures
        r@ == clear_cookie_spec(name@, path@),
{
    let mut s = name.to_string();
    s.append("=; HttpOnly; Secure; SameSite=Lax; Path=");
    s.append(path);
    s.append("; Max-Age=0");
    s
}

/// A `Set-Cookie` header value for an auth token. The name, value and path must
/// be valid header text (the value is always valid ASCII for the tokens used).
pub fn build_cookie(name: &str, value: &str, max_age_secs: i64, path: &str) -> (r: HeaderValue)
    requires
        header_text_ok(name@),
        header_text_ok(value@),
        header_text_ok(path@),
    ensures
        r == header_value_of(set_cookie_spec(name@, value@, max_age_secs as int, path@)),
{
    let text = set_cookie_text(name, value, max_age_secs, path);
    proof {
        reveal_strlit("=");
        reveal_strlit("; HttpOnly; Secure; SameSite=Lax; Path=");
        reveal_strlit("; Max-Age=");
        lemma_signed_decimal_ok(max_age_secs as int);
        lemma_header_text_ok_concat(name@, "="@);
        lemma_header_text_ok_concat(name@ + "="@, value@);
        lemma_header_text_ok_concat(name@ + "="@ + value@, "; HttpOnly; Secure; SameSite=Lax; Path="@);
        lemma_header_text_ok_concat(name@ + "="@ + value@ + "; HttpOnly; Secure; SameSite=Lax; Path="@, path@);
        lemma_header_text_ok_concat(name@ + "="@ + value@ + "; HttpOnly; Secure; SameSite=Lax; Path="@ + path@, "; Max-Age="@);
        lemma_header_text_ok_concat(name@ + "="@ + value@ + "; HttpOnly; Secure; SameSite=Lax; Path="@ + path@ + "; Max-Age="@, signed_decimal(max_age_secs as int));
    }
    match header_value_from_str(text.as_str()) {
        Ok(h) => h,
        Err(_) => vstd::pervasive::unreached(),
    }
}

/// A `Set-Cookie` header value that expires the cookie `name` at `path`.
pub fn clear_cookie(name: &str, path: &str) -> (r: HeaderValue)
    requires
        header_text_ok(name@),
        header_text_ok(path@),
    ensures
        r == header_value_of(clear_cookie_spec(name@, path@)),
{
    let text = clear_cookie_text(name, path);
    proof {
        reveal_strlit("=; HttpOnly; Secure; SameSite=Lax; Path=");
        reveal_strlit("; Max-Age=0");
        lemma_header_text_ok_concat(name@, "=; HttpOnly; Secure; SameSite=Lax; Path="@);
        lemma_header_text_ok_concat(name@ + "=; HttpOnly; Secure; SameSite=Lax; Path="@, path@);
        lemma_header_text_ok_concat(name@ + "=; HttpOnly; Secure; SameSite=Lax; Path="@ + path@, "; Max-Age=0"@);
    }
    match header_value_from_str(text.as_str()) {
        Ok(h) => h,
        Err(_) => vstd::pervasive::unreached(),
    }
}

/// Number of characters before the first `;` of `t` (all of `t` when there is none).
pub open spec fn segment_len(t: Seq<char>) -> nat
    decreases t.len(),
{
    if t.len() == 0 {
        0
    } else if t[0] == ';' {
        0
    } else {
        1 + segment_len(t.skip(1))
    }
}

pub proof fn lemma_segment_len_bound(t: Seq<char>)
    ensures
        segment_len(t) <= t.len(),
        segment_len(t) < t.len() ==> t[segment_len(t) as int] == ';',
        forall|i: int| 0 <= i < segment_len(t) ==> t[i] != ';',
    decreases t.len(),
{
    if t.len() > 0 && t[0] != ';' {
        lemma_segment_len_bound(t.skip(1));
        assert forall|i: int| 0 <= i < segment_len(t) implies t[i] != ';' by {
            if i > 0 {
                assert(t[i] == t.skip(1)[i - 1]);
            }
        }
    }
}

/// The cookie named `name` in a `Cookie` header: the header is split at `;`,
/// each piece trimmed, and the first piece starting with `name=` gives the
/// rest of that piece.
pub open spec fn cookie_lookup(t: Seq<char>, name: Seq<char>) -> Option<Seq<char>>
    decreases t.len(),
{
    let k = segment_len(t);
    let pair = trim(t.take(k as int));
    let prefix = name.push('=');
    if prefix.len() <= pair.len() && pair.take(prefix.len() as int) == prefix {
        Some(pair.skip(prefix.len() as int))
    } else if k < t.len() {
        proof { lemma_segment_len_bound(t); }
        cookie_lookup(t.skip(k as int + 1), name)
    } else {
        None
    }
}

/// What is set is read back: a `name=value` pair returned alone in a
/// `Cookie` header is found under its name, for a name and a value that are
/// not empty and hold no `;` and no white space (as tokens and cookie names do).
pub proof fn law_cookie_reads_back(name: Seq<char>, value: Seq<char>)
    requires
        name.len() > 0,
        value.len() > 0,
        forall|i: int| 0 <= i < name.len() ==> name[i] != ';' && !unicode_white_space(#[trigger] name[i]),
        forall|i: int| 0 <= i < value.len() ==> value[i] != ';' && !unicode_white_space(#[trigger] value[i]),
    ensures
        cookie_lookup(name + "="@ + value, name) == Some(value),
{
    reveal_strlit("=");
    let t = name + "="@ + value;
    assert(t =~= name.push('=') + value);
    assert forall|i: int| 0 <= i < t.len() implies t[i] != ';' by {
        if i < name.len() {
            assert(t[i] == name[i]);
        } else if i > name.len() {
            assert(t[i] == value[i - name.len() - 1]);
        }
    }
    lemma_segment_len_bound(t);
    let k = segment_len(t);
    assert(k == t.len());
    assert(t.take(k as int) =~= t);
    assert(t[0] == name[0]);
    assert(trim_start(t) == t);
    assert(t.last() == value.last());
    assert(trim_end(t) == t);
    assert(t.take(name.push('=').len() as int) =~= name.push('='));
    assert(t.skip(name.push('=').len() as int) =~= value);
}

/// The view of an optional string.
pub open spec fn opt_view(o: Option<String>) -> Option<Seq<char>> {
    match o {
        Some(v) => Some(v@),
        None => None,
    }
}

/// The value of the cookie `name` in the request's `Cookie` header (`None`
/// when there is no header or no such cookie).
pub fn extract_cookie(cookie_header: Option<&str>, name: &str) -> (r: Option<String>)
    ensures
        opt_view(r) == match cookie_header {
            Some(h) => cookie_lookup(h@, name@),
            None => None,
        },
{
    let h = match cookie_header {
        Some(h) => h,
        None => return None,
    };
    let cs = chars_of(h);
    let mut prefix = chars_of(name);
    prefix.push('=');
    let plen = prefix.len();
    let n = cs.len();
    let mut start: usize = 0;
    assert(cs@.skip(0) =~= cs@);
    loop
        invariant
            cookie_header == Some(h),
            cs@ == h@,
            n == cs@.len(),
            prefix@ == name@.push('='),
            plen == prefix@.len(),
            start <= n,
            cookie_lookup(h@, name@) == cookie_lookup(cs@.skip(start as int), name@),
        decreases n - start,
    {
        let ghost t = cs@.skip(start as int);
        let mut end = start;
        while end < n && cs[end] != ';'
            invariant
                start <= end <= n,
                n == cs@.len(),
                t == cs@.skip(start as int),
                segment_len(t) == (end - start) + segment_len(cs@.skip(end as int)),
            decreases n - end,
        {
            assert(cs@.skip(end as int).skip(1) =~= cs@.skip(end + 1));
            end = end + 1;
        }
        proof {
            if end < n {
                assert(cs@.skip(end as int)[0] == ';');
            }
            assert(segment_len(cs@.skip(end as int)) == 0);
            assert(segment_len(t) == end - start);
            lemma_segment_len_bound(t);
            assert(t.take(end - start) =~= cs@.subrange(start as int, end as int));
        }
        let mut s = start;
        while s < end && is_whitespace(cs[s])
            invariant
                start <= s <= end <= n,
                n == cs@.len(),
                trim_start(cs@.subrange(start as int, end as int)) == trim_start(cs@.subrange(s as int, end as int)),
            decreases end - s,
        {
            assert(cs@.subrange(s as int, end as int).skip(1) =~= cs@.subrange(s + 1, end as int));
            s = s + 1;
        }
        let mut e = end;
        while e > s && is_whitespace(cs[e - 1])
            invariant
                start <= s <= e <= end <= n,
                n == cs@.len(),
                trim_end(cs@.subrange(s as int, end as int)) == trim_end(cs@.subrange(s as int, e as int)),
            decreases e - s,
        {
            assert(cs@.subrange(s as int, e as int).drop_last() =~= cs@.subrange(s as int, e - 1));
            e = e - 1;
        }
        let ghost pair = cs@.subrange(s as int, e as int);
        assert(trim(t.take(end - start)) == pair);
        assert(trim(t.take(segment_len(t) as int)) == pair);
        if e - s >= plen {
            let mut j: usize = 0;
            while j < plen && cs[s + j] == prefix[j]
                invariant
                    j <= plen,
                    s + plen <= e <= n,
                    n == cs@.len(),
                    plen == prefix@.len(),
                    forall|i: int| 0 <= i < j ==> cs@[s + i] == prefix@[i],
                decreases plen - j,
            {
                j = j + 1;
            }
            if j == plen {
                assert(pair.take(plen as int) =~= prefix@);
                let rest = h.substring_char(s + plen, e);
                assert(rest@ =~= pair.skip(plen as int));
                assert(name@.push('=') == prefix@);
                assert(cookie_lookup(t, name@) == Some(pair.skip(plen as int)));
                let out = rest.to_string();
                assert(out@ == rest@);
                return Some(out);
            } else {
                assert(pair.take(plen as int)[j as int] != prefix@[j as int]);
            }
        }
        if end == n {
            assert(segment_len(t) == t.len());
            assert(!(prefix@.len() <= pair.len() && pair.take(prefix@.len() as int) == prefix@));
            assert(cookie_lookup(t, name@) == None::<Seq<char>>);
            return None;
        }
        assert(t.skip(end - start + 1) =~= cs@.skip(end + 1));
        start = end + 1;
    }
}

} // verus!
