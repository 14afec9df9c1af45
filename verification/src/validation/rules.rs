//! Reusable validation rules. Each rule returns `Err(message)` when it fails;
//! its `*_outcome` spec function gives that message, or `None` when it passes.
use vstd::prelude::*;
use crate::text::{all_whitespace, decimal, is_alphabetic, is_blank, push_decimal, unicode_alphabetic};
use crate::validation::failure;

verus! {

/// Length in bytes of the UTF-8 encoding of `s` (what `str::len` returns).
pub open spec fn byte_len(s: Seq<char>) -> nat {
    vstd::utf8::encode_utf8(s).len()
}

/// `s.len()`: the length of `s` in bytes.
pub fn byte_length(s: &str) -> (n: usize)
    ensures
        n == byte_len(s@),
{
    s.as_bytes().len()
}

pub open spec fn not_empty_outcome(s: Seq<char>) -> Option<Seq<char>> {
    if is_blank(s) {
        Some("Cannot be empty"@)
    } else {
        None
    }
}

/// Fails if the string is empty or contains only whitespace.
pub fn not_empty(s: &str) -> (r: Result<(), String>)
    ensures
        failure(r) == not_empty_outcome(s@),
{
    if all_whitespace(s) {
        Err("Cannot be empty".to_string())
    } else {
        Ok(())
    }
}

pub open spec fn max_len_message(max: usize) -> Seq<char> {
    "Cannot exceed "@ + decimal(max as nat) + " characters"@
}

pub open spec fn max_len_outcome(max: usize, s: Seq<char>) -> Option<Seq<char>> {
    if byte_len(s) > max {
        Some(max_len_message(max))
    } else {
        None
    }
}

fn max_len_text(max: usize) -> (m: String)
    ensures
        m@ == max_len_message(max),
{
    let mut m = "Cannot exceed ".to_string();
    push_decimal(&mut m, max as u64);
    m.append(" characters");
    m
}

/// Fails if `s.len() > max` (length in bytes).
pub fn max_len(max: usize) -> (rule: impl Fn(&str) -> Result<(), String>)
    ensures
        forall|s: &str| #[trigger] rule.requires((s,)),
        forall|s: &str, r: Result<(), String>|
            #[trigger] rule.ensures((s,), r) ==> failure(r) == max_len_outcome(max, s@),
{
    move |s: &str| -> (r: Result<(), String>)
        ensures
            failure(r) == max_len_outcome(max, s@),
        {
            if byte_length(s) > max {
                Err(max_len_text(max))
            } else {
                Ok(())
            }
        }
}

pub open spec fn min_len_message(min: usize) -> Seq<char> {
    "Must be at least "@ + decimal(min as nat) + " characters"@
}

pub open spec fn min_len_outcome(min: usize, s: Seq<char>) -> Option<Seq<char>> {
    if byte_len(s) < min {
        Some(min_len_message(min))
    } else {
        None
    }
}

fn min_len_text(min: usize) -> (m: String)
    ensures
        m@ == min_len_message(min),
{
    let mut m = "Must be at least ".to_string();
    push_decimal(&mut m, min as u64);
    m.append(" characters");
    m
}

/// Fails if `s.len() < min` (length in bytes).
pub fn min_len(min: usize) -> (rule: impl Fn(&str) -> Result<(), String>)
    ensures
        forall|s: &str| #[trigger] rule.requires((s,)),
        forall|s: &str, r: Result<(), String>|
            #[trigger] rule.ensures((s,), r) ==> failure(r) == min_len_outcome(min, s@),
{
    move |s: &str| -> (r: Result<(), String>)
        ensures
            failure(r) == min_len_outcome(min, s@),
        {
            if byte_length(s) < min {
                Err(min_len_text(min))
            } else {
                Ok(())
            }
        }
}

pub open spec fn between_len_message(min: usize, max: usize) -> Seq<char> {
    "Must be between "@ + decimal(min as nat) + " and "@ + decimal(max as nat) + " characters"@
}

pub open spec fn between_len_outcome(min: usize, max: usize, s: Seq<char>) -> Option<Seq<char>> {
    if byte_len(s) < min || byte_len(s) > max {
        Some(between_len_message(min, max))
    } else {
        None
    }
}

fn between_len_text(min: usize, max: usize) -> (m: String)
    ensures
        m@ == between_len_message(min, max),
{
    let mut m = "Must be between ".to_string();
    push_decimal(&mut m, min as u64);
    m.append(" and ");
    push_decimal(&mut m, max as u64);
    m.append(" characters");
    m
}

/// Fails if `s.len()` (in bytes) is outside `[min, max]`.
pub fn between_len(min: usize, max: usize) -> (rule: impl Fn(&str) -> Result<(), String>)
    ensures
        forall|s: &str| #[trigger] rule.requires((s,)),
        forall|s: &str, r: Result<(), String>|
            #[trigger] rule.ensures((s,), r) ==> failure(r) == between_len_outcome(min, max, s@),
{
    move |s: &str| -> (r: Result<(), String>)
        ensures
            failure(r) == between_len_outcome(min, max, s@),
        {
            let len = byte_length(s);
            if len < min || len > max {
                Err(between_len_text(min, max))
            } else {
                Ok(())
            }
        }
}

/// What `email_address::EmailAddress::is_valid` answers for `s`.
pub uninterp spec fn email_address_accepts(s: Seq<char>) -> bool;

/// `email_address::EmailAddress::is_valid`. Its result is named, not restated;
/// the one fact given beside the name is that an address without `@` is
/// rejected (the parser splits at the last `@` and fails when there is none).
#[verifier::external_body]
fn email_address_is_valid(s: &str) -> (r: bool)
    ensures
        r == email_address_accepts(s@),
        (forall|i: int| 0 <= i < s@.len() ==> s@[i] != '@') ==> !r,
{
    email_address::EmailAddress::is_valid(s)
}

/// The email rule's outcome: an address passes when it holds an `@` and the
/// `email_address` crate accepts it (it refuses every text without `@`).
pub open spec fn email_outcome(s: Seq<char>) -> Option<Seq<char>> {
    if (exists|i: int| 0 <= i < s.len() && s[i] == '@') && email_address_accepts(s) {
        None
    } else {
        Some("Must be a valid email address"@)
    }
}

/// Fails if `s` is not a valid email address (as the `email_address` crate
/// decides); a text without `@` always fails.
pub fn email(s: &str) -> (r: Result<(), String>)
    ensures
        failure(r) == email_outcome(s@),
        (forall|i: int| 0 <= i < s@.len() ==> s@[i] != '@') ==> failure(r) == Some("Must be a valid email address"@),
{
    if email_address_is_valid(s) {
        Ok(())
    } else {
        Err("Must be a valid email address".to_string())
    }
}

/// Lowercase ASCII letter, ASCII digit or hyphen.
pub open spec fn is_slug_char(c: char) -> bool {
    ('a' <= c && c <= 'z') || ('0' <= c && c <= '9') || c == '-'
}

pub open spec fn slug_outcome(s: Seq<char>) -> Option<Seq<char>> {
    if !(forall|i: int| 0 <= i < s.len() ==> is_slug_char(#[trigger] s[i])) {
        Some("Can only contain lowercase letters, digits, and hyphens"@)
    } else if s.len() > 0 && (s[0] == '-' || s[s.len() - 1] == '-') {
        Some("Cannot start or end with a hyphen"@)
    } else {
        None
    }
}

/// Fails if `s` contains characters other than lowercase ASCII letters,
/// digits, or hyphens, or if it starts or ends with a hyphen.
pub fn slug(s: &str) -> (r: Result<(), String>)
    ensures
        failure(r) == slug_outcome(s@),
{
    let mut all_ok = true;
    let mut first: Option<char> = None;
    let mut last: Option<char> = None;
    for c in it: s.chars()
        invariant
            it.seq() == s@,
            all_ok == (forall|j: int| 0 <= j < it.index() ==> is_slug_char(#[trigger] s@[j])),
            it.index() == 0 ==> first is None && last is None,
            it.index() > 0 ==> first == Some(s@[0]) && last == Some(s@[it.index() - 1]),
    {
        let ok = ('a' <= c && c <= 'z') || ('0' <= c && c <= '9') || c == '-';
        if !ok {
            all_ok = false;
        }
        if first.is_none() {
            first = Some(c);
        }
        last = Some(c);
    }
    if !all_ok {
        return Err("Can only contain lowercase letters, digits, and hyphens".to_string());
    }
    let starts = match first {
        Some(c) => c == '-',
        None => false,
    };
    let ends = match last {
        Some(c) => c == '-',
        None => false,
    };
    if starts || ends {
        return Err("Cannot start or end with a hyphen".to_string());
    }
    Ok(())
}

/// An ASCII character that is not a letter: a digit, white space, punctuation or a control character.
pub open spec fn is_ascii_non_letter(c: char) -> bool {
    c <= '\u{7f}' && !(('a' <= c && c <= 'z') || ('A' <= c && c <= 'Z'))
}

pub open spec fn password_strength_outcome(s: Seq<char>) -> Option<Seq<char>> {
    if s.len() < 8 {
        Some("Must be at least 8 characters"@)
    } else if forall|i: int| 0 <= i < s.len() ==> unicode_alphabetic(#[trigger] s[i]) {
        Some("Must contain at least one non-letter character (digit or symbol)"@)
    } else {
        None
    }
}

/// Password strength: at least 8 characters and at least one non-alphabetic character.
pub fn password_strength(s: &str) -> (r: Result<(), String>)
    ensures
        failure(r) == password_strength_outcome(s@),
        s@.len() >= 8 && (exists|i: int| 0 <= i < s@.len() && #[trigger] is_ascii_non_letter(s@[i])) ==> r is Ok,
{
    if s.unicode_len() < 8 {
        return Err("Must be at least 8 characters".to_string());
    }
    let mut has_other = false;
    for c in it: s.chars()
        invariant
            it.seq() == s@,
            has_other == (exists|j: int| 0 <= j < it.index() && !unicode_alphabetic(#[trigger] s@[j])),
            forall|j: int| 0 <= j < it.index() && #[trigger] is_ascii_non_letter(s@[j]) ==> !unicode_alphabetic(s@[j]),
    {
        if !is_alphabetic(c) {
            has_other = true;
        }
    }
    if !has_other {
        return Err("Must contain at least one non-letter character (digit or symbol)".to_string());
    }
    Ok(())
}

pub open spec fn char_len_outcome(min: Option<usize>, max: Option<usize>, message: Seq<char>, s: Seq<char>) -> Option<Seq<char>> {
    if (min matches Some(lo) && s.len() < lo) || (max matches Some(hi) && s.len() > hi) {
        Some(message)
    } else {
        None
    }
}

/// Fails with `message` if the number of characters of `s` is below `min` or above `max`.
pub fn char_len(min: Option<usize>, max: Option<usize>, message: &'static str) -> (rule: impl Fn(&str) -> Result<(), String>)
    ensures
        forall|s: &str| #[trigger] rule.requires((s,)),
        forall|s: &str, r: Result<(), String>|
            #[trigger] rule.ensures((s,), r) ==> failure(r) == char_len_outcome(min, max, message@, s@),
{
    move |s: &str| -> (r: Result<(), String>)
        ensures
            failure(r) == char_len_outcome(min, max, message@, s@),
        {
            let len = s.unicode_len();
            let too_short = match min {
                Some(lo) => len < lo,
                None => false,
            };
            let too_long = match max {
                Some(hi) => len > hi,
                None => false,
            };
            if too_short || too_long {
                Err(message.to_string())
            } else {
                Ok(())
            }
        }
}

/// A password shorter than 8 characters always fails on its length; one of
/// 8 characters or more passes exactly when some character of it is not
/// alphabetic, and otherwise fails asking for a non-letter.
pub proof fn law_password_strength(s: Seq<char>)
    ensures
        s.len() < 8 ==> password_strength_outcome(s) == Some("Must be at least 8 characters"@),
        s.len() >= 8 ==> (password_strength_outcome(s) is None <==> exists|i: int| 0 <= i < s.len() && !unicode_alphabetic(#[trigger] s[i])),
        s.len() >= 8 && (forall|i: int| 0 <= i < s.len() ==> unicode_alphabetic(#[trigger] s[i])) ==> password_strength_outcome(s)
            == Some("Must contain at least one non-letter character (digit or symbol)"@),
{
}

/// A slug that passes holds only lowercase ASCII letters, ASCII digits and
/// `-`, and neither starts nor ends with `-`; a character outside that set
/// always gives the character-set failure, and a text of allowed characters
/// fails only on a leading or trailing hyphen.
pub proof fn law_slug(s: Seq<char>)
    ensures
        slug_outcome(s) is None ==> forall|i: int|
            0 <= i < s.len() ==> ('a' <= #[trigger] s[i] && s[i] <= 'z') || ('0' <= s[i] && s[i] <= '9') || s[i] == '-',
        slug_outcome(s) is None && s.len() > 0 ==> s[0] != '-' && s[s.len() - 1] != '-',
        (exists|i: int| 0 <= i < s.len() && !(('a' <= #[trigger] s[i] && s[i] <= 'z') || ('0' <= s[i] && s[i] <= '9') || s[i] == '-'))
            ==> slug_outcome(s) == Some("Can only contain lowercase letters, digits, and hyphens"@),
        (forall|i: int| 0 <= i < s.len() ==> ('a' <= #[trigger] s[i] && s[i] <= 'z') || ('0' <= s[i] && s[i] <= '9') || s[i] == '-')
            ==> slug_outcome(s) == (if s.len() > 0 && (s[0] == '-' || s[s.len() - 1] == '-') {
                Some("Cannot start or end with a hyphen"@)
            } else {
                None
            }),
{
    if slug_outcome(s) is None {
        assert forall|i: int| 0 <= i < s.len() implies ('a' <= #[trigger] s[i] && s[i] <= 'z') || ('0' <= s[i] && s[i] <= '9') || s[i] == '-' by {
            assert(is_slug_char(s[i]));
        }
    }
}

} // verus!
