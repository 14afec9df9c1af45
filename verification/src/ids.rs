//! UUIDs, held as `u128` (`uuid::Uuid::as_u128`, big-endian), and their text form.
use vstd::prelude::*;
use vstd::arithmetic::power2::pow2;

verus! {

/// Lowercase hexadecimal digit for `n < 16`.
pub open spec fn hex_digit(n: int) -> char {
    if n < 10 {
        (('0' as int) + n) as char
    } else {
        (('a' as int) + n - 10) as char
    }
}

/// The `k`-th hexadecimal digit of `u`, most significant first (`k < 32`).
pub open spec fn nibble(u: u128, k: int) -> int {
    (u as int / pow2((4 * (31 - k)) as nat) as int) % 16
}

/// Index of the hex digit shown at position `i` of the hyphenated form.
pub open spec fn digit_at(i: int) -> int {
    if i < 8 {
        i
    } else if i < 13 {
        i - 1
    } else if i < 18 {
        i - 2
    } else if i < 23 {
        i - 3
    } else {
        i - 4
    }
}

/// The hyphenated lowercase form `xxxxxxxx-xxxx-xxxx-xxxx-xxxxxxxxxxxx`
/// in which `uuid::Uuid` displays itself.
pub open spec fn uuid_text(u: u128) -> Seq<char> {
    Seq::new(
        36,
        |i: int|
            if i == 8 || i == 13 || i == 18 || i == 23 {
                '-'
            } else {
                hex_digit(nibble(u, digit_at(i)))
            },
    )
}

/// What `uuid::Uuid::parse_str` gives for `s`, as a `u128`.
pub uninterp spec fn uuid_parsed(s: Seq<char>) -> Option<u128>;

/// `uuid::Uuid::new_v4()`: a random UUID. Nothing is promised of its value.
#[verifier::external_body]
pub(crate) fn new_v4() -> u128 {
    uuid::Uuid::new_v4().as_u128()
}

/// `Uuid::to_string` (its `Display`): the hyphenated lowercase form.
#[verifier::external_body]
pub(crate) fn uuid_to_string(u: u128) -> (s: String)
    ensures
        s@ == uuid_text(u),
{
    uuid::Uuid::from_u128(u).to_string()
}

/// `uuid::Uuid::parse_str`. Its result is named; beside the name it is stated
/// that the hyphenated form of a UUID parses back to that UUID.
#[verifier::external_body]
pub(crate) fn uuid_parse(s: &str) -> (r: Option<u128>)
    ensures
        r == uuid_parsed(s@),
        forall|u: u128| s@ == #[trigger] uuid_text(u) ==> r == Some(u),
{
    match uuid::Uuid::parse_str(s) {
        Ok(u) => Some(u.as_u128()),
        Err(_) => None,
    }
}

} // verus!
