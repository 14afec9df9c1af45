//! Typed application configuration built from the environment's values.
use vstd::prelude::*;
use crate::text::{decimal, digit_char};

verus! {

/// Whether `c` is an ASCII digit.
pub open spec fn is_digit(c: char) -> bool {
    '0' <= c && c <= '9'
}

/// The value of a run of decimal digits (0 for the empty run).
pub open spec fn digits_value(d: Seq<char>) -> int
    decreases d.len(),
{
    if d.len() == 0 {
        0
    } else {
        digits_value(d.drop_last()) * 10 + (d.last() as int - '0' as int)
    }
}

/// A non-empty run of ASCII digits.
pub open spec fn is_digit_run(d: Seq<char>) -> bool {
    d.len() > 0 && forall|i: int| 0 <= i < d.len() ==> is_digit(#[trigger] d[i])
}

/// The number that `str::parse` reads from `s` for an unsigned integer type:
/// an optional `+`, then one or more ASCII digits (before the range check).
pub open spec fn unsigned_text(s: Seq<char>) -> Option<int> {
    let d = if s.len() > 0 && s[0] == '+' { s.skip(1) } else { s };
    if is_digit_run(d) {
        Some(digits_value(d))
    } else {
        None
    }
}

/// The number that `str::parse` reads from `s` for a signed integer type:
/// an optional `+` or `-`, then one or more ASCII digits (before the range check).
pub open spec fn signed_text(s: Seq<char>) -> Option<int> {
    if s.len() > 0 && s[0] == '-' {
        if is_digit_run(s.skip(1)) {
            Some(-digits_value(s.skip(1)))
        } else {
            None
        }
    } else {
        unsigned_text(s)
    }
}

/// `s.parse::<u16>().ok()`.
pub open spec fn parse_u16_spec(s: Seq<char>) -> Option<u16> {
    match unsigned_text(s) {
        Some(v) => if v <= u16::MAX { Some(v as u16) } else { None },
        None => None,
    }
}

/// `s.parse::<u32>().ok()`.
pub open spec fn parse_u32_spec(s: Seq<char>) -> Option<u32> {
    match unsigned_text(s) {
        Some(v) => if v <= u32::MAX { Some(v as u32) } else { None },
        None => None,
    }
}

/// `s.parse::<i64>().ok()`.
pub open spec fn parse_i64_spec(s: Seq<char>) -> Option<i64> {
    match signed_text(s) {
        Some(v) => if i64::MIN <= v <= i64::MAX { Some(v as i64) } else { None },
        None => None,
    }
}

proof fn lemma_digits_value_nonneg(d: Seq<char>)
    requires
        forall|i: int| 0 <= i < d.len() ==> is_digit(#[trigger] d[i]),
    ensures
        digits_value(d) >= 0,
    decreases d.len(),
{
    if d.len() > 0 {
        lemma_digits_value_nonneg(d.drop_last());
    }
}

proof fn lemma_digit_char(d: nat)
    requires
        d < 10,
    ensures
        is_digit(digit_char(d)),
        digit_char(d) as int - '0' as int == d,
{
}

/// A number written in decimal reads back as itself: `decimal(n)` is a run of
/// digits whose value is `n`, so `str::parse` accepts it whenever `n` is in range.
pub proof fn law_decimal_reads_back(n: nat)
    ensures
        is_digit_run(decimal(n)),
        digits_value(decimal(n)) == n,
        unsigned_text(decimal(n)) == Some(n as int),
    decreases n,
{
    if n < 10 {
        lemma_digit_char(n);
        assert(decimal(n).drop_last() =~= Seq::<char>::empty());
        assert(decimal(n).last() == digit_char(n));
        assert(digits_value(Seq::<char>::empty()) == 0);
        assert(digits_value(decimal(n)) == digits_value(decimal(n).drop_last()) * 10 + (digit_char(n) as int - '0' as int));
        assert(digits_value(decimal(n)) == n);
    } else {
        law_decimal_reads_back(n / 10);
        lemma_digit_char(n % 10);
        let s = decimal(n / 10);
        assert(decimal(n).drop_last() =~= s);
        assert(decimal(n).last() == digit_char(n % 10));
        assert(digits_value(decimal(n)) == digits_value(s) * 10 + (n % 10) as int);
        assert((n / 10) * 10 + n % 10 == n);
        assert(digits_value(decimal(n)) == n);
        assert forall|i: int| 0 <= i < decimal(n).len() implies is_digit(#[trigger] decimal(n)[i]) by {
            if i < s.len() {
                assert(decimal(n)[i] == s[i]);
            }
        }
    }
    assert(decimal(n)[0] != '+');
    assert(unsigned_text(decimal(n)) == Some(digits_value(decimal(n))));
}

/// Reads a run of digits; `None` unless `d` is a non-empty digit run of value at most `max`.
fn parse_digits(d: &str, max: u64) -> (r: Option<u64>)
    ensures
        r == (if is_digit_run(d@) && digits_value(d@) <= max { Some(digits_value(d@) as u64) } else { None::<u64> }),
        is_digit_run(d@) ==> digits_value(d@) >= 0,
        r matches Some(x) ==> x <= max && x == digits_value(d@),
{
    proof {
        if is_digit_run(d@) {
            lemma_digits_value_nonneg(d@);
        }
    }
    let mut value: u64 = 0;
    let mut too_big = false;
    let mut all_digits = true;
    let mut seen_any = false;
    for c in it: d.chars()
        invariant
            it.seq() == d@,
            seen_any == (it.index() > 0),
            all_digits == (forall|j: int| 0 <= j < it.index() ==> is_digit(#[trigger] d@[j])),
            all_digits && !too_big ==> value == digits_value(d@.take(it.index() as int)) && value <= max,
            all_digits && too_big ==> digits_value(d@.take(it.index() as int)) > max,
    {
        let ghost k = it.index();
        let ghost prefix = d@.take(k as int);
        proof {
            assert(d@.take(k + 1).drop_last() =~= prefix);
            assert(d@.take(k + 1).last() == c);
        }
        if '0' <= c && c <= '9' {
            if all_digits {
                proof { lemma_digits_value_nonneg(prefix); }
                let digit = (c as u32 - '0' as u32) as u64;
                if !too_big {
                    if digit > max || value > (max - digit) / 10 {
                        too_big = true;
                    } else {
                        value = value * 10 + digit;
                    }
                }
            }
        } else {
            all_digits = false;
        }
        seen_any = true;
    }
    proof {
        assert(d@.take(d@.len() as int) =~= d@);
    }
    if all_digits && seen_any && !too_big {
        Some(value)
    } else {
        None
    }
}

/// Reads an optional `+` then digits, up to `max`.
fn parse_unsigned(s: &str, max: u64) -> (r: Option<u64>)
    ensures
        r == (match unsigned_text(s@) {
            Some(v) => if v <= max { Some(v as u64) } else { None::<u64> },
            None => None::<u64>,
        }),
        unsigned_text(s@) matches Some(v) ==> v >= 0,
        r matches Some(x) ==> x <= max && unsigned_text(s@) == Some(x as int),
{
    let n = s.unicode_len();
    if n > 0 && s.get_char(0) == '+' {
        let rest = s.substring_char(1, n);
        assert(rest@ =~= s@.skip(1));
        parse_digits(rest, max)
    } else {
        parse_digits(s, max)
    }
}

/// `s.parse::<u16>().ok()`.
pub fn parse_u16(s: &str) -> (r: Option<u16>)
    ensures
        r == parse_u16_spec(s@),
{
    match parse_unsigned(s, 65535) {
        Some(v) => Some(v as u16),
        None => None,
    }
}

/// `s.parse::<u32>().ok()`.
pub fn parse_u32(s: &str) -> (r: Option<u32>)
    ensures
        r == parse_u32_spec(s@),
{
    match parse_unsigned(s, 4294967295) {
        Some(v) => Some(v as u32),
        None => None,
    }
}

/// `s.parse::<i64>().ok()`.
pub fn parse_i64(s: &str) -> (r: Option<i64>)
    ensures
        r == parse_i64_spec(s@),
{
    let n = s.unicode_len();
    if n > 0 && s.get_char(0) == '-' {
        let rest = s.substring_char(1, n);
        assert(rest@ =~= s@.skip(1));
        match parse_digits(rest, 9223372036854775808) {
            Some(m) => {
                if m == 9223372036854775808 {
                    Some(i64::MIN)
                } else {
                    Some(-(m as i64))
                }
            },
            None => None,
        }
    } else {
        match parse_unsigned(s, 9223372036854775807) {
            Some(v) => Some(v as i64),
            None => None,
        }
    }
}

/// The raw values of the environment variables the configuration reads
/// (`None` when a variable is unset or not valid Unicode).
#[derive(Clone, Debug, Default)]
pub struct EnvVars {
    pub database_url: Option<String>,
    pub database_max_connections: Option<String>,
    pub jwt_secret: Option<String>,
    pub jwt_access_expiry_secs: Option<String>,
    pub jwt_refresh_expiry_secs: Option<String>,
    pub server_host: Option<String>,
    pub server_port: Option<String>,
    pub log_level: Option<String>,
}

/// Typed application configuration.
#[derive(Clone, Debug)]
pub struct Config {
    pub database_url: String,
    pub database_max_connections: u32,
    pub jwt_secret: String,
    pub jwt_access_expiry_secs: i64,
    pub jwt_refresh_expiry_secs: i64,
    pub server_host: String,
    pub server_port: u16,
    pub log_level: String,
}

/// The value of an optional setting: the parsed value, or `default` when
/// the variable is unset or does not parse.
pub open spec fn or_default<T>(parsed: Option<T>, default: T) -> T {
    match parsed {
        Some(v) => v,
        None => default,
    }
}

pub open spec fn parsed_u32(value: Option<String>) -> Option<u32> {
    match value {
        Some(v) => parse_u32_spec(v@),
        None => None,
    }
}

pub open spec fn parsed_u16(value: Option<String>) -> Option<u16> {
    match value {
        Some(v) => parse_u16_spec(v@),
        None => None,
    }
}

pub open spec fn parsed_i64(value: Option<String>) -> Option<i64> {
    match value {
        Some(v) => parse_i64_spec(v@),
        None => None,
    }
}

pub open spec fn text_or(value: Option<String>, default: Seq<char>) -> Seq<char> {
    match value {
        Some(v) => v@,
        None => default,
    }
}

/// A required setting: the variable must be set (startup stops otherwise).
fn required(value: Option<String>) -> (r: String)
    requires
        value is Some,
    ensures
        Some(r) == value,
{
    match value {
        Some(v) => v,
        None => String::new(),
    }
}

fn optional_u32(value: Option<String>, default: u32) -> (r: u32)
    ensures
        r == or_default(parsed_u32(value), default),
{
    match value {
        Some(v) => match parse_u32(v.as_str()) {
            Some(n) => n,
            None => default,
        },
        None => default,
    }
}

fn optional_u16(value: Option<String>, default: u16) -> (r: u16)
    ensures
        r == or_default(parsed_u16(value), default),
{
    match value {
        Some(v) => match parse_u16(v.as_str()) {
            Some(n) => n,
            None => default,
        },
        None => default,
    }
}

fn optional_i64(value: Option<String>, default: i64) -> (r: i64)
    ensures
        r == or_default(parsed_i64(value), default),
{
    match value {
        Some(v) => match parse_i64(v.as_str()) {
            Some(n) => n,
            None => default,
        },
        None => default,
    }
}

/// A text setting: any value parses as a `String`.
fn optional_string(value: Option<String>, default: &str) -> (r: String)
    ensures
        r@ == text_or(value, default@),
{
    match value {
        Some(v) => v,
        None => default.to_string(),
    }
}

impl Config {
    /// The configuration from the environment's values. `DATABASE_URL` and
    /// `JWT_SECRET` must be set; every other setting falls back to its default
    /// when unset or unparsable.
    pub fn from_env(env: EnvVars) -> (c: Self)
        requires
            env.database_url is Some,
            env.jwt_secret is Some,
        ensures
            Some(c.database_url) == env.database_url,
            c.database_max_connections == or_default(parsed_u32(env.database_max_connections), 20),
            Some(c.jwt_secret) == env.jwt_secret,
            c.jwt_access_expiry_secs == or_default(parsed_i64(env.jwt_access_expiry_secs), 300),
            c.jwt_refresh_expiry_secs == or_default(parsed_i64(env.jwt_refresh_expiry_secs), 604800),
            c.server_host@ == text_or(env.server_host, "0.0.0.0"@),
            c.server_port == or_default(parsed_u16(env.server_port), 8080),
            c.log_level@ == text_or(env.log_level, "info"@),
    {
        Config {
            database_url: required(env.database_url),
            database_max_connections: optional_u32(env.database_max_connections, 20),
            jwt_secret: required(env.jwt_secret),
            jwt_access_expiry_secs: optional_i64(env.jwt_access_expiry_secs, 300),
            jwt_refresh_expiry_secs: optional_i64(env.jwt_refresh_expiry_secs, 604800),
            server_host: optional_string(env.server_host, "0.0.0.0"),
            server_port: optional_u16(env.server_port, 8080),
            log_level: optional_string(env.log_level, "info"),
        }
    }
}

} // verus!
