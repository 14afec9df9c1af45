use issue_tracker_api::models::PatchField;
use issue_tracker_api::validation::rules::{
    between_len, char_len, email, max_len, min_len, not_empty, password_strength, slug,
};
use issue_tracker_api::validation::{ValidationErrors, Validator};

// --- rules ---

#[test]
fn not_empty_rejects_blank() {
    assert!(not_empty("").is_err());
    assert!(not_empty("   ").is_err());
    assert!(not_empty("x").is_ok());
}

#[test]
fn max_len_boundary() {
    let rule = max_len(3);
    assert!(rule("abc").is_ok());
    assert!(rule("abcd").is_err());
}

#[test]
fn min_len_boundary() {
    let rule = min_len(3);
    assert!(rule("abc").is_ok());
    assert!(rule("ab").is_err());
}

#[test]
fn between_len_boundaries() {
    let rule = between_len(3, 5);
    assert!(rule("abc").is_ok());
    assert!(rule("ab").is_err());
    assert!(rule("abcdef").is_err());
}

#[test]
fn email_valid_and_invalid() {
    assert!(email("user@example.com").is_ok());
    assert!(email("not-an-email").is_err());
    assert!(email("@nodomain.com").is_err());
    assert!(email("noatsign.com").is_err());
}

#[test]
fn slug_valid_and_invalid() {
    assert!(slug("my-project-1").is_ok());
    assert!(slug("UPPER").is_err());
    assert!(slug("has space").is_err());
    assert!(slug("under_score").is_err());
    assert!(slug("-leading").is_err());
    assert!(slug("trailing-").is_err());
}

#[test]
fn password_strength_cases() {
    assert!(password_strength("short1").is_err());
    assert!(password_strength("allletter").is_err());
    assert!(password_strength("validpass1").is_ok());
    assert!(password_strength("validpass!").is_ok());
}

// --- Validator ---

#[test]
fn validator_collects_all_errors() {
    let mut v = Validator::new();
    v.field("name", "").check(not_empty);
    v.field("name", "toolongname").check(max_len(5));
    let errs = v.finish().unwrap_err();
    assert_eq!(errs.get("name").unwrap().len(), 2);
}

#[test]
fn validator_ok_when_no_errors() {
    let mut v = Validator::new();
    v.field("name", "valid").check(not_empty);
    assert!(v.finish().is_ok());
}

// --- PatchField as a validated value ---

#[test]
fn patch_field_absent_skips_rule() {
    let mut v = Validator::new();
    let field: PatchField<String> = PatchField::Absent;
    v.field("name", &field).check(not_empty);
    assert!(v.finish().is_ok());
}

#[test]
fn patch_field_present_runs_rule() {
    let mut v = Validator::new();
    let field = PatchField::Value(String::new());
    v.field("name", &field).check(not_empty);
    assert!(v.finish().is_err());
}

#[test]
fn plain_and_patch_field_identical_syntax() {
    let plain: String = "hello".into();
    let patch: PatchField<String> = PatchField::Value("hello".into());

    let mut vp = Validator::new();
    let mut vf = Validator::new();
    vp.field("name", &plain).check(not_empty);
    vf.field("name", &patch).check(not_empty);

    assert!(vp.finish().is_ok());
    assert!(vf.finish().is_ok());
}

// --- messages and further cases ---

#[test]
fn rule_messages_are_exact() {
    assert_eq!(not_empty(" \t\n").unwrap_err(), "Cannot be empty");
    assert_eq!(max_len(100)(&"x".repeat(101)).unwrap_err(), "Cannot exceed 100 characters");
    assert_eq!(min_len(8)("abc").unwrap_err(), "Must be at least 8 characters");
    assert_eq!(between_len(3, 50)("ab").unwrap_err(), "Must be between 3 and 50 characters");
    assert_eq!(email("nope").unwrap_err(), "Must be a valid email address");
    assert_eq!(slug("Bad").unwrap_err(), "Can only contain lowercase letters, digits, and hyphens");
    assert_eq!(slug("-x").unwrap_err(), "Cannot start or end with a hyphen");
    assert_eq!(password_strength("abc").unwrap_err(), "Must be at least 8 characters");
    assert_eq!(
        password_strength("abcdefgh").unwrap_err(),
        "Must contain at least one non-letter character (digit or symbol)"
    );
}

#[test]
fn length_rules_count_bytes() {
    // "é" is two bytes: byte length, not characters, is what `max_len` measures.
    assert!(max_len(1)("é").is_err());
    assert!(max_len(2)("é").is_ok());
    assert!(max_len(0)("").is_ok());
}

#[test]
fn char_len_counts_characters() {
    let rule = char_len(Some(1), Some(2), "bad length");
    assert!(rule("éé").is_ok());
    assert_eq!(rule("").unwrap_err(), "bad length");
    assert!(rule("abc").is_err());
}

#[test]
fn slug_accepts_empty_and_unicode_rejected() {
    assert!(slug("").is_ok());
    assert!(slug("a").is_ok());
    assert!(slug("ü").is_err());
    assert!(slug("-").is_err());
}

#[test]
fn not_empty_treats_unicode_space_as_blank() {
    assert!(not_empty("\u{3000}").is_err());
    assert!(not_empty(" a ").is_ok());
}

#[test]
fn password_strength_accepts_unicode_symbol() {
    assert!(password_strength("pässwörd").is_err());
    assert!(password_strength("pässwörd1").is_ok());
}

#[test]
fn validator_keeps_message_order_per_field() {
    let mut v = Validator::new();
    v.field("name", "").check(not_empty).check(min_len(2));
    v.field("other", "ok").check(not_empty);
    let errs: ValidationErrors = v.finish().unwrap_err();
    let msgs = errs.get("name").unwrap();
    assert_eq!(msgs, &vec!["Cannot be empty".to_string(), "Must be at least 2 characters".to_string()]);
    assert!(errs.get("other").is_none());
}

#[test]
fn validation_errors_push_and_get() {
    let mut e = ValidationErrors::new();
    assert!(e.is_empty());
    e.push("a", "one".to_string());
    e.push("b", "two".to_string());
    e.push("a", "three".to_string());
    assert!(!e.is_empty());
    assert_eq!(e.get("a").unwrap(), &vec!["one".to_string(), "three".to_string()]);
    assert_eq!(e.get("b").unwrap(), &vec!["two".to_string()]);
    assert!(e.get("c").is_none());
}

#[test]
fn option_values_skip_when_none() {
    let none: Option<String> = None;
    let some: Option<String> = Some(String::new());
    let mut v = Validator::new();
    v.field("x", &none).check(not_empty);
    assert!(v.finish().is_ok());
    let mut v = Validator::new();
    v.field("x", &some).check(not_empty);
    assert!(v.finish().is_err());
}

#[test]
fn validation_entries_keep_field_order() {
    let mut e = ValidationErrors::new();
    e.push("name", "a".to_string());
    e.push("email", "b".to_string());
    e.push("name", "c".to_string());
    let entries = e.entries();
    assert_eq!(entries.len(), 2);
    assert_eq!(entries[0], ("name".to_string(), vec!["a".to_string(), "c".to_string()]));
    assert_eq!(entries[1], ("email".to_string(), vec!["b".to_string()]));
    assert!(ValidationErrors::new().entries().is_empty());
}

#[test]
fn password_length_counts_characters() {
    assert_eq!(password_strength("ééééé1"), Err("Must be at least 8 characters".to_string()));
    assert_eq!(password_strength("éééééé1!"), Ok(()));
    assert_eq!(password_strength("éééééééé"), Err("Must contain at least one non-letter character (digit or symbol)".to_string()));
}

#[test]
fn white_space_is_the_unicode_property() {
    for c in ['\t', '\n', '\u{b}', '\u{c}', '\r', ' ', '\u{85}', '\u{a0}', '\u{1680}', '\u{2000}', '\u{200a}', '\u{2028}', '\u{2029}', '\u{202f}', '\u{205f}', '\u{3000}'] {
        assert!(not_empty(&c.to_string()).is_err(), "{:?}", c);
    }
    for c in ['\u{200b}', '\u{180e}', '\u{feff}', 'x', '\u{1c}'] {
        assert!(not_empty(&c.to_string()).is_ok(), "{:?}", c);
    }
}

#[test]
fn white_space_agrees_with_char_is_whitespace() {
    for u in 0u32..0x3100 {
        if let Some(c) = char::from_u32(u) {
            assert_eq!(not_empty(&c.to_string()).is_err(), c.is_whitespace(), "{:?}", c);
        }
    }
}

#[test]
fn email_without_at_sign_fails() {
    assert_eq!(email("noatsign.com"), Err("Must be a valid email address".to_string()));
    assert_eq!(email(""), Err("Must be a valid email address".to_string()));
}
