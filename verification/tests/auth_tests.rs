use issue_tracker_api::auth::cookie::{build_cookie, clear_cookie, clear_cookie_text, extract_cookie, set_cookie_text};
use issue_tracker_api::auth::jwt::{
    claims_subject, create_access_token, create_refresh_token, validate_token, validate_token_at, Claims,
};
use issue_tracker_api::config::Config;
use issue_tracker_api::handlers::auth_handler::{refresh, refresh_at};
use issue_tracker_api::auth::middleware::{bearer_token, Auth};
use issue_tracker_api::errors::AppError;

const USER: u128 = 0x67e5_5044_10b1_426f_9247_bb68_0e5f_e0c8;

#[test]
fn set_cookie_text_format() {
    assert_eq!(
        set_cookie_text("access_token", "abc", 300, "/"),
        "access_token=abc; HttpOnly; Secure; SameSite=Lax; Path=/; Max-Age=300"
    );
    assert_eq!(
        set_cookie_text("t", "v", -5, "/x"),
        "t=v; HttpOnly; Secure; SameSite=Lax; Path=/x; Max-Age=-5"
    );
    assert_eq!(
        set_cookie_text("t", "v", i64::MIN, "/"),
        "t=v; HttpOnly; Secure; SameSite=Lax; Path=/; Max-Age=-9223372036854775808"
    );
    assert_eq!(clear_cookie_text("refresh_token", "/api/auth/refresh"), "refresh_token=; HttpOnly; Secure; SameSite=Lax; Path=/api/auth/refresh; Max-Age=0");
}

#[test]
fn build_and_clear_cookie_header_values() {
    let h = build_cookie("access_token", "tok.en", 604800, "/");
    assert_eq!(h.to_str().unwrap(), "access_token=tok.en; HttpOnly; Secure; SameSite=Lax; Path=/; Max-Age=604800");
    let h = clear_cookie("access_token", "/");
    assert_eq!(h.to_str().unwrap(), "access_token=; HttpOnly; Secure; SameSite=Lax; Path=/; Max-Age=0");
}

#[test]
fn extract_cookie_cases() {
    let h = Some("a=1; refresh_token=xyz ;b=2");
    assert_eq!(extract_cookie(h, "refresh_token").as_deref(), Some("xyz"));
    assert_eq!(extract_cookie(h, "a").as_deref(), Some("1"));
    assert_eq!(extract_cookie(h, "b").as_deref(), Some("2"));
    assert_eq!(extract_cookie(h, "c"), None);
    assert_eq!(extract_cookie(None, "a"), None);
    assert_eq!(extract_cookie(Some("a=1; a=2"), "a").as_deref(), Some("1"));
    assert_eq!(extract_cookie(Some("ab=1; a=2"), "a").as_deref(), Some("2"));
    assert_eq!(extract_cookie(Some("a="), "a").as_deref(), Some(""));
    assert_eq!(extract_cookie(Some(""), "a"), None);
    assert_eq!(extract_cookie(Some(";;  a=v=w  ;"), "a").as_deref(), Some("v=w"));
}

#[test]
fn issued_claims_carry_user_and_times() {
    let c = Claims::issue(USER, "access", 1_000, 300);
    assert_eq!(c.sub, "67e55044-10b1-426f-9247-bb680e5fe0c8");
    assert_eq!((c.token_type.as_str(), c.iat, c.exp), ("access", 1_000, 1_300));
}

#[test]
fn claims_subject_checks_type_and_uuid() {
    let c = Claims::issue(USER, "access", 0, 1);
    assert_eq!(claims_subject(&c, "access").unwrap(), USER);
    assert!(matches!(claims_subject(&c, "refresh"), Err(AppError::Unauthorized)));
    let bad = Claims { sub: "not-a-uuid".into(), token_type: "access".into(), exp: 0, iat: 0 };
    assert!(matches!(claims_subject(&bad, "access"), Err(AppError::Unauthorized)));
    assert_eq!(Auth::from_claims(&c).unwrap().user_id, USER);
    let r = Claims::issue(USER, "refresh", 0, 1);
    assert!(matches!(Auth::from_claims(&r), Err(AppError::Unauthorized)));
}

#[test]
fn created_tokens_decode_to_their_claims() {
    let t = create_access_token(USER, "secret", 300).unwrap();
    assert_eq!(t.matches('.').count(), 2);
    let key = jsonwebtoken::DecodingKey::from_secret(b"secret");
    let data = jsonwebtoken::decode::<serde_json::Value>(&t, &key, &jsonwebtoken::Validation::default()).unwrap();
    assert_eq!(data.claims["sub"], "67e55044-10b1-426f-9247-bb680e5fe0c8");
    assert_eq!(data.claims["token_type"], "access");
    let exp = data.claims["exp"].as_u64().unwrap();
    let iat = data.claims["iat"].as_u64().unwrap();
    assert_eq!(exp - iat, 300);
    let r = create_refresh_token(USER, "secret", 604800).unwrap();
    let data = jsonwebtoken::decode::<serde_json::Value>(&r, &key, &jsonwebtoken::Validation::default()).unwrap();
    assert_eq!(data.claims["token_type"], "refresh");
    let wrong = jsonwebtoken::DecodingKey::from_secret(b"other");
    assert!(jsonwebtoken::decode::<serde_json::Value>(&t, &wrong, &jsonwebtoken::Validation::default()).is_err());
}

#[test]
fn bearer_token_prefix() {
    assert_eq!(bearer_token(Some("Bearer abc.def")).as_deref(), Some("abc.def"));
    assert_eq!(bearer_token(Some("Bearer ")).as_deref(), Some(""));
    assert_eq!(bearer_token(Some("bearer abc")), None);
    assert_eq!(bearer_token(Some("Basic abc")), None);
    assert_eq!(bearer_token(Some("Bear")), None);
    assert_eq!(bearer_token(None), None);
}

fn signed(fields: &[(&str, serde_json::Value)], secret: &[u8]) -> String {
    let mut payload = serde_json::Map::new();
    for (k, v) in fields {
        payload.insert(k.to_string(), v.clone());
    }
    let key = jsonwebtoken::EncodingKey::from_secret(secret);
    jsonwebtoken::encode(&jsonwebtoken::Header::default(), &payload, &key).unwrap()
}

fn claims_fields(sub: &str, token_type: &str, exp: u64, iat: u64) -> Vec<(&'static str, serde_json::Value)> {
    vec![
        ("sub", serde_json::Value::from(sub)),
        ("token_type", serde_json::Value::from(token_type)),
        ("exp", serde_json::Value::from(exp)),
        ("iat", serde_json::Value::from(iat)),
    ]
}

fn is_unauthorized<T>(r: &Result<T, AppError>) -> bool {
    matches!(r, Err(AppError::Unauthorized))
}

#[test]
fn validated_tokens_give_back_their_claims() {
    let t = create_access_token(USER, "secret", 300).unwrap();
    let c = validate_token(&t, "secret").unwrap();
    assert_eq!(c.sub, "67e55044-10b1-426f-9247-bb680e5fe0c8");
    assert_eq!(c.token_type, "access");
    assert_eq!(c.exp - c.iat, 300);
    assert!(is_unauthorized(&validate_token(&t, "other")));
    assert!(is_unauthorized(&validate_token("not.a.token", "secret")));
    assert!(is_unauthorized(&validate_token("", "secret")));
}

#[test]
fn token_expiry_has_a_minute_of_leeway() {
    let t = signed(&claims_fields("u", "access", 1_000_000, 999_000), b"s");
    assert!(validate_token_at(&t, "s", 1_000_060).is_ok());
    assert!(validate_token_at(&t, "s", 0).is_ok());
    assert!(is_unauthorized(&validate_token_at(&t, "s", 1_000_061)));
    let c = validate_token_at(&t, "s", 1_000_000).unwrap();
    assert_eq!((c.sub.as_str(), c.token_type.as_str(), c.exp, c.iat), ("u", "access", 1_000_000, 999_000));
    assert!(is_unauthorized(&validate_token(&t, "s")));
}

#[test]
fn tokens_with_missing_or_foreign_claims_are_refused() {
    let mut no_type = claims_fields("u", "access", 1_000_000, 1);
    no_type.remove(1);
    assert!(is_unauthorized(&validate_token_at(&signed(&no_type, b"s"), "s", 0)));
    let mut no_exp = claims_fields("u", "access", 1_000_000, 1);
    no_exp.remove(2);
    assert!(is_unauthorized(&validate_token_at(&signed(&no_exp, b"s"), "s", 0)));
    let mut with_aud = claims_fields("u", "access", 1_000_000, 1);
    with_aud.push(("aud", serde_json::Value::from("web")));
    assert!(is_unauthorized(&validate_token_at(&signed(&with_aud, b"s"), "s", 0)));
    let mut numeric_sub = claims_fields("u", "access", 1_000_000, 1);
    numeric_sub[0] = ("sub", serde_json::Value::from(5));
    assert!(is_unauthorized(&validate_token_at(&signed(&numeric_sub, b"s"), "s", 0)));
    let mut extra = claims_fields("u", "access", 1_000_000, 1);
    extra.push(("role", serde_json::Value::from("x")));
    assert!(validate_token_at(&signed(&extra, b"s"), "s", 0).is_ok());
}

#[test]
fn authenticate_accepts_only_bearer_access_tokens() {
    let access = create_access_token(USER, "secret", 300).unwrap();
    let refresh_token = create_refresh_token(USER, "secret", 300).unwrap();
    let header = format!("Bearer {access}");
    assert_eq!(Auth::authenticate(Some(&header), "secret").unwrap().user_id, USER);
    assert!(is_unauthorized(&Auth::authenticate(Some(&header), "other")));
    assert!(is_unauthorized(&Auth::authenticate(Some(&format!("Bearer {refresh_token}")), "secret")));
    assert!(is_unauthorized(&Auth::authenticate(Some(&access), "secret")));
    assert!(is_unauthorized(&Auth::authenticate(None, "secret")));
    let sub = "67e55044-10b1-426f-9247-bb680e5fe0c8";
    let old = signed(&claims_fields(sub, "access", 1_000, 900), b"secret");
    let old_header = format!("Bearer {old}");
    assert_eq!(Auth::authenticate_at(Some(&old_header), "secret", 1_060).unwrap().user_id, USER);
    assert!(is_unauthorized(&Auth::authenticate_at(Some(&old_header), "secret", 1_061)));
}

fn config() -> Config {
    Config {
        database_url: "postgres://x".to_string(),
        database_max_connections: 5,
        jwt_secret: "secret".to_string(),
        jwt_access_expiry_secs: 300,
        jwt_refresh_expiry_secs: 604800,
        server_host: "0.0.0.0".to_string(),
        server_port: 8080,
        log_level: "info".to_string(),
    }
}

#[test]
fn refresh_needs_a_refresh_token_cookie() {
    let cfg = config();
    let refresh_token = create_refresh_token(USER, "secret", 604800).unwrap();
    let access = create_access_token(USER, "secret", 300).unwrap();
    let (a, b) = refresh(&cfg, Some(&format!("theme=dark; refresh_token={refresh_token}"))).unwrap();
    assert!(a.to_str().unwrap().starts_with("access_token="));
    assert!(b.to_str().unwrap().ends_with("Path=/api/auth/refresh; Max-Age=604800"));
    let new_access = a.to_str().unwrap().split(';').next().unwrap().trim_start_matches("access_token=").to_string();
    assert_eq!(validate_token(&new_access, "secret").unwrap().sub, "67e55044-10b1-426f-9247-bb680e5fe0c8");
    assert!(is_unauthorized(&refresh(&cfg, Some(&format!("refresh_token={access}")))));
    assert!(is_unauthorized(&refresh(&cfg, Some("theme=dark"))));
    assert!(is_unauthorized(&refresh(&cfg, None)));
    let sub = "67e55044-10b1-426f-9247-bb680e5fe0c8";
    let old = signed(&claims_fields(sub, "refresh", 1_000, 900), b"secret");
    let cookie = format!("refresh_token={old}");
    assert!(refresh_at(&cfg, Some(&cookie), 1_060).is_ok());
    assert!(is_unauthorized(&refresh_at(&cfg, Some(&cookie), 1_061)));
}
