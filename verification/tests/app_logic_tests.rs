use issue_tracker_api::config::{parse_i64, parse_u16, parse_u32, Config, EnvVars};
use issue_tracker_api::errors::{AppError, DbError, ErrorData};
use issue_tracker_api::handlers::health_handler::{get_liveness, get_readiness};
use issue_tracker_api::routes::{is_allowed_origin, needs_json_error, plain_error_response};
use issue_tracker_api::validation::ValidationErrors;

#[test]
fn integer_parsing_follows_std() {
    for s in ["0", "+7", "65535", "0065535", "", "+", "-1", "65536", "1 ", " 1", "1_0", "１"] {
        assert_eq!(parse_u16(s), s.parse::<u16>().ok(), "u16 {s:?}");
    }
    for s in ["4294967295", "4294967296", "+42", "-0", "abc"] {
        assert_eq!(parse_u32(s), s.parse::<u32>().ok(), "u32 {s:?}");
    }
    for s in ["-9223372036854775808", "-9223372036854775809", "9223372036854775807", "9223372036854775808", "-", "-+1", "+-1", "-0", "300"] {
        assert_eq!(parse_i64(s), s.parse::<i64>().ok(), "i64 {s:?}");
    }
}

#[test]
fn config_defaults_and_overrides() {
    let env = EnvVars {
        database_url: Some("postgres://db".into()),
        jwt_secret: Some("s3cret".into()),
        ..EnvVars::default()
    };
    let c = Config::from_env(env);
    assert_eq!(c.database_url, "postgres://db");
    assert_eq!(c.jwt_secret, "s3cret");
    assert_eq!(c.database_max_connections, 20);
    assert_eq!(c.jwt_access_expiry_secs, 300);
    assert_eq!(c.jwt_refresh_expiry_secs, 604_800);
    assert_eq!(c.server_host, "0.0.0.0");
    assert_eq!(c.server_port, 8080);
    assert_eq!(c.log_level, "info");
    let env = EnvVars {
        database_url: Some("u".into()),
        jwt_secret: Some("k".into()),
        database_max_connections: Some("5".into()),
        jwt_access_expiry_secs: Some("-60".into()),
        jwt_refresh_expiry_secs: Some("soon".into()),
        server_host: Some("127.0.0.1".into()),
        server_port: Some("70000".into()),
        log_level: Some("debug".into()),
    };
    let c = Config::from_env(env);
    assert_eq!((c.database_max_connections, c.jwt_access_expiry_secs, c.jwt_refresh_expiry_secs), (5, -60, 604_800));
    assert_eq!((c.server_host.as_str(), c.server_port, c.log_level.as_str()), ("127.0.0.1", 8080, "debug"));
}

#[test]
fn error_responses() {
    let (s, r) = AppError::BadRequest("bad uuid".into()).into_response();
    assert_eq!((s, r.message.as_str()), (400, "Invalid request parameters."));
    assert!(matches!(r.data, Some(ErrorData::Detail(d)) if d == "bad uuid"));
    let mut e = ValidationErrors::new();
    e.push("name", "Cannot be empty".into());
    let (s, r) = AppError::from(e).into_response();
    assert_eq!((s, r.message.as_str()), (400, "Missing or invalid fields. Please check your input and try again."));
    assert!(matches!(r.data, Some(ErrorData::Fields(f)) if f.get("name").is_some()));
    let (s, r) = AppError::Unauthorized.into_response();
    assert_eq!((s, r.message.as_str()), (401, "Invalid credentials. Please log in again."));
    assert!(r.data.is_none());
    let (s, r) = AppError::Forbidden.into_response();
    assert_eq!((s, r.message.as_str()), (403, "Access denied."));
    let (s, r) = AppError::NotFound("Project not found.".into()).into_response();
    assert_eq!((s, r.message.as_str()), (404, "Project not found."));
    let (s, r) = AppError::Conflict("taken".into()).into_response();
    assert_eq!((s, r.message.as_str()), (409, "taken"));
    let (s, r) = AppError::Internal("db password leaked".into()).into_response();
    assert_eq!((s, r.message.as_str()), (500, "An unexpected error occurred. Please try again later."));
    assert!(r.data.is_none());
}

#[test]
fn database_errors_map_to_app_errors() {
    assert!(matches!(AppError::from_db(DbError::RowNotFound), AppError::NotFound(m) if m == "Resource not found."));
    assert!(matches!(AppError::from_db(DbError::Database("dup".into())), AppError::Internal(m) if m == "dup"));
    assert!(matches!(AppError::from_db(DbError::Other("io".into())), AppError::Internal(m) if m == "io"));
}

#[test]
fn cors_origins() {
    assert!(is_allowed_origin(b"http://localhost"));
    assert!(is_allowed_origin(b"http://localhost:5173"));
    assert!(is_allowed_origin(b"http://127.0.0.1"));
    assert!(is_allowed_origin(b"http://127.0.0.1:8080"));
    assert!(!is_allowed_origin(b"http://localhost.evil.com"));
    assert!(!is_allowed_origin(b"https://localhost"));
    assert!(!is_allowed_origin(b"http://127.0.0.1.evil"));
    assert!(!is_allowed_origin(b""));
}

#[test]
fn plain_text_client_errors_are_rewrapped() {
    assert!(needs_json_error(400, Some("text/plain; charset=utf-8")));
    assert!(needs_json_error(422, Some("text/plain")));
    assert!(!needs_json_error(400, Some("application/json")));
    assert!(!needs_json_error(500, Some("text/plain")));
    assert!(!needs_json_error(399, Some("text/plain")));
    assert!(!needs_json_error(404, None));
    let (s, r) = plain_error_response(422, Some("Failed to parse".into()));
    assert_eq!(s, 422);
    let r = r.unwrap();
    assert_eq!(r.message, "Invalid request parameters.");
    assert!(matches!(r.data, Some(ErrorData::Detail(d)) if d == "Failed to parse"));
    assert!(matches!(plain_error_response(400, None), (500, None)));
}

#[test]
fn health_probes() {
    assert_eq!(get_liveness(), 200);
    let (s, r) = get_readiness(true);
    assert_eq!((s, r.server, r.database), (200, "OK", "OK"));
    let (s, r) = get_readiness(false);
    assert_eq!((s, r.server, r.database), (503, "OK", "error"));
}
