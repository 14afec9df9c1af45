//! Auth handlers: register, login, refresh and logout, and the token cookies.
use vstd::prelude::*;
use axum::http::HeaderValue;
use crate::auth::cookie::{
    build_cookie, clear_cookie, clear_cookie_spec, cookie_lookup, extract_cookie, header_char_ok, header_text_ok,
    header_value_of, opt_view, set_cookie_spec,
};
use crate::auth::jwt::{
    claims_subject, create_access_token, create_refresh_token, is_token_text, subject_spec, token_for,
    token_subject, token_subject_at, validate_token_at, Claims,
};
use crate::clock::now_unix_secs;
use crate::config::Config;
use crate::errors::AppError;
use crate::handlers::{rejects_conflict, rejects_unauthorized, Found, Lookup, Step};
use crate::models::user::{login_errors, register_errors, LoginRequest, RegisterRequest};

verus! {

/// The access and refresh cookies of a signed-in user.
pub open spec fn auth_cookies_for(config: Config, user_id: u128, access: HeaderValue, refresh: HeaderValue) -> bool {
    &&& exists|t: Seq<char>| #[trigger] token_for(t, user_id, "access"@, config.jwt_secret@, config.jwt_access_expiry_secs)
        && access == header_value_of(set_cookie_spec("access_token"@, t, config.jwt_access_expiry_secs as int, "/"@))
    &&& exists|t: Seq<char>| #[trigger] token_for(t, user_id, "refresh"@, config.jwt_secret@, config.jwt_refresh_expiry_secs)
        && refresh == header_value_of(
        set_cookie_spec("refresh_token"@, t, config.jwt_refresh_expiry_secs as int, "/api/auth/refresh"@),
    )
}

proof fn lemma_token_text_ok(t: Seq<char>)
    requires
        is_token_text(t),
    ensures
        header_text_ok(t),
{
    assert forall|i: int| 0 <= i < t.len() implies header_char_ok(#[trigger] t[i]) by {
        assert(crate::auth::jwt::is_token_char(t[i]));
    }
}

proof fn lemma_literal_ok_access()
    ensures
        header_text_ok("access_token"@),
        header_text_ok("refresh_token"@),
        header_text_ok("/"@),
        header_text_ok("/api/auth/refresh"@),
{
    reveal_strlit("access_token");
    reveal_strlit("refresh_token");
    reveal_strlit("/");
    reveal_strlit("/api/auth/refresh");
}

/// A fresh access and refresh token for `user_id`, each in an HttpOnly cookie:
/// the access token on path `/`, the refresh token only on `/api/auth/refresh`.
pub fn build_cookie_headers(config: &Config, user_id: u128) -> (r: Result<(HeaderValue, HeaderValue), AppError>)
    ensures
        r matches Ok((a, b)) && auth_cookies_for(*config, user_id, a, b),
{
    let access_token = match create_access_token(user_id, config.jwt_secret.as_str(), config.jwt_access_expiry_secs) {
        Ok(t) => t,
        Err(e) => return Err(e),
    };
    let refresh_token = match create_refresh_token(user_id, config.jwt_secret.as_str(), config.jwt_refresh_expiry_secs) {
        Ok(t) => t,
        Err(e) => return Err(e),
    };
    proof {
        lemma_token_text_ok(access_token@);
        lemma_token_text_ok(refresh_token@);
        lemma_literal_ok_access();
    }
    let access = build_cookie("access_token", access_token.as_str(), config.jwt_access_expiry_secs, "/");
    let refresh = build_cookie(
        "refresh_token",
        refresh_token.as_str(),
        config.jwt_refresh_expiry_secs,
        "/api/auth/refresh",
    );
    assert(token_for(access_token@, user_id, "access"@, config.jwt_secret@, config.jwt_access_expiry_secs));
    assert(token_for(refresh_token@, user_id, "refresh"@, config.jwt_secret@, config.jwt_refresh_expiry_secs));
    Ok((access, refresh))
}

/// `POST /auth/logout`: cookies that expire the access and refresh tokens
/// (each on the path it was set on).
pub fn logout() -> (r: (HeaderValue, HeaderValue))
    ensures
        r.0 == header_value_of(clear_cookie_spec("access_token"@, "/"@)),
        r.1 == header_value_of(clear_cookie_spec("refresh_token"@, "/api/auth/refresh"@)),
{
    proof { lemma_literal_ok_access(); }
    (clear_cookie("access_token", "/"), clear_cookie("refresh_token", "/api/auth/refresh"))
}

/// State of `POST /auth/register`.
#[derive(Debug)]
pub enum RegisterState {
    AwaitEmailCheck(RegisterRequest),
    AwaitHash(RegisterRequest),
}

/// `POST /auth/register`: the user to create (then signed in).
#[derive(Debug)]
pub struct Register {
    pub email: String,
    pub password_hash: String,
    pub display_name: String,
}

/// `POST /auth/register`: checks the request, then asks whether the email is taken.
pub fn register(input: RegisterRequest) -> (r: Step<RegisterState, Register>)
    ensures
        register_errors(input) != Map::<Seq<char>, Seq<Seq<char>>>::empty() ==> (r matches Step::Reject(
            AppError::Validation(e),
        ) && e@ == register_errors(input)),
        register_errors(input) == Map::<Seq<char>, Seq<Seq<char>>>::empty() ==> r == Step::<RegisterState, Register>::Ask(
            RegisterState::AwaitEmailCheck(input),
            Lookup::EmailExists(input.email),
        ),
{
    match input.validate() {
        Err(e) => Step::Reject(AppError::Validation(e)),
        Ok(()) => {
            let email = input.email.clone();
            Step::Ask(RegisterState::AwaitEmailCheck(input), Lookup::EmailExists(email))
        },
    }
}

/// `POST /auth/register`: a taken email is a conflict; otherwise the password
/// is hashed and the user created.
pub fn register_step(state: RegisterState, found: Found) -> (r: Step<RegisterState, Register>)
    requires
        state is AwaitEmailCheck ==> found is Exists,
        state is AwaitHash ==> found is PasswordHash,
    ensures
        match (state, found) {
            (RegisterState::AwaitEmailCheck(_), Found::Exists(true)) => rejects_conflict(r, "A user with that email already exists."@),
            (RegisterState::AwaitEmailCheck(input), Found::Exists(false)) => r == Step::<RegisterState, Register>::Ask(
                RegisterState::AwaitHash(input),
                Lookup::HashPassword(input.password),
            ),
            (RegisterState::AwaitHash(input), Found::PasswordHash(h)) => r == Step::<RegisterState, Register>::Perform(
                Register { email: input.email, password_hash: h, display_name: input.display_name },
            ),
            _ => false,
        },
{
    match state {
        RegisterState::AwaitEmailCheck(input) => match found {
            Found::Exists(false) => {
                let pw = input.password.clone();
                Step::Ask(RegisterState::AwaitHash(input), Lookup::HashPassword(pw))
            },
            _ => Step::Reject(AppError::Conflict("A user with that email already exists.".to_string())),
        },
        RegisterState::AwaitHash(input) => {
            let h = match found {
                Found::PasswordHash(h) => h,
                _ => String::new(),
            };
            Step::Perform(Register { email: input.email, password_hash: h, display_name: input.display_name })
        },
    }
}

/// State of `POST /auth/login`.
#[derive(Debug)]
pub enum LoginState {
    AwaitUser(LoginRequest),
    AwaitVerify(u128),
}

/// `POST /auth/login`: the user who signed in.
#[derive(Debug, PartialEq, Eq, Structural)]
pub struct LoggedIn {
    pub user_id: u128,
}

/// `POST /auth/login`: checks the request, then asks for the user by email.
pub fn login(input: LoginRequest) -> (r: Step<LoginState, LoggedIn>)
    ensures
        login_errors(input) != Map::<Seq<char>, Seq<Seq<char>>>::empty() ==> (r matches Step::Reject(
            AppError::Validation(e),
        ) && e@ == login_errors(input)),
        login_errors(input) == Map::<Seq<char>, Seq<Seq<char>>>::empty() ==> r == Step::<LoginState, LoggedIn>::Ask(
            LoginState::AwaitUser(input),
            Lookup::UserByEmail(input.email),
        ),
{
    match input.validate() {
        Err(e) => Step::Reject(AppError::Validation(e)),
        Ok(()) => {
            let email = input.email.clone();
            Step::Ask(LoginState::AwaitUser(input), Lookup::UserByEmail(email))
        },
    }
}

/// `POST /auth/login`: an unknown email and a wrong password are both
/// `Unauthorized`, so that neither reveals which accounts exist.
pub fn login_step(state: LoginState, found: Found) -> (r: Step<LoginState, LoggedIn>)
    requires
        state is AwaitUser ==> found is User,
        state is AwaitVerify ==> found is PasswordMatches,
    ensures
        match (state, found) {
            (LoginState::AwaitUser(_), Found::User(None)) => rejects_unauthorized(r),
            (LoginState::AwaitUser(input), Found::User(Some(u))) => r == Step::<LoginState, LoggedIn>::Ask(
                LoginState::AwaitVerify(u.id),
                Lookup::VerifyPassword { password: input.password, hash: u.password_hash },
            ),
            (LoginState::AwaitVerify(_), Found::PasswordMatches(false)) => rejects_unauthorized(r),
            (LoginState::AwaitVerify(id), Found::PasswordMatches(true)) => r == Step::<LoginState, LoggedIn>::Perform(
                LoggedIn { user_id: id },
            ),
            _ => false,
        },
{
    match state {
        LoginState::AwaitUser(input) => match found {
            Found::User(Some(u)) => Step::Ask(
                LoginState::AwaitVerify(u.id),
                Lookup::VerifyPassword { password: input.password, hash: u.password_hash },
            ),
            _ => Step::Reject(AppError::Unauthorized),
        },
        LoginState::AwaitVerify(id) => match found {
            Found::PasswordMatches(true) => Step::Perform(LoggedIn { user_id: id }),
            _ => Step::Reject(AppError::Unauthorized),
        },
    }
}

/// `POST /auth/refresh`: the refresh token from the `refresh_token` cookie,
/// `Unauthorized` when there is none.
pub fn refresh_token_from(cookie_header: Option<&str>) -> (r: Result<String, AppError>)
    ensures
        match (match cookie_header {
            Some(h) => cookie_lookup(h@, "refresh_token"@),
            None => None,
        }) {
            Some(t) => r matches Ok(s) && s@ == t,
            None => r is Err && r->Err_0 is Unauthorized,
        },
{
    match extract_cookie(cookie_header, "refresh_token") {
        Some(t) => Ok(t),
        None => Err(AppError::Unauthorized),
    }
}

/// `POST /auth/refresh`: the user a validated refresh token speaks for;
/// access tokens and non-UUID subjects are `Unauthorized`.
pub fn refresh_subject(claims: &Claims) -> (r: Result<u128, AppError>)
    ensures
        match subject_spec(claims.sub@, claims.token_type@, "refresh"@) {
            Some(u) => r == Ok::<u128, AppError>(u),
            None => r is Err && r->Err_0 is Unauthorized,
        },
{
    claims_subject(claims, "refresh")
}

/// The refresh token named in a `Cookie` header, if any.
pub open spec fn refresh_cookie(cookie_header: Option<&str>) -> Option<Seq<char>> {
    match cookie_header {
        Some(h) => cookie_lookup(h@, "refresh_token"@),
        None => None,
    }
}

/// `POST /auth/refresh` at time `now`: a valid, unexpired refresh token in
/// the `refresh_token` cookie gets its user a fresh pair of token cookies;
/// anything else is `Unauthorized`.
pub fn refresh_at(config: &Config, cookie_header: Option<&str>, now: u64) -> (r: Result<(HeaderValue, HeaderValue), AppError>)
    ensures
        match refresh_cookie(cookie_header) {
            Some(t) => match token_subject_at(t, config.jwt_secret@, "refresh"@, now) {
                Some(u) => r matches Ok((a, b)) && auth_cookies_for(*config, u, a, b),
                None => r matches Err(e) && e is Unauthorized,
            },
            None => r matches Err(e) && e is Unauthorized,
        },
{
    let token = match refresh_token_from(cookie_header) {
        Ok(t) => t,
        Err(e) => return Err(e),
    };
    let claims = match validate_token_at(token.as_str(), config.jwt_secret.as_str(), now) {
        Ok(c) => c,
        Err(e) => return Err(e),
    };
    let user_id = match refresh_subject(&claims) {
        Ok(u) => u,
        Err(e) => return Err(e),
    };
    build_cookie_headers(config, user_id)
}

/// `POST /auth/refresh` against the current time: the new cookies are for
/// the subject of the refresh token in the `refresh_token` cookie; every
/// refusal is `Unauthorized`.
pub fn refresh(config: &Config, cookie_header: Option<&str>) -> (r: Result<(HeaderValue, HeaderValue), AppError>)
    ensures
        r matches Ok((a, b)) ==> refresh_cookie(cookie_header) matches Some(t) && token_subject(
            t,
            config.jwt_secret@,
            "refresh"@,
        ) matches Some(u) && auth_cookies_for(*config, u, a, b),
        r matches Err(e) ==> e is Unauthorized,
{
    let now = now_unix_secs();
    refresh_at(config, cookie_header, now)
}

} // verus!
