//! Users, their public view, and the auth and profile request bodies.
use vstd::prelude::*;
use crate::models::{patched_text, PatchField};
use crate::models::project::patch_subject;
use crate::validation::rules::{
    email, email_outcome, max_len, max_len_outcome, not_empty, not_empty_outcome,
    password_strength, password_strength_outcome,
};
use crate::validation::{checked, matches_errors, record_outcome, ErrorMap, ValidationErrors, Validator};

verus! {

/// A user row. `password_hash` never appears in a response (see `UserResponse`).
#[derive(Debug)]
pub struct User {
    pub id: u128,
    pub email: String,
    pub password_hash: String,
    pub display_name: String,
    pub created_at: i64,
    pub updated_at: i64,
}

/// Safe view of a user: everything except the password hash.
#[derive(Debug)]
pub struct UserResponse {
    pub id: u128,
    pub email: String,
    pub display_name: String,
    pub created_at: i64,
    pub updated_at: i64,
}

/// Request body for `POST /api/auth/register`.
#[derive(Debug, Default)]
pub struct RegisterRequest {
    pub email: String,
    pub password: String,
    pub display_name: String,
}

/// Request body for `POST /api/auth/login`.
#[derive(Debug, Default)]
pub struct LoginRequest {
    pub email: String,
    pub password: String,
}

/// Request body for `PATCH /api/users/me`; only present fields are updated.
#[derive(Debug, Default)]
pub struct UserInput {
    pub display_name: PatchField<String>,
    pub new_password: PatchField<String>,
}

/// Errors of the user row checks: email and display name.
pub open spec fn user_errors(email: Seq<char>, display_name: Seq<char>) -> ErrorMap {
    let m1 = record_outcome(Map::empty(), "email"@, email_outcome(email));
    record_outcome(m1, "display_name"@, max_len_outcome(100, display_name))
}

/// Errors of a registration request.
pub open spec fn register_errors(r: RegisterRequest) -> ErrorMap {
    let m1 = record_outcome(Map::empty(), "email"@, email_outcome(r.email@));
    let m2 = record_outcome(m1, "display_name"@, max_len_outcome(100, r.display_name@));
    record_outcome(m2, "password"@, password_strength_outcome(r.password@))
}

/// Errors of a login request.
pub open spec fn login_errors(r: LoginRequest) -> ErrorMap {
    let m1 = record_outcome(Map::empty(), "email"@, not_empty_outcome(r.email@));
    record_outcome(m1, "password"@, not_empty_outcome(r.password@))
}

/// Errors of a profile update, on the present fields only.
pub open spec fn user_input_errors(r: UserInput) -> ErrorMap {
    let m1 = checked(Map::empty(), "display_name"@, patch_subject(r.display_name), |s: Seq<char>| max_len_outcome(100, s));
    checked(m1, "new_password"@, patch_subject(r.new_password), |s: Seq<char>| password_strength_outcome(s))
}

impl User {
    /// Copies the display name from `input` when it is present.
    pub fn apply(self, input: &UserInput) -> (r: Self)
        ensures
            r.id == self.id,
            r.email == self.email,
            r.password_hash == self.password_hash,
            r.display_name@ == patched_text(self.display_name@, input.display_name),
            r.created_at == self.created_at,
            r.updated_at == self.updated_at,
    {
        let mut user = self;
        if let PatchField::Value(v) = &input.display_name {
            user.display_name = v.clone();
        }
        user
    }

    /// Checks the email address and the display name.
    pub fn validate(&self) -> (r: Result<(), ValidationErrors>)
        ensures
            matches_errors(r, user_errors(self.email@, self.display_name@)),
    {
        let mut v = Validator::new();
        v.field("email", &self.email).check(email);
        v.field("display_name", &self.display_name).check(max_len(100));
        v.finish()
    }
}

impl UserResponse {
    /// The public view of `u`.
    pub open spec fn of(u: User) -> UserResponse {
        UserResponse {
            id: u.id,
            email: u.email,
            display_name: u.display_name,
            created_at: u.created_at,
            updated_at: u.updated_at,
        }
    }
}

impl From<User> for UserResponse {
    fn from(u: User) -> (r: Self) {
        UserResponse {
            id: u.id,
            email: u.email,
            display_name: u.display_name,
            created_at: u.created_at,
            updated_at: u.updated_at,
        }
    }
}

impl vstd::std_specs::convert::FromSpecImpl<User> for UserResponse {
    open spec fn obeys_from_spec() -> bool {
        true
    }

    open spec fn from_spec(u: User) -> UserResponse {
        UserResponse::of(u)
    }
}

impl RegisterRequest {
    pub fn validate(&self) -> (r: Result<(), ValidationErrors>)
        ensures
            matches_errors(r, register_errors(*self)),
    {
        let mut v = Validator::new();
        v.field("email", &self.email).check(email);
        v.field("display_name", &self.display_name).check(max_len(100));
        v.field("password", &self.password).check(password_strength);
        v.finish()
    }
}

impl LoginRequest {
    pub fn validate(&self) -> (r: Result<(), ValidationErrors>)
        ensures
            matches_errors(r, login_errors(*self)),
    {
        let mut v = Validator::new();
        v.field("email", &self.email).check(not_empty);
        v.field("password", &self.password).check(not_empty);
        v.finish()
    }
}

impl UserInput {
    pub fn validate(&self) -> (r: Result<(), ValidationErrors>)
        ensures
            matches_errors(r, user_input_errors(*self)),
    {
        let mut v = Validator::new();
        v.field("display_name", &self.display_name).check(max_len(100));
        v.field("new_password", &self.new_password).check(password_strength);
        v.finish()
    }
}

} // verus!
