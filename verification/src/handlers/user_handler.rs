//! The caller's own profile: get and update.
use vstd::prelude::*;
use crate::clock::now_micros;
use crate::errors::AppError;
use crate::handlers::{rejects_not_found, user_not_found, Found, Lookup, Step};
use crate::models::user::{user_errors, user_input_errors, User, UserInput, UserResponse};
use crate::models::{patched_text, PatchField};

verus! {

/// `GET /api/users/me`: asks for the caller's user row.
pub fn get_me(user_id: u128) -> (r: Step<(), UserResponse>)
    ensures
        r == Step::<(), UserResponse>::Ask((), Lookup::UserById(user_id)),
{
    Step::Ask((), Lookup::UserById(user_id))
}

/// `GET /api/users/me`: the caller's profile, without the password hash.
pub fn get_me_step(found: Found) -> (r: Step<(), UserResponse>)
    requires
        found is User,
    ensures
        match found {
            Found::User(None) => rejects_not_found(r, "User not found."@),
            Found::User(Some(u)) => r == Step::<(), UserResponse>::Perform(UserResponse::of(u)),
            _ => false,
        },
{
    match found {
        Found::User(Some(u)) => Step::Perform(UserResponse::from(u)),
        _ => Step::Reject(user_not_found()),
    }
}

/// State of `PATCH /api/users/me`.
#[derive(Debug)]
pub enum UpdateMeState {
    AwaitUser(UserInput),
    AwaitHash(User),
}

/// `PATCH /api/users/me`: the user row to store.
#[derive(Debug)]
pub struct UpdateMe {
    pub user: User,
}

/// `PATCH /api/users/me`: checks the request, then asks for the caller's user row.
pub fn update_me(user_id: u128, input: UserInput) -> (r: Step<UpdateMeState, UpdateMe>)
    ensures
        user_input_errors(input) != Map::<Seq<char>, Seq<Seq<char>>>::empty() ==> (r matches Step::Reject(
            AppError::Validation(e),
        ) && e@ == user_input_errors(input)),
        user_input_errors(input) == Map::<Seq<char>, Seq<Seq<char>>>::empty() ==> r == Step::<UpdateMeState, UpdateMe>::Ask(
            UpdateMeState::AwaitUser(input),
            Lookup::UserById(user_id),
        ),
{
    match input.validate() {
        Err(e) => Step::Reject(AppError::Validation(e)),
        Ok(()) => Step::Ask(UpdateMeState::AwaitUser(input), Lookup::UserById(user_id)),
    }
}

/// Checks the updated row and stamps it with `now`.
fn finish_update_me(user: User, now: i64) -> (r: Step<UpdateMeState, UpdateMe>)
    ensures
        user_errors(user.email@, user.display_name@) != Map::<Seq<char>, Seq<Seq<char>>>::empty() ==> (r matches Step::Reject(
            AppError::Validation(e),
        ) && e@ == user_errors(user.email@, user.display_name@)),
        user_errors(user.email@, user.display_name@) == Map::<Seq<char>, Seq<Seq<char>>>::empty() ==> (r matches Step::Perform(
            u,
        ) && u.user == User { updated_at: now, ..user }),
{
    match user.validate() {
        Err(e) => Step::Reject(AppError::Validation(e)),
        Ok(()) => {
            let mut user = user;
            user.updated_at = now;
            Step::Perform(UpdateMe { user })
        },
    }
}

/// `PATCH /api/users/me` at time `now` (microseconds): applies the display
/// name, asks for the hash of a new password when one is given, checks the
/// row and stamps it with `now`.
pub fn update_me_step_at(state: UpdateMeState, found: Found, now: i64) -> (r: Step<UpdateMeState, UpdateMe>)
    requires
        state is AwaitUser ==> found is User,
        state is AwaitHash ==> found is PasswordHash,
    ensures
        match (state, found) {
            (UpdateMeState::AwaitUser(_), Found::User(None)) => rejects_not_found(r, "User not found."@),
            (UpdateMeState::AwaitUser(input), Found::User(Some(u))) => match input.new_password {
                PatchField::Value(pw) => r matches Step::Ask(UpdateMeState::AwaitHash(n), q) && q == Lookup::HashPassword(pw)
                    && n.id == u.id && n.email == u.email && n.password_hash == u.password_hash
                    && n.display_name@ == patched_text(u.display_name@, input.display_name)
                    && n.created_at == u.created_at && n.updated_at == u.updated_at,
                PatchField::Absent => {
                    let name = patched_text(u.display_name@, input.display_name);
                    &&& (user_errors(u.email@, name) != Map::<Seq<char>, Seq<Seq<char>>>::empty() ==> (r matches Step::Reject(
                        AppError::Validation(e),
                    ) && e@ == user_errors(u.email@, name)))
                    &&& (user_errors(u.email@, name) == Map::<Seq<char>, Seq<Seq<char>>>::empty() ==> (r matches Step::Perform(
                        m,
                    ) && m.user.id == u.id && m.user.email == u.email && m.user.password_hash == u.password_hash
                        && m.user.display_name@ == name && m.user.created_at == u.created_at && m.user.updated_at == now))
                },
            },
            (UpdateMeState::AwaitHash(n), Found::PasswordHash(h)) => {
                &&& (user_errors(n.email@, n.display_name@) != Map::<Seq<char>, Seq<Seq<char>>>::empty() ==> (r matches Step::Reject(
                    AppError::Validation(e),
                ) && e@ == user_errors(n.email@, n.display_name@)))
                &&& (user_errors(n.email@, n.display_name@) == Map::<Seq<char>, Seq<Seq<char>>>::empty() ==> (r matches Step::Perform(
                    m,
                ) && m.user == User { password_hash: h, updated_at: now, ..n }))
            },
            _ => false,
        },
{
    match state {
        UpdateMeState::AwaitUser(input) => match found {
            Found::User(Some(u)) => {
                let user = u.apply(&input);
                match input.new_password {
                    PatchField::Value(pw) => Step::Ask(UpdateMeState::AwaitHash(user), Lookup::HashPassword(pw)),
                    PatchField::Absent => finish_update_me(user, now),
                }
            },
            _ => Step::Reject(user_not_found()),
        },
        UpdateMeState::AwaitHash(user) => {
            let mut user = user;
            if let Found::PasswordHash(h) = found {
                user.password_hash = h;
            }
            finish_update_me(user, now)
        },
    }
}


/// `PATCH /api/users/me`: applies the display name, asks for the hash of a
/// new password when one is given, checks the row and stores it.
pub fn update_me_step(state: UpdateMeState, found: Found) -> (r: Step<UpdateMeState, UpdateMe>)
    requires
        state is AwaitUser ==> found is User,
        state is AwaitHash ==> found is PasswordHash,
    ensures
        match (state, found) {
            (UpdateMeState::AwaitUser(_), Found::User(None)) => rejects_not_found(r, "User not found."@),
            (UpdateMeState::AwaitUser(input), Found::User(Some(u))) => match input.new_password {
                PatchField::Value(pw) => r matches Step::Ask(UpdateMeState::AwaitHash(n), q) && q == Lookup::HashPassword(pw)
                    && n.id == u.id && n.email == u.email && n.password_hash == u.password_hash
                    && n.display_name@ == patched_text(u.display_name@, input.display_name)
                    && n.created_at == u.created_at && n.updated_at == u.updated_at,
                PatchField::Absent => {
                    let name = patched_text(u.display_name@, input.display_name);
                    &&& (user_errors(u.email@, name) != Map::<Seq<char>, Seq<Seq<char>>>::empty() ==> (r matches Step::Reject(
                        AppError::Validation(e),
                    ) && e@ == user_errors(u.email@, name)))
                    &&& (user_errors(u.email@, name) == Map::<Seq<char>, Seq<Seq<char>>>::empty() ==> (r matches Step::Perform(
                        m,
                    ) && m.user.id == u.id && m.user.email == u.email && m.user.password_hash == u.password_hash
                        && m.user.display_name@ == name && m.user.created_at == u.created_at))
                },
            },
            (UpdateMeState::AwaitHash(n), Found::PasswordHash(h)) => {
                &&& (user_errors(n.email@, n.display_name@) != Map::<Seq<char>, Seq<Seq<char>>>::empty() ==> (r matches Step::Reject(
                    AppError::Validation(e),
                ) && e@ == user_errors(n.email@, n.display_name@)))
                &&& (user_errors(n.email@, n.display_name@) == Map::<Seq<char>, Seq<Seq<char>>>::empty() ==> (r matches Step::Perform(
                    m,
                ) && m.user == User { password_hash: h, updated_at: m.user.updated_at, ..n }))
            },
            _ => false,
        },
{
    let now = now_micros();
    update_me_step_at(state, found, now)
}

} // verus!
