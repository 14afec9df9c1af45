//! The decisions of the request handlers, as state machines: each handler
//! starts with a first step, and every answer of the database moves it to its
//! next step, until it rejects the request or names the effect to perform.
//! The database calls themselves, and the replies built from an effect's
//! result, run outside this crate.
use vstd::prelude::*;
use crate::errors::AppError;
use crate::models::comment::Comment;
use crate::models::issue::Issue;
use crate::models::project::{MemberRole, Project};
use crate::models::user::User;

pub mod auth_handler;
pub mod comment_handler;
pub mod health_handler;
pub mod issue_handler;
pub mod project_handler;
pub mod user_handler;

verus! {

/// A read the handler needs before it can decide.
#[derive(Debug)]
pub enum Lookup {
    ProjectById(u128),
    MemberRole { project_id: u128, user_id: u128 },
    IssueById(u128),
    CommentById(u128),
    UserById(u128),
    UserByEmail(String),
    EmailExists(String),
    IdentifierExists(String),
    /// The hash to store for a new password.
    HashPassword(String),
    /// Whether a password matches a stored hash.
    VerifyPassword { password: String, hash: String },
}

/// The answer to a `Lookup`.
#[derive(Debug)]
pub enum Found {
    Project(Option<Project>),
    MemberRole(Option<MemberRole>),
    Issue(Option<Issue>),
    Comment(Option<Comment>),
    User(Option<User>),
    Exists(bool),
    PasswordHash(String),
    PasswordMatches(bool),
}

/// The next step of a handler: ask a lookup (and wait in a state), perform
/// an effect, or reject the request.
#[derive(Debug)]
pub enum Step<S, E> {
    Ask(S, Lookup),
    Perform(E),
    Reject(AppError),
}

/// `found` is the kind of answer `lookup` gets, and a row found by id has that id.
pub open spec fn answers(lookup: Lookup, found: Found) -> bool {
    match lookup {
        Lookup::ProjectById(id) => found matches Found::Project(p) && (p matches Some(row) ==> row.id == id),
        Lookup::MemberRole { .. } => found is MemberRole,
        Lookup::IssueById(id) => found matches Found::Issue(i) && (i matches Some(row) ==> row.id == id),
        Lookup::CommentById(id) => found matches Found::Comment(c) && (c matches Some(row) ==> row.id == id),
        Lookup::UserById(id) => found matches Found::User(u) && (u matches Some(row) ==> row.id == id),
        Lookup::UserByEmail(_) => found is User,
        Lookup::EmailExists(_) => found is Exists,
        Lookup::IdentifierExists(_) => found is Exists,
        Lookup::HashPassword(_) => found is PasswordHash,
        Lookup::VerifyPassword { .. } => found is PasswordMatches,
    }
}

/// `r` rejects with `NotFound` and the message `msg`.
pub open spec fn rejects_not_found<S, E>(r: Step<S, E>, msg: Seq<char>) -> bool {
    r matches Step::Reject(AppError::NotFound(m)) && m@ == msg
}

/// `r` rejects with `Forbidden`.
pub open spec fn rejects_forbidden<S, E>(r: Step<S, E>) -> bool {
    r matches Step::Reject(e) && e is Forbidden
}

/// `r` rejects with `Conflict` and the message `msg`.
pub open spec fn rejects_conflict<S, E>(r: Step<S, E>, msg: Seq<char>) -> bool {
    r matches Step::Reject(AppError::Conflict(m)) && m@ == msg
}

/// `r` rejects with `Unauthorized`.
pub open spec fn rejects_unauthorized<S, E>(r: Step<S, E>) -> bool {
    r matches Step::Reject(e) && e is Unauthorized
}

/// `NotFound("Project not found.")`.
pub fn project_not_found() -> (e: AppError)
    ensures
        e matches AppError::NotFound(m) && m@ == "Project not found."@,
{
    AppError::NotFound("Project not found.".to_string())
}

/// `NotFound("Issue not found.")`.
pub fn issue_not_found() -> (e: AppError)
    ensures
        e matches AppError::NotFound(m) && m@ == "Issue not found."@,
{
    AppError::NotFound("Issue not found.".to_string())
}

/// `NotFound("User not found.")`.
pub fn user_not_found() -> (e: AppError)
    ensures
        e matches AppError::NotFound(m) && m@ == "User not found."@,
{
    AppError::NotFound("User not found.".to_string())
}

} // verus!
