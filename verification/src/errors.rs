//! The application-wide error type and the response each error becomes.
use vstd::prelude::*;
use crate::validation::ValidationErrors;

verus! {

/// Application-wide error type. Every request decision ends in `Ok` or one of these.
#[derive(Debug)]
pub enum AppError {
    /// 400: malformed request that doesn't fit the validation framework.
    BadRequest(String),
    /// 400: field-level validation failures (`{ field: [messages] }`).
    Validation(ValidationErrors),
    /// 401: missing, expired, or invalid credentials.
    Unauthorized,
    /// 403: authenticated but not allowed to perform this action.
    Forbidden,
    /// 404: resource does not exist.
    NotFound(String),
    /// 409: uniqueness conflict.
    Conflict(String),
    /// 500: unexpected failure; the detail is logged, never sent.
    Internal(String),
}

/// Extra data of an error response.
#[derive(Debug)]
pub enum ErrorData {
    /// A plain detail string.
    Detail(String),
    /// Field errors.
    Fields(ValidationErrors),
}

/// The error response body: `{ "message": ..., "data": ... }`.
#[derive(Debug)]
pub struct ErrorResponse {
    pub message: String,
    pub data: Option<ErrorData>,
}

/// Failures of a database call, as the logic tells them apart.
#[derive(Debug)]
pub enum DbError {
    /// A query that must return a row returned none.
    RowNotFound,
    /// The database reported an error (its message).
    Database(String),
    /// Any other failure (its message).
    Other(String),
}

impl AppError {
    /// The HTTP status code of this error.
    pub open spec fn status_spec(&self) -> u16 {
        match self {
            AppError::BadRequest(_) => 400,
            AppError::Validation(_) => 400,
            AppError::Unauthorized => 401,
            AppError::Forbidden => 403,
            AppError::NotFound(_) => 404,
            AppError::Conflict(_) => 409,
            AppError::Internal(_) => 500,
        }
    }

    /// The message sent to the client.
    pub open spec fn message_spec(&self) -> Seq<char> {
        match self {
            AppError::BadRequest(_) => "Invalid request parameters."@,
            AppError::Validation(_) => "Missing or invalid fields. Please check your input and try again."@,
            AppError::Unauthorized => "Invalid credentials. Please log in again."@,
            AppError::Forbidden => "Access denied."@,
            AppError::NotFound(m) => m@,
            AppError::Conflict(m) => m@,
            AppError::Internal(_) => "An unexpected error occurred. Please try again later."@,
        }
    }

    /// The response this error becomes: its status code and body. Bad
    /// requests carry their detail and validation failures their field errors;
    /// no other error carries data, and an internal error's detail is not sent.
    pub fn into_response(self) -> (r: (u16, ErrorResponse))
        ensures
            r.0 == self.status_spec(),
            r.1.message@ == self.message_spec(),
            match self {
                AppError::BadRequest(d) => r.1.data == Some(ErrorData::Detail(d)),
                AppError::Validation(f) => r.1.data == Some(ErrorData::Fields(f)),
                _ => r.1.data is None,
            },
    {
        match self {
            AppError::BadRequest(detail) => (
                400,
                ErrorResponse { message: "Invalid request parameters.".to_string(), data: Some(ErrorData::Detail(detail)) },
            ),
            AppError::Validation(fields) => (
                400,
                ErrorResponse {
                    message: "Missing or invalid fields. Please check your input and try again.".to_string(),
                    data: Some(ErrorData::Fields(fields)),
                },
            ),
            AppError::Unauthorized => (
                401,
                ErrorResponse { message: "Invalid credentials. Please log in again.".to_string(), data: None },
            ),
            AppError::Forbidden => (403, ErrorResponse { message: "Access denied.".to_string(), data: None }),
            AppError::NotFound(msg) => (404, ErrorResponse { message: msg, data: None }),
            AppError::Conflict(msg) => (409, ErrorResponse { message: msg, data: None }),
            AppError::Internal(_) => (
                500,
                ErrorResponse {
                    message: "An unexpected error occurred. Please try again later.".to_string(),
                    data: None,
                },
            ),
        }
    }
}

/// Only internal errors are server errors; every other error is a client
/// error, and an internal error's message never depends on its detail.
pub proof fn law_error_statuses(e: AppError, other: String)
    ensures
        (e is Internal) <==> e.status_spec() == 500,
        !(e is Internal) ==> 400 <= e.status_spec() <= 499,
        AppError::Internal(other).message_spec() == "An unexpected error occurred. Please try again later."@,
{
}

/// Field validation failures become `AppError::Validation`.
impl From<ValidationErrors> for AppError {
    fn from(errors: ValidationErrors) -> (r: Self) {
        AppError::Validation(errors)
    }
}

impl vstd::std_specs::convert::FromSpecImpl<ValidationErrors> for AppError {
    open spec fn obeys_from_spec() -> bool {
        true
    }

    open spec fn from_spec(errors: ValidationErrors) -> AppError {
        AppError::Validation(errors)
    }
}

impl AppError {
    /// A database failure as an application error: a missing row is
    /// `NotFound`; every other failure is `Internal` with its message.
    pub fn from_db(err: DbError) -> (r: Self)
        ensures
            match err {
                DbError::RowNotFound => r matches AppError::NotFound(m) && m@ == "Resource not found."@,
                DbError::Database(msg) => r == AppError::Internal(msg),
                DbError::Other(msg) => r == AppError::Internal(msg),
            },
    {
        match err {
            DbError::RowNotFound => AppError::NotFound("Resource not found.".to_string()),
            DbError::Database(msg) => AppError::Internal(msg),
            DbError::Other(msg) => AppError::Internal(msg),
        }
    }
}

} // verus!
