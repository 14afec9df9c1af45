//! Comments on issues.
use vstd::prelude::*;
use crate::validation::rules::{char_len, char_len_outcome};
use crate::validation::{matches_errors, record_outcome, ErrorMap, ValidationErrors, Validator};

verus! {

/// A comment row. Ids are UUIDs as `u128`; times are microseconds since the Unix epoch.
#[derive(Debug)]
pub struct Comment {
    pub id: u128,
    pub issue_id: u128,
    pub author_id: u128,
    pub body: String,
    pub created_at: i64,
    pub updated_at: i64,
}

/// Request body for `POST /api/issues/:issue_id/comments`.
#[derive(Debug)]
pub struct CreateCommentRequest {
    pub body: String,
}

pub open spec fn comment_errors(r: CreateCommentRequest) -> ErrorMap {
    record_outcome(
        Map::empty(),
        "body"@,
        char_len_outcome(Some(1), Some(10000), "Comment must be between 1 and 10,000 characters."@, r.body@),
    )
}

impl CreateCommentRequest {
    /// The body must have 1 to 10,000 characters.
    pub fn validate(&self) -> (r: Result<(), ValidationErrors>)
        ensures
            matches_errors(r, comment_errors(*self)),
    {
        let mut v = Validator::new();
        v.field("body", &self.body).check(
            char_len(Some(1), Some(10000), "Comment must be between 1 and 10,000 characters."),
        );
        v.finish()
    }
}

} // verus!
