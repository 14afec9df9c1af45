//! Comment handlers: list, create and delete.
use vstd::prelude::*;
use crate::errors::AppError;
use crate::handlers::issue_handler::{issue_access_answer, issue_access_spec, issue_access_step, IssueAccess};
use crate::handlers::project_handler::Need;
use crate::handlers::{rejects_forbidden, rejects_not_found, Found, Lookup, Step};
use crate::models::comment::{comment_errors, CreateCommentRequest};
use crate::models::issue::Issue;
use crate::models::project::Project;
use crate::models::PaginationParams;

verus! {

/// `GET /api/issues/:issue_id/comments`: the page of comments to list.
#[derive(Debug, PartialEq, Eq, Structural)]
pub struct ListComments {
    pub issue_id: u128,
    pub limit: i64,
    pub offset: i64,
}

/// `GET /api/issues/:issue_id/comments`: asks for the issue.
pub fn list_comments(issue_id: u128) -> (r: Step<IssueAccess, ListComments>)
    ensures
        r == Step::<IssueAccess, ListComments>::Ask(IssueAccess::AwaitIssue, Lookup::IssueById(issue_id)),
{
    Step::Ask(IssueAccess::AwaitIssue, Lookup::IssueById(issue_id))
}

/// `GET /api/issues/:issue_id/comments`: callers who may view the issue's project list its comments.
pub fn list_comments_step(user_id: u128, issue_id: u128, pagination: &PaginationParams, state: IssueAccess, found: Found) -> (r: Step<IssueAccess, ListComments>)
    requires
        issue_access_answer(state, found),
        i64::MIN <= pagination.offset_spec() <= i64::MAX,
    ensures
        issue_access_spec(
            user_id,
            Need::View,
            state,
            found,
            r,
            |i: Issue, p: Project| ListComments { issue_id, limit: pagination.limit_spec(), offset: pagination.offset_spec() as i64 },
        ),
{
    match issue_access_step(user_id, Need::View, state, found) {
        Step::Ask(s, q) => Step::Ask(s, q),
        Step::Reject(e) => Step::Reject(e),
        Step::Perform(_) => Step::Perform(ListComments { issue_id, limit: pagination.limit(), offset: pagination.offset() }),
    }
}

/// `POST /api/issues/:issue_id/comments`: the comment to insert.
#[derive(Debug)]
pub struct CreateComment {
    pub issue_id: u128,
    pub author_id: u128,
    pub body: String,
}

/// State of `POST /api/issues/:issue_id/comments`.
#[derive(Debug)]
pub struct CreateCommentState {
    pub access: IssueAccess,
    pub body: String,
}

/// `POST /api/issues/:issue_id/comments`: checks the request, then asks for the issue.
pub fn create_comment(issue_id: u128, input: CreateCommentRequest) -> (r: Step<CreateCommentState, CreateComment>)
    ensures
        comment_errors(input) != Map::<Seq<char>, Seq<Seq<char>>>::empty() ==> (r matches Step::Reject(
            AppError::Validation(e),
        ) && e@ == comment_errors(input)),
        comment_errors(input) == Map::<Seq<char>, Seq<Seq<char>>>::empty() ==> r
            == Step::<CreateCommentState, CreateComment>::Ask(
            CreateCommentState { access: IssueAccess::AwaitIssue, body: input.body },
            Lookup::IssueById(issue_id),
        ),
{
    match input.validate() {
        Err(e) => Step::Reject(AppError::Validation(e)),
        Ok(()) => Step::Ask(CreateCommentState { access: IssueAccess::AwaitIssue, body: input.body }, Lookup::IssueById(issue_id)),
    }
}

/// `POST /api/issues/:issue_id/comments`: callers who may view the project
/// and comment in it (owner or member) add the comment, as its author.
pub fn create_comment_step(user_id: u128, issue_id: u128, state: CreateCommentState, found: Found) -> (r: Step<CreateCommentState, CreateComment>)
    requires
        issue_access_answer(state.access, found),
    ensures
        match (state.access, found) {
            (IssueAccess::AwaitIssue, Found::Issue(None)) => rejects_not_found(r, "Issue not found."@),
            (IssueAccess::AwaitIssue, Found::Issue(Some(i))) => r == Step::<CreateCommentState, CreateComment>::Ask(
                CreateCommentState { access: IssueAccess::AwaitProject(i), body: state.body },
                Lookup::ProjectById(i.project_id),
            ),
            (IssueAccess::AwaitProject(_), Found::Project(None)) => rejects_not_found(r, "Project not found."@),
            (IssueAccess::AwaitProject(i), Found::Project(Some(p))) => r == Step::<CreateCommentState, CreateComment>::Ask(
                CreateCommentState { access: IssueAccess::AwaitRole(i, p), body: state.body },
                Lookup::MemberRole { project_id: p.id, user_id },
            ),
            (IssueAccess::AwaitRole(i, p), Found::MemberRole(role)) => if p.may_view(user_id, role) && p.may_comment(user_id, role) {
                r == Step::<CreateCommentState, CreateComment>::Perform(CreateComment { issue_id, author_id: user_id, body: state.body })
            } else {
                rejects_forbidden(r)
            },
            _ => false,
        },
{
    let body = state.body;
    match issue_access_step(user_id, Need::Comment, state.access, found) {
        Step::Ask(access, q) => Step::Ask(CreateCommentState { access, body }, q),
        Step::Reject(e) => Step::Reject(e),
        Step::Perform(_) => Step::Perform(CreateComment { issue_id, author_id: user_id, body }),
    }
}

/// `DELETE /api/comments/:comment_id`: the comment to delete.
#[derive(Debug, PartialEq, Eq, Structural)]
pub struct DeleteComment {
    pub comment_id: u128,
}

/// `DELETE /api/comments/:comment_id`: asks for the comment.
pub fn delete_comment(comment_id: u128) -> (r: Step<(), DeleteComment>)
    ensures
        r == Step::<(), DeleteComment>::Ask((), Lookup::CommentById(comment_id)),
{
    Step::Ask((), Lookup::CommentById(comment_id))
}

/// `DELETE /api/comments/:comment_id`: only the comment's author may delete it.
pub fn delete_comment_step(user_id: u128, found: Found) -> (r: Step<(), DeleteComment>)
    requires
        found is Comment,
    ensures
        match found {
            Found::Comment(None) => rejects_not_found(r, "Comment not found."@),
            Found::Comment(Some(c)) => if c.author_id == user_id {
                r == Step::<(), DeleteComment>::Perform(DeleteComment { comment_id: c.id })
            } else {
                rejects_forbidden(r)
            },
            _ => false,
        },
{
    match found {
        Found::Comment(Some(c)) => if c.author_id == user_id {
            Step::Perform(DeleteComment { comment_id: c.id })
        } else {
            Step::Reject(AppError::Forbidden)
        },
        _ => Step::Reject(AppError::NotFound("Comment not found.".to_string())),
    }
}

} // verus!
