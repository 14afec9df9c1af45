//! Issue handlers: list, create, get, update and delete.
use vstd::prelude::*;
use crate::errors::AppError;
use crate::handlers::project_handler::{check_need, has_need, project_access_step, Need, ProjectAccess};
use crate::handlers::{issue_not_found, project_not_found, rejects_forbidden, rejects_not_found, Found, Lookup, Step};
use crate::models::issue::{
    create_issue_errors, filter_conditions, update_assignments, update_issue_errors, CreateIssueRequest, Issue,
    IssueAssignment, IssueCondition, IssueFilters, UpdateIssueRequest,
};
use crate::models::project::Project;
use crate::models::PaginationParams;

verus! {

/// A handler waiting for an issue, its project, or the caller's role in that project.
#[derive(Debug)]
pub enum IssueAccess {
    AwaitIssue,
    AwaitProject(Issue),
    AwaitRole(Issue, Project),
}

/// The answer kinds `IssueAccess` waits for.
pub open spec fn issue_access_answer(state: IssueAccess, found: Found) -> bool {
    match state {
        IssueAccess::AwaitIssue => found is Issue,
        IssueAccess::AwaitProject(_) => found is Project,
        IssueAccess::AwaitRole(_, _) => found is MemberRole,
    }
}

/// What one step of `issue_access_step` does.
pub open spec fn issue_access_spec<E>(user_id: u128, need: Need, state: IssueAccess, found: Found, r: Step<IssueAccess, E>, done: spec_fn(Issue, Project) -> E) -> bool {
    match (state, found) {
        (IssueAccess::AwaitIssue, Found::Issue(None)) => rejects_not_found(r, "Issue not found."@),
        (IssueAccess::AwaitIssue, Found::Issue(Some(i))) => r == Step::<IssueAccess, E>::Ask(
            IssueAccess::AwaitProject(i),
            Lookup::ProjectById(i.project_id),
        ),
        (IssueAccess::AwaitProject(_), Found::Project(None)) => rejects_not_found(r, "Project not found."@),
        (IssueAccess::AwaitProject(i), Found::Project(Some(p))) => r == Step::<IssueAccess, E>::Ask(
            IssueAccess::AwaitRole(i, p),
            Lookup::MemberRole { project_id: p.id, user_id },
        ),
        (IssueAccess::AwaitRole(i, p), Found::MemberRole(role)) => if has_need(p, user_id, role, need) {
            r == Step::<IssueAccess, E>::Perform(done(i, p))
        } else {
            rejects_forbidden(r)
        },
        _ => false,
    }
}

/// One step of loading an issue, then its project, then the caller's role,
/// and checking `need`: a missing issue or project is `NotFound`, a caller
/// without the permission `Forbidden`; otherwise the issue and project are handed over.
pub fn issue_access_step(user_id: u128, need: Need, state: IssueAccess, found: Found) -> (r: Step<IssueAccess, (Issue, Project)>)
    requires
        issue_access_answer(state, found),
    ensures
        issue_access_spec(user_id, need, state, found, r, |i: Issue, p: Project| (i, p)),
{
    match state {
        IssueAccess::AwaitIssue => match found {
            Found::Issue(Some(i)) => {
                let q = Lookup::ProjectById(i.project_id);
                Step::Ask(IssueAccess::AwaitProject(i), q)
            },
            _ => Step::Reject(issue_not_found()),
        },
        IssueAccess::AwaitProject(i) => match found {
            Found::Project(Some(p)) => {
                let q = Lookup::MemberRole { project_id: p.id, user_id };
                Step::Ask(IssueAccess::AwaitRole(i, p), q)
            },
            _ => Step::Reject(project_not_found()),
        },
        IssueAccess::AwaitRole(i, p) => {
            let role = match found {
                Found::MemberRole(role) => role,
                _ => None,
            };
            if check_need(&p, user_id, role, need) {
                Step::Perform((i, p))
            } else {
                Step::Reject(AppError::Forbidden)
            }
        },
    }
}

/// `GET /api/projects/:project_id/issues`: the filtered page of issues to list.
#[derive(Debug)]
pub struct ListIssues {
    pub project_id: u128,
    pub conditions: Vec<IssueCondition>,
    pub limit: i64,
    pub offset: i64,
}

/// `GET /api/projects/:project_id/issues`: asks for the project.
pub fn list_issues(project_id: u128) -> (r: Step<ProjectAccess, ListIssues>)
    ensures
        r == Step::<ProjectAccess, ListIssues>::Ask(ProjectAccess::AwaitProject, Lookup::ProjectById(project_id)),
{
    Step::Ask(ProjectAccess::AwaitProject, Lookup::ProjectById(project_id))
}

/// `GET /api/projects/:project_id/issues`: callers who may view the project
/// list its issues, filtered and paginated.
pub fn list_issues_step(
    user_id: u128,
    project_id: u128,
    filters: &IssueFilters,
    pagination: &PaginationParams,
    state: ProjectAccess,
    found: Found,
) -> (r: Step<ProjectAccess, ListIssues>)
    requires
        state is AwaitProject ==> found is Project,
        state is AwaitRole ==> found is MemberRole,
        i64::MIN <= pagination.offset_spec() <= i64::MAX,
    ensures
        match (state, found) {
            (ProjectAccess::AwaitProject, Found::Project(None)) => rejects_not_found(r, "Project not found."@),
            (ProjectAccess::AwaitProject, Found::Project(Some(p))) => r == Step::<ProjectAccess, ListIssues>::Ask(
                ProjectAccess::AwaitRole(p),
                Lookup::MemberRole { project_id: p.id, user_id },
            ),
            (ProjectAccess::AwaitRole(p), Found::MemberRole(role)) => if p.may_view(user_id, role) {
                r matches Step::Perform(l) && l.project_id == project_id && l.conditions@ == filter_conditions(*filters)
                    && l.limit == pagination.limit_spec() && l.offset == pagination.offset_spec()
            } else {
                rejects_forbidden(r)
            },
            _ => false,
        },
{
    match project_access_step(user_id, Need::View, state, found) {
        Step::Ask(s, q) => Step::Ask(s, q),
        Step::Reject(e) => Step::Reject(e),
        Step::Perform(_) => Step::Perform(ListIssues {
            project_id,
            conditions: filters.conditions(),
            limit: pagination.limit(),
            offset: pagination.offset(),
        }),
    }
}

/// `POST /api/projects/:project_id/issues`: the issue to insert.
#[derive(Debug)]
pub struct CreateIssue {
    pub request: CreateIssueRequest,
    pub project_id: u128,
    pub author_id: u128,
}

/// State of `POST /api/projects/:project_id/issues`.
#[derive(Debug)]
pub struct CreateIssueState {
    pub access: ProjectAccess,
    pub request: CreateIssueRequest,
}

/// `POST /api/projects/:project_id/issues`: checks the request, then asks for the project.
pub fn create_issue(project_id: u128, input: CreateIssueRequest) -> (r: Step<CreateIssueState, CreateIssue>)
    ensures
        create_issue_errors(input) != Map::<Seq<char>, Seq<Seq<char>>>::empty() ==> (r matches Step::Reject(
            AppError::Validation(e),
        ) && e@ == create_issue_errors(input)),
        create_issue_errors(input) == Map::<Seq<char>, Seq<Seq<char>>>::empty() ==> r
            == Step::<CreateIssueState, CreateIssue>::Ask(
            CreateIssueState { access: ProjectAccess::AwaitProject, request: input },
            Lookup::ProjectById(project_id),
        ),
{
    match input.validate() {
        Err(e) => Step::Reject(AppError::Validation(e)),
        Ok(()) => Step::Ask(
            CreateIssueState { access: ProjectAccess::AwaitProject, request: input },
            Lookup::ProjectById(project_id),
        ),
    }
}

/// `POST /api/projects/:project_id/issues`: callers who may view the project
/// and write its issues create the issue, as its author.
pub fn create_issue_step(user_id: u128, project_id: u128, state: CreateIssueState, found: Found) -> (r: Step<CreateIssueState, CreateIssue>)
    requires
        state.access is AwaitProject ==> found is Project,
        state.access is AwaitRole ==> found is MemberRole,
    ensures
        match (state.access, found) {
            (ProjectAccess::AwaitProject, Found::Project(None)) => rejects_not_found(r, "Project not found."@),
            (ProjectAccess::AwaitProject, Found::Project(Some(p))) => r == Step::<CreateIssueState, CreateIssue>::Ask(
                CreateIssueState { access: ProjectAccess::AwaitRole(p), request: state.request },
                Lookup::MemberRole { project_id: p.id, user_id },
            ),
            (ProjectAccess::AwaitRole(p), Found::MemberRole(role)) => if p.may_view(user_id, role) && p.may_write_issues(user_id, role) {
                r == Step::<CreateIssueState, CreateIssue>::Perform(CreateIssue { request: state.request, project_id, author_id: user_id })
            } else {
                rejects_forbidden(r)
            },
            _ => false,
        },
{
    let request = state.request;
    match project_access_step(user_id, Need::WriteIssues, state.access, found) {
        Step::Ask(access, q) => Step::Ask(CreateIssueState { access, request }, q),
        Step::Reject(e) => Step::Reject(e),
        Step::Perform(_) => Step::Perform(CreateIssue { request, project_id, author_id: user_id }),
    }
}

/// `GET /api/issues/:issue_id`: asks for the issue.
pub fn get_issue(issue_id: u128) -> (r: Step<IssueAccess, Issue>)
    ensures
        r == Step::<IssueAccess, Issue>::Ask(IssueAccess::AwaitIssue, Lookup::IssueById(issue_id)),
{
    Step::Ask(IssueAccess::AwaitIssue, Lookup::IssueById(issue_id))
}

/// `GET /api/issues/:issue_id`: the issue is returned to callers who may view its project.
pub fn get_issue_step(user_id: u128, state: IssueAccess, found: Found) -> (r: Step<IssueAccess, Issue>)
    requires
        issue_access_answer(state, found),
    ensures
        issue_access_spec(user_id, Need::View, state, found, r, |i: Issue, p: Project| i),
{
    match issue_access_step(user_id, Need::View, state, found) {
        Step::Ask(s, q) => Step::Ask(s, q),
        Step::Reject(e) => Step::Reject(e),
        Step::Perform((i, _)) => Step::Perform(i),
    }
}

/// `PATCH /api/issues/:issue_id`: the columns to set on the issue.
#[derive(Debug)]
pub struct UpdateIssue {
    pub issue_id: u128,
    pub assignments: Vec<IssueAssignment>,
}

/// State of `PATCH /api/issues/:issue_id`.
#[derive(Debug)]
pub struct UpdateIssueState {
    pub access: IssueAccess,
    pub request: UpdateIssueRequest,
}

/// `PATCH /api/issues/:issue_id`: checks the request, then asks for the issue.
pub fn update_issue(issue_id: u128, input: UpdateIssueRequest) -> (r: Step<UpdateIssueState, UpdateIssue>)
    ensures
        update_issue_errors(input) != Map::<Seq<char>, Seq<Seq<char>>>::empty() ==> (r matches Step::Reject(
            AppError::Validation(e),
        ) && e@ == update_issue_errors(input)),
        update_issue_errors(input) == Map::<Seq<char>, Seq<Seq<char>>>::empty() ==> r
            == Step::<UpdateIssueState, UpdateIssue>::Ask(
            UpdateIssueState { access: IssueAccess::AwaitIssue, request: input },
            Lookup::IssueById(issue_id),
        ),
{
    match input.validate() {
        Err(e) => Step::Reject(AppError::Validation(e)),
        Ok(()) => Step::Ask(UpdateIssueState { access: IssueAccess::AwaitIssue, request: input }, Lookup::IssueById(issue_id)),
    }
}

/// `PATCH /api/issues/:issue_id`: callers who may view the project and
/// write its issues set the columns present in the request.
pub fn update_issue_step(user_id: u128, issue_id: u128, state: UpdateIssueState, found: Found) -> (r: Step<UpdateIssueState, UpdateIssue>)
    requires
        issue_access_answer(state.access, found),
    ensures
        match (state.access, found) {
            (IssueAccess::AwaitIssue, Found::Issue(None)) => rejects_not_found(r, "Issue not found."@),
            (IssueAccess::AwaitIssue, Found::Issue(Some(i))) => r == Step::<UpdateIssueState, UpdateIssue>::Ask(
                UpdateIssueState { access: IssueAccess::AwaitProject(i), request: state.request },
                Lookup::ProjectById(i.project_id),
            ),
            (IssueAccess::AwaitProject(_), Found::Project(None)) => rejects_not_found(r, "Project not found."@),
            (IssueAccess::AwaitProject(i), Found::Project(Some(p))) => r == Step::<UpdateIssueState, UpdateIssue>::Ask(
                UpdateIssueState { access: IssueAccess::AwaitRole(i, p), request: state.request },
                Lookup::MemberRole { project_id: p.id, user_id },
            ),
            (IssueAccess::AwaitRole(i, p), Found::MemberRole(role)) => if p.may_view(user_id, role) && p.may_write_issues(user_id, role) {
                r matches Step::Perform(u) && u.issue_id == issue_id && u.assignments@ == update_assignments(state.request)
            } else {
                rejects_forbidden(r)
            },
            _ => false,
        },
{
    let request = state.request;
    match issue_access_step(user_id, Need::WriteIssues, state.access, found) {
        Step::Ask(access, q) => Step::Ask(UpdateIssueState { access, request }, q),
        Step::Reject(e) => Step::Reject(e),
        Step::Perform(_) => Step::Perform(UpdateIssue { issue_id, assignments: request.assignments() }),
    }
}

/// `DELETE /api/issues/:issue_id`: the issue to delete.
#[derive(Debug)]
pub struct DeleteIssue {
    pub issue_id: u128,
}

/// `DELETE /api/issues/:issue_id`: asks for the issue.
pub fn delete_issue(issue_id: u128) -> (r: Step<(), DeleteIssue>)
    ensures
        r == Step::<(), DeleteIssue>::Ask((), Lookup::IssueById(issue_id)),
{
    Step::Ask((), Lookup::IssueById(issue_id))
}

/// `DELETE /api/issues/:issue_id`: only the issue's author may delete it.
pub fn delete_issue_step(user_id: u128, found: Found) -> (r: Step<(), DeleteIssue>)
    requires
        found is Issue,
    ensures
        match found {
            Found::Issue(None) => rejects_not_found(r, "Issue not found."@),
            Found::Issue(Some(i)) => if i.author_id == user_id {
                r == Step::<(), DeleteIssue>::Perform(DeleteIssue { issue_id: i.id })
            } else {
                rejects_forbidden(r)
            },
            _ => false,
        },
{
    match found {
        Found::Issue(Some(i)) => if i.author_id == user_id {
            Step::Perform(DeleteIssue { issue_id: i.id })
        } else {
            Step::Reject(AppError::Forbidden)
        },
        _ => Step::Reject(issue_not_found()),
    }
}

} // verus!
