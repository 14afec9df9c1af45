//! Project handlers: list, create, get, update, delete, list and add members.
use vstd::prelude::*;
use crate::errors::AppError;
use crate::handlers::{answers, project_not_found, rejects_conflict, rejects_forbidden, rejects_not_found, Found, Lookup, Step};
use crate::models::project::{project_errors, project_fields_valid, project_input_errors, project_input_valid, AddMemberRequest, MemberRole, Project, ProjectInput};
use crate::models::{patched, patched_text, PaginationParams};
use crate::validation::ValidationErrors;

verus! {

/// `GET /api/projects` performs the listing of the projects visible to the
/// caller, with the page's limit and offset.
#[derive(Debug)]
pub struct ListProjects {
    pub user_id: u128,
    pub limit: i64,
    pub offset: i64,
}

/// `GET /api/projects`: lists the projects the caller can see (public ones,
/// owned ones and those they are a member of). No check can reject it.
pub fn list_projects(user_id: u128, pagination: &PaginationParams) -> (r: ListProjects)
    requires
        i64::MIN <= pagination.offset_spec() <= i64::MAX,
    ensures
        r.user_id == user_id,
        r.limit == pagination.limit_spec(),
        r.offset == pagination.offset_spec(),
{
    ListProjects { user_id, limit: pagination.limit(), offset: pagination.offset() }
}

/// State of `POST /api/projects` while it waits for the identifier check.
#[derive(Debug)]
pub struct CreateProjectState {
    pub project: Project,
}

/// `POST /api/projects`: the project to store, and the role its owner is
/// added to its members with.
#[derive(Debug)]
pub struct CreateProject {
    pub project: Project,
    pub owner_role: MemberRole,
}

/// `POST /api/projects`: builds the project from the request (rejecting
/// invalid input), then asks whether its identifier is taken.
pub fn create_project(user_id: u128, input: ProjectInput) -> (r: Step<CreateProjectState, CreateProject>)
    ensures
        !project_input_valid(input) ==> (r matches Step::Reject(AppError::Validation(e)) && e@ == project_input_errors(input)),
        project_input_valid(input) ==> {
            let name = patched_text(Seq::empty(), input.name);
            let identifier = patched_text(Seq::empty(), input.identifier);
            let description = patched_text(Seq::empty(), input.description);
            &&& (!project_fields_valid(name, identifier, description) ==> (r matches Step::Reject(
                AppError::Validation(e),
            ) && e@ == project_errors(name, identifier, description)))
            &&& (project_fields_valid(name, identifier, description) ==> (r matches Step::Ask(s, q) && q
                == Lookup::IdentifierExists(s.project.identifier) && s.project.name@ == name
                && s.project.identifier@ == identifier && s.project.description@ == description
                && s.project.is_public == patched(false, input.is_public) && s.project.owner_id == user_id))
        },
{
    match Project::create(input, user_id) {
        Err(e) => Step::Reject(AppError::Validation(e)),
        Ok(project) => {
            let id = project.identifier.clone();
            Step::Ask(CreateProjectState { project }, Lookup::IdentifierExists(id))
        },
    }
}

/// After the identifier check: a taken identifier is a conflict; otherwise the
/// project is created and its owner becomes an admin member.
pub fn create_project_step(state: CreateProjectState, found: Found) -> (r: Step<CreateProjectState, CreateProject>)
    requires
        found is Exists,
    ensures
        found == Found::Exists(true) ==> rejects_conflict(r, "A project with that identifier already exists."@),
        found == Found::Exists(false) ==> r == Step::<CreateProjectState, CreateProject>::Perform(
            CreateProject { project: state.project, owner_role: MemberRole::Admin },
        ),
{
    match found {
        Found::Exists(true) => Step::Reject(AppError::Conflict("A project with that identifier already exists.".to_string())),
        _ => Step::Perform(CreateProject { project: state.project, owner_role: MemberRole::Admin }),
    }
}

/// A project handler waiting for the project row or for the caller's role in it.
#[derive(Debug)]
pub enum ProjectAccess {
    AwaitProject,
    AwaitRole(Project),
}

/// What a handler needs of the caller in a project.
#[derive(Debug, Clone, Copy, PartialEq, Eq, Structural)]
pub enum Need {
    /// See the project.
    View,
    /// See the project and comment on its issues.
    Comment,
    /// See the project and create or update its issues.
    WriteIssues,
    /// Change the project's settings and members.
    Admin,
}

/// The caller, with this role in `p`, has what `need` asks for.
pub open spec fn has_need(p: Project, user_id: u128, role: Option<MemberRole>, need: Need) -> bool {
    match need {
        Need::View => p.may_view(user_id, role),
        Need::Comment => p.may_view(user_id, role) && p.may_comment(user_id, role),
        Need::WriteIssues => p.may_view(user_id, role) && p.may_write_issues(user_id, role),
        Need::Admin => p.may_admin(user_id, role),
    }
}

/// Decides `need` for the caller.
pub fn check_need(p: &Project, user_id: u128, role: Option<MemberRole>, need: Need) -> (r: bool)
    ensures
        r == has_need(*p, user_id, role, need),
{
    match need {
        Need::View => p.can_view(user_id, role),
        Need::Comment => p.can_view(user_id, role) && p.can_comment(user_id, role),
        Need::WriteIssues => p.can_view(user_id, role) && p.can_write_issues(user_id, role),
        Need::Admin => p.can_admin(user_id, role),
    }
}

/// One step of loading a project and checking the caller's permission: a
/// missing project is `NotFound`, then the caller's role is asked, then a
/// caller without the permission is `Forbidden`; otherwise the project is
/// handed over for the effect.
pub fn project_access_step(user_id: u128, need: Need, state: ProjectAccess, found: Found) -> (r: Step<ProjectAccess, Project>)
    requires
        state is AwaitProject ==> found is Project,
        state is AwaitRole ==> found is MemberRole,
    ensures
        match (state, found) {
            (ProjectAccess::AwaitProject, Found::Project(None)) => rejects_not_found(r, "Project not found."@),
            (ProjectAccess::AwaitProject, Found::Project(Some(p))) => r == Step::<ProjectAccess, Project>::Ask(
                ProjectAccess::AwaitRole(p),
                Lookup::MemberRole { project_id: p.id, user_id },
            ),
            (ProjectAccess::AwaitRole(p), Found::MemberRole(role)) => if has_need(p, user_id, role, need) {
                r == Step::<ProjectAccess, Project>::Perform(p)
            } else {
                rejects_forbidden(r)
            },
            _ => false,
        },
{
    match state {
        ProjectAccess::AwaitProject => match found {
            Found::Project(Some(p)) => {
                let q = Lookup::MemberRole { project_id: p.id, user_id };
                Step::Ask(ProjectAccess::AwaitRole(p), q)
            },
            _ => Step::Reject(project_not_found()),
        },
        ProjectAccess::AwaitRole(p) => {
            let role = match found {
                Found::MemberRole(role) => role,
                _ => None,
            };
            let allowed = check_need(&p, user_id, role, need);
            if allowed {
                Step::Perform(p)
            } else {
                Step::Reject(AppError::Forbidden)
            }
        },
    }
}

/// `GET /api/projects/:project_id`: asks for the project.
pub fn get_project(project_id: u128) -> (r: Step<ProjectAccess, Project>)
    ensures
        r == Step::<ProjectAccess, Project>::Ask(ProjectAccess::AwaitProject, Lookup::ProjectById(project_id)),
{
    Step::Ask(ProjectAccess::AwaitProject, Lookup::ProjectById(project_id))
}

/// `GET /api/projects/:project_id`: the project is returned to a caller who may view it.
pub fn get_project_step(user_id: u128, state: ProjectAccess, found: Found) -> (r: Step<ProjectAccess, Project>)
    requires
        state is AwaitProject ==> found is Project,
        state is AwaitRole ==> found is MemberRole,
    ensures
        match (state, found) {
            (ProjectAccess::AwaitProject, Found::Project(None)) => rejects_not_found(r, "Project not found."@),
            (ProjectAccess::AwaitProject, Found::Project(Some(p))) => r == Step::<ProjectAccess, Project>::Ask(
                ProjectAccess::AwaitRole(p),
                Lookup::MemberRole { project_id: p.id, user_id },
            ),
            (ProjectAccess::AwaitRole(p), Found::MemberRole(role)) => if p.may_view(user_id, role) {
                r == Step::<ProjectAccess, Project>::Perform(p)
            } else {
                rejects_forbidden(r)
            },
            _ => false,
        },
{
    project_access_step(user_id, Need::View, state, found)
}

/// State of `PATCH /api/projects/:project_id`.
#[derive(Debug)]
pub struct UpdateProjectState {
    pub access: ProjectAccess,
    pub input: ProjectInput,
}

/// `PATCH /api/projects/:project_id`: the updated project to store.
#[derive(Debug)]
pub struct UpdateProject {
    pub project: Project,
}

/// `PATCH /api/projects/:project_id`: checks the request, then asks for the project.
pub fn update_project(project_id: u128, input: ProjectInput) -> (r: Step<UpdateProjectState, UpdateProject>)
    ensures
        !project_input_valid(input) ==> (r matches Step::Reject(AppError::Validation(e)) && e@ == project_input_errors(input)),
        project_input_valid(input) ==> r == Step::<UpdateProjectState, UpdateProject>::Ask(
            UpdateProjectState { access: ProjectAccess::AwaitProject, input },
            Lookup::ProjectById(project_id),
        ),
{
    match input.validate() {
        Err(e) => Step::Reject(AppError::Validation(e)),
        Ok(()) => Step::Ask(UpdateProjectState { access: ProjectAccess::AwaitProject, input }, Lookup::ProjectById(project_id)),
    }
}

/// `PATCH /api/projects/:project_id`: owners and admins may update; the merged
/// project is checked again before it is stored.
pub fn update_project_step(user_id: u128, state: UpdateProjectState, found: Found) -> (r: Step<UpdateProjectState, UpdateProject>)
    requires
        state.access is AwaitProject ==> found is Project,
        state.access is AwaitRole ==> found is MemberRole,
        project_input_valid(state.input),
    ensures
        match (state.access, found) {
            (ProjectAccess::AwaitProject, Found::Project(None)) => rejects_not_found(r, "Project not found."@),
            (ProjectAccess::AwaitProject, Found::Project(Some(p))) => r == Step::<UpdateProjectState, UpdateProject>::Ask(
                UpdateProjectState { access: ProjectAccess::AwaitRole(p), input: state.input },
                Lookup::MemberRole { project_id: p.id, user_id },
            ),
            (ProjectAccess::AwaitRole(p), Found::MemberRole(role)) => if !p.may_admin(user_id, role) {
                rejects_forbidden(r)
            } else {
                let merged = p.applied(state.input);
                &&& (merged.fields_valid() ==> (r matches Step::Perform(u) && u.project == Project {
                    updated_at: u.project.updated_at,
                    ..merged
                }))
                &&& (!merged.fields_valid() ==> (r matches Step::Reject(AppError::Validation(e)) && e@ == merged.errors()))
            },
            _ => false,
        },
{
    let input = state.input;
    match project_access_step(user_id, Need::Admin, state.access, found) {
        Step::Ask(access, q) => Step::Ask(UpdateProjectState { access, input }, q),
        Step::Reject(e) => Step::Reject(e),
        Step::Perform(p) => match p.update(input) {
            Ok(project) => Step::Perform(UpdateProject { project }),
            Err(e) => Step::Reject(AppError::Validation(e)),
        },
    }
}

/// `DELETE /api/projects/:project_id`: the project to delete.
#[derive(Debug)]
pub struct DeleteProject {
    pub project_id: u128,
}

/// `DELETE /api/projects/:project_id`: asks for the project.
pub fn delete_project(project_id: u128) -> (r: Step<(), DeleteProject>)
    ensures
        r == Step::<(), DeleteProject>::Ask((), Lookup::ProjectById(project_id)),
{
    Step::Ask((), Lookup::ProjectById(project_id))
}

/// `DELETE /api/projects/:project_id`: only the owner may delete the project.
pub fn delete_project_step(user_id: u128, found: Found) -> (r: Step<(), DeleteProject>)
    requires
        found is Project,
    ensures
        match found {
            Found::Project(None) => rejects_not_found(r, "Project not found."@),
            Found::Project(Some(p)) => if p.owner_id == user_id {
                r == Step::<(), DeleteProject>::Perform(DeleteProject { project_id: p.id })
            } else {
                rejects_forbidden(r)
            },
            _ => false,
        },
{
    match found {
        Found::Project(Some(p)) => if p.owner_id == user_id {
            Step::Perform(DeleteProject { project_id: p.id })
        } else {
            Step::Reject(AppError::Forbidden)
        },
        _ => Step::Reject(project_not_found()),
    }
}

/// `GET /api/projects/:project_id/members`: the page of members to list.
#[derive(Debug)]
pub struct ListMembers {
    pub project_id: u128,
    pub limit: i64,
    pub offset: i64,
}

/// `GET /api/projects/:project_id/members`: asks for the project.
pub fn list_members(project_id: u128) -> (r: Step<ProjectAccess, ListMembers>)
    ensures
        r == Step::<ProjectAccess, ListMembers>::Ask(ProjectAccess::AwaitProject, Lookup::ProjectById(project_id)),
{
    Step::Ask(ProjectAccess::AwaitProject, Lookup::ProjectById(project_id))
}

/// `GET /api/projects/:project_id/members`: anyone who may view the project may list its members.
pub fn list_members_step(user_id: u128, pagination: &PaginationParams, state: ProjectAccess, found: Found) -> (r: Step<ProjectAccess, ListMembers>)
    requires
        state is AwaitProject ==> found is Project,
        state is AwaitRole ==> found is MemberRole,
        i64::MIN <= pagination.offset_spec() <= i64::MAX,
    ensures
        match (state, found) {
            (ProjectAccess::AwaitProject, Found::Project(None)) => rejects_not_found(r, "Project not found."@),
            (ProjectAccess::AwaitProject, Found::Project(Some(p))) => r == Step::<ProjectAccess, ListMembers>::Ask(
                ProjectAccess::AwaitRole(p),
                Lookup::MemberRole { project_id: p.id, user_id },
            ),
            (ProjectAccess::AwaitRole(p), Found::MemberRole(role)) => if p.may_view(user_id, role) {
                r == Step::<ProjectAccess, ListMembers>::Perform(ListMembers {
                    project_id: p.id,
                    limit: pagination.limit_spec(),
                    offset: pagination.offset_spec() as i64,
                })
            } else {
                rejects_forbidden(r)
            },
            _ => false,
        },
{
    match project_access_step(user_id, Need::View, state, found) {
        Step::Ask(s, q) => Step::Ask(s, q),
        Step::Reject(e) => Step::Reject(e),
        Step::Perform(p) => Step::Perform(ListMembers { project_id: p.id, limit: pagination.limit(), offset: pagination.offset() }),
    }
}

/// State of `POST /api/projects/:project_id/members`.
#[derive(Debug)]
pub enum AddMemberState {
    Access(ProjectAccess),
    AwaitUser(Project),
    AwaitUserRole { project: Project, new_member: u128 },
}

/// `POST /api/projects/:project_id/members`: the membership to add.
#[derive(Debug, PartialEq, Eq, Structural)]
pub struct AddMember {
    pub project_id: u128,
    pub user_id: u128,
    pub role: MemberRole,
}

/// `POST /api/projects/:project_id/members`: asks for the project.
pub fn add_member(project_id: u128) -> (r: Step<AddMemberState, AddMember>)
    ensures
        r == Step::<AddMemberState, AddMember>::Ask(
            AddMemberState::Access(ProjectAccess::AwaitProject),
            Lookup::ProjectById(project_id),
        ),
{
    Step::Ask(AddMemberState::Access(ProjectAccess::AwaitProject), Lookup::ProjectById(project_id))
}

/// `POST /api/projects/:project_id/members`: owners and admins may add a
/// user, found by email, who is not a member yet.
pub fn add_member_step(user_id: u128, input: &AddMemberRequest, state: AddMemberState, found: Found) -> (r: Step<AddMemberState, AddMember>)
    requires
        state matches AddMemberState::Access(a) && a is AwaitProject ==> found is Project,
        state matches AddMemberState::Access(a) && a is AwaitRole ==> found is MemberRole,
        state is AwaitUser ==> found is User,
        state is AwaitUserRole ==> found is MemberRole,
    ensures
        match (state, found) {
            (AddMemberState::Access(ProjectAccess::AwaitProject), Found::Project(None)) => rejects_not_found(r, "Project not found."@),
            (AddMemberState::Access(ProjectAccess::AwaitProject), Found::Project(Some(p))) => r
                == Step::<AddMemberState, AddMember>::Ask(
                AddMemberState::Access(ProjectAccess::AwaitRole(p)),
                Lookup::MemberRole { project_id: p.id, user_id },
            ),
            (AddMemberState::Access(ProjectAccess::AwaitRole(p)), Found::MemberRole(role)) => if p.may_admin(user_id, role) {
                r == Step::<AddMemberState, AddMember>::Ask(AddMemberState::AwaitUser(p), Lookup::UserByEmail(input.email))
            } else {
                rejects_forbidden(r)
            },
            (AddMemberState::AwaitUser(p), Found::User(None)) => rejects_not_found(r, "User not found with that email."@),
            (AddMemberState::AwaitUser(p), Found::User(Some(u))) => r == Step::<AddMemberState, AddMember>::Ask(
                AddMemberState::AwaitUserRole { project: p, new_member: u.id },
                Lookup::MemberRole { project_id: p.id, user_id: u.id },
            ),
            (AddMemberState::AwaitUserRole { project, new_member }, Found::MemberRole(Some(_))) => rejects_conflict(
                r,
                "User is already a member of this project."@,
            ),
            (AddMemberState::AwaitUserRole { project, new_member }, Found::MemberRole(None)) => r
                == Step::<AddMemberState, AddMember>::Perform(
                AddMember { project_id: project.id, user_id: new_member, role: input.role },
            ),
            _ => false,
        },
{
    match state {
        AddMemberState::Access(access) => match project_access_step(user_id, Need::Admin, access, found) {
            Step::Ask(a, q) => Step::Ask(AddMemberState::Access(a), q),
            Step::Reject(e) => Step::Reject(e),
            Step::Perform(p) => Step::Ask(AddMemberState::AwaitUser(p), Lookup::UserByEmail(input.email.clone())),
        },
        AddMemberState::AwaitUser(p) => match found {
            Found::User(Some(u)) => {
                let q = Lookup::MemberRole { project_id: p.id, user_id: u.id };
                Step::Ask(AddMemberState::AwaitUserRole { project: p, new_member: u.id }, q)
            },
            _ => Step::Reject(AppError::NotFound("User not found with that email.".to_string())),
        },
        AddMemberState::AwaitUserRole { project, new_member } => match found {
            Found::MemberRole(None) => Step::Perform(AddMember { project_id: project.id, user_id: new_member, role: input.role }),
            _ => Step::Reject(AppError::Conflict("User is already a member of this project.".to_string())),
        },
    }
}

} // verus!
