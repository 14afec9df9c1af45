use issue_tracker_api::errors::AppError;
use issue_tracker_api::handlers::comment_handler::{
    create_comment, create_comment_step, delete_comment, delete_comment_step, list_comments, list_comments_step,
};
use issue_tracker_api::handlers::issue_handler::{
    create_issue, create_issue_step, delete_issue_step, get_issue, get_issue_step, list_issues_step, update_issue,
    update_issue_step, IssueAccess,
};
use issue_tracker_api::handlers::project_handler::{
    add_member, add_member_step, check_need, create_project, create_project_step, delete_project, delete_project_step,
    get_project, get_project_step, list_members_step, list_projects, update_project, update_project_step,
    AddMemberState, Need, ProjectAccess,
};
use issue_tracker_api::handlers::user_handler::{get_me, get_me_step, update_me, update_me_step, update_me_step_at, UpdateMeState};
use issue_tracker_api::handlers::auth_handler::{login, login_step, register, register_step, LoginState, RegisterState};
use issue_tracker_api::handlers::{Found, Lookup, Step};
use issue_tracker_api::models::comment::{Comment, CreateCommentRequest};
use issue_tracker_api::models::issue::{CreateIssueRequest, Issue, IssueFilters, UpdateIssueRequest};
use issue_tracker_api::models::project::{AddMemberRequest, MemberRole, Project, ProjectInput};
use issue_tracker_api::models::user::{LoginRequest, RegisterRequest, User, UserInput};
use issue_tracker_api::models::{PaginationParams, PatchField};

const OWNER: u128 = 1;
const OTHER: u128 = 2;

fn project(public: bool) -> Project {
    Project {
        id: 7,
        name: "Tracker".to_string(),
        identifier: "tracker".to_string(),
        description: String::new(),
        is_public: public,
        owner_id: OWNER,
        created_at: 1,
        updated_at: 2,
    }
}

fn issue(author: u128) -> Issue {
    Issue {
        id: 11,
        project_id: 7,
        author_id: author,
        assignee_id: None,
        subject: "Crash".to_string(),
        description: String::new(),
        issue_type: "bug".to_string(),
        status: "open".to_string(),
        priority: "medium".to_string(),
        due_date: None,
        created_at: 1,
        updated_at: 1,
    }
}

fn user(id: u128) -> User {
    User {
        id,
        email: "a@b.co".to_string(),
        password_hash: "hash".to_string(),
        display_name: "Ann".to_string(),
        created_at: 5,
        updated_at: 6,
    }
}

fn is_forbidden<S, E>(r: &Step<S, E>) -> bool {
    matches!(r, Step::Reject(AppError::Forbidden))
}

fn not_found_message<S, E>(r: &Step<S, E>) -> Option<String> {
    match r {
        Step::Reject(AppError::NotFound(m)) => Some(m.clone()),
        _ => None,
    }
}

fn empty_input() -> ProjectInput {
    ProjectInput {
        name: PatchField::Absent,
        identifier: PatchField::Absent,
        description: PatchField::Absent,
        is_public: PatchField::Absent,
    }
}

#[test]
fn list_projects_uses_page_window() {
    let r = list_projects(OWNER, &PaginationParams { page: Some(3), limit: Some(10) });
    assert_eq!((r.user_id, r.limit, r.offset), (OWNER, 10, 20));
}

#[test]
fn create_project_rejects_invalid_and_checks_identifier() {
    let mut bad = empty_input();
    bad.name = PatchField::Value(String::new());
    match create_project(OWNER, bad) {
        Step::Reject(AppError::Validation(e)) => assert!(e.get("name").is_some()),
        other => panic!("unexpected {:?}", other),
    }
    let mut good = empty_input();
    good.name = PatchField::Value("Tracker".to_string());
    good.identifier = PatchField::Value("tracker".to_string());
    let (state, q) = match create_project(OWNER, good) {
        Step::Ask(s, q) => (s, q),
        other => panic!("unexpected {:?}", other),
    };
    assert!(matches!(&q, Lookup::IdentifierExists(i) if i == "tracker"));
    assert_eq!(state.project.owner_id, OWNER);
    let taken = create_project_step(state, Found::Exists(true));
    match taken {
        Step::Reject(AppError::Conflict(m)) => assert_eq!(m, "A project with that identifier already exists."),
        other => panic!("unexpected {:?}", other),
    }
}

#[test]
fn create_project_performs_when_identifier_free() {
    let mut good = empty_input();
    good.name = PatchField::Value("Tracker".to_string());
    good.identifier = PatchField::Value("tracker".to_string());
    let state = match create_project(OWNER, good) {
        Step::Ask(s, _) => s,
        other => panic!("unexpected {:?}", other),
    };
    match create_project_step(state, Found::Exists(false)) {
        Step::Perform(c) => {
            assert_eq!(c.project.name, "Tracker");
            assert_eq!(c.project.identifier, "tracker");
            assert_eq!(c.project.owner_id, OWNER);
            assert!(matches!(c.owner_role, MemberRole::Admin));
        },
        other => panic!("unexpected {:?}", other),
    }
}

#[test]
fn get_project_walks_access_checks() {
    assert!(matches!(get_project(7), Step::Ask(ProjectAccess::AwaitProject, Lookup::ProjectById(7))));
    let missing = get_project_step(OTHER, ProjectAccess::AwaitProject, Found::Project(None));
    assert_eq!(not_found_message(&missing), Some("Project not found.".to_string()));
    let asked = get_project_step(OTHER, ProjectAccess::AwaitProject, Found::Project(Some(project(false))));
    let state = match asked {
        Step::Ask(s, Lookup::MemberRole { project_id: 7, user_id: OTHER }) => s,
        other => panic!("unexpected {:?}", other),
    };
    assert!(is_forbidden(&get_project_step(OTHER, state, Found::MemberRole(None))));
    let viewer = get_project_step(OTHER, ProjectAccess::AwaitRole(project(false)), Found::MemberRole(Some(MemberRole::Viewer)));
    assert!(matches!(viewer, Step::Perform(p) if p.id == 7));
    let public = get_project_step(OTHER, ProjectAccess::AwaitRole(project(true)), Found::MemberRole(None));
    assert!(matches!(public, Step::Perform(_)));
}

#[test]
fn check_need_follows_roles() {
    let p = project(false);
    assert!(check_need(&p, OWNER, None, Need::Admin));
    assert!(check_need(&p, OTHER, Some(MemberRole::Admin), Need::Admin));
    assert!(!check_need(&p, OTHER, Some(MemberRole::Member), Need::Admin));
    assert!(check_need(&p, OTHER, Some(MemberRole::Member), Need::WriteIssues));
    assert!(check_need(&p, OTHER, Some(MemberRole::Viewer), Need::Comment));
    assert!(!check_need(&p, OTHER, Some(MemberRole::Viewer), Need::WriteIssues));
    assert!(!check_need(&p, OTHER, None, Need::View));
    assert!(!check_need(&project(true), OTHER, None, Need::Comment));
    assert!(check_need(&project(true), OTHER, None, Need::View));
}

#[test]
fn update_project_needs_admin_and_valid_merge() {
    let mut input = empty_input();
    input.description = PatchField::Value("New".to_string());
    let state = match update_project(7, input) {
        Step::Ask(s, Lookup::ProjectById(7)) => s,
        other => panic!("unexpected {:?}", other),
    };
    let state = match update_project_step(OTHER, state, Found::Project(Some(project(false)))) {
        Step::Ask(s, Lookup::MemberRole { .. }) => s,
        other => panic!("unexpected {:?}", other),
    };
    let mut input = empty_input();
    input.description = PatchField::Value("New".to_string());
    let member_state = issue_tracker_api::handlers::project_handler::UpdateProjectState {
        access: ProjectAccess::AwaitRole(project(false)),
        input,
    };
    assert!(is_forbidden(&update_project_step(OTHER, member_state, Found::MemberRole(Some(MemberRole::Member)))));
    match update_project_step(OTHER, state, Found::MemberRole(Some(MemberRole::Admin))) {
        Step::Perform(u) => {
            assert_eq!(u.project.description, "New");
            assert_eq!(u.project.name, "Tracker");
            assert_eq!(u.project.id, 7);
        },
        other => panic!("unexpected {:?}", other),
    }
}

#[test]
fn update_project_rejects_invalid_input_first() {
    let mut input = empty_input();
    input.identifier = PatchField::Value("Not A Slug".to_string());
    assert!(matches!(update_project(7, input), Step::Reject(AppError::Validation(_))));
}

#[test]
fn only_owner_deletes_project() {
    assert!(matches!(delete_project(7), Step::Ask((), Lookup::ProjectById(7))));
    let missing = delete_project_step(OWNER, Found::Project(None));
    assert_eq!(not_found_message(&missing), Some("Project not found.".to_string()));
    assert!(is_forbidden(&delete_project_step(OTHER, Found::Project(Some(project(true))))));
    assert!(matches!(delete_project_step(OWNER, Found::Project(Some(project(true)))), Step::Perform(d) if d.project_id == 7));
}

#[test]
fn list_members_for_viewers() {
    let page = PaginationParams { page: Some(2), limit: Some(5) };
    let r = list_members_step(OTHER, &page, ProjectAccess::AwaitRole(project(false)), Found::MemberRole(Some(MemberRole::Viewer)));
    assert!(matches!(r, Step::Perform(m) if m.project_id == 7 && m.limit == 5 && m.offset == 5));
    let r = list_members_step(OTHER, &page, ProjectAccess::AwaitRole(project(false)), Found::MemberRole(None));
    assert!(is_forbidden(&r));
}

#[test]
fn add_member_walkthrough() {
    let req = AddMemberRequest { email: "new@x.io".to_string(), role: MemberRole::Member };
    let state = match add_member(7) {
        Step::Ask(s, Lookup::ProjectById(7)) => s,
        other => panic!("unexpected {:?}", other),
    };
    let state = match add_member_step(OWNER, &req, state, Found::Project(Some(project(false)))) {
        Step::Ask(s, Lookup::MemberRole { project_id: 7, user_id: OWNER }) => s,
        other => panic!("unexpected {:?}", other),
    };
    let state = match add_member_step(OWNER, &req, state, Found::MemberRole(None)) {
        Step::Ask(s, Lookup::UserByEmail(e)) => {
            assert_eq!(e, "new@x.io");
            s
        },
        other => panic!("unexpected {:?}", other),
    };
    let state = match add_member_step(OWNER, &req, state, Found::User(Some(user(9)))) {
        Step::Ask(s, Lookup::MemberRole { project_id: 7, user_id: 9 }) => s,
        other => panic!("unexpected {:?}", other),
    };
    match add_member_step(OWNER, &req, state, Found::MemberRole(None)) {
        Step::Perform(a) => {
            assert_eq!((a.project_id, a.user_id), (7, 9));
            assert!(matches!(a.role, MemberRole::Member));
        },
        other => panic!("unexpected {:?}", other),
    }
}

#[test]
fn add_member_rejections() {
    let req = AddMemberRequest { email: "new@x.io".to_string(), role: MemberRole::Viewer };
    let r = add_member_step(OTHER, &req, AddMemberState::Access(ProjectAccess::AwaitRole(project(false))), Found::MemberRole(Some(MemberRole::Member)));
    assert!(is_forbidden(&r));
    let r = add_member_step(OWNER, &req, AddMemberState::AwaitUser(project(false)), Found::User(None));
    assert_eq!(not_found_message(&r), Some("User not found with that email.".to_string()));
    let r = add_member_step(
        OWNER,
        &req,
        AddMemberState::AwaitUserRole { project: project(false), new_member: 9 },
        Found::MemberRole(Some(MemberRole::Viewer)),
    );
    match r {
        Step::Reject(AppError::Conflict(m)) => assert_eq!(m, "User is already a member of this project."),
        other => panic!("unexpected {:?}", other),
    }
}

fn create_issue_request(subject: &str) -> CreateIssueRequest {
    CreateIssueRequest {
        subject: subject.to_string(),
        description: String::new(),
        assignee_id: None,
        issue_type: "bug".to_string(),
        status: "open".to_string(),
        priority: "high".to_string(),
        due_date: None,
    }
}

#[test]
fn create_issue_needs_write_access() {
    assert!(matches!(create_issue(7, create_issue_request("")), Step::Reject(AppError::Validation(_))));
    let state = match create_issue(7, create_issue_request("Crash")) {
        Step::Ask(s, Lookup::ProjectById(7)) => s,
        other => panic!("unexpected {:?}", other),
    };
    let state = match create_issue_step(OTHER, 7, state, Found::Project(Some(project(true)))) {
        Step::Ask(s, Lookup::MemberRole { .. }) => s,
        other => panic!("unexpected {:?}", other),
    };
    let viewer_state = issue_tracker_api::handlers::issue_handler::CreateIssueState {
        access: ProjectAccess::AwaitRole(project(true)),
        request: create_issue_request("Crash"),
    };
    assert!(is_forbidden(&create_issue_step(OTHER, 7, viewer_state, Found::MemberRole(Some(MemberRole::Viewer)))));
    match create_issue_step(OTHER, 7, state, Found::MemberRole(Some(MemberRole::Member))) {
        Step::Perform(c) => {
            assert_eq!((c.project_id, c.author_id), (7, OTHER));
            assert_eq!(c.request.subject, "Crash");
        },
        other => panic!("unexpected {:?}", other),
    }
}

#[test]
fn get_issue_walks_issue_project_role() {
    assert!(matches!(get_issue(11), Step::Ask(IssueAccess::AwaitIssue, Lookup::IssueById(11))));
    let r = get_issue_step(OTHER, IssueAccess::AwaitIssue, Found::Issue(None));
    assert_eq!(not_found_message(&r), Some("Issue not found.".to_string()));
    let state = match get_issue_step(OTHER, IssueAccess::AwaitIssue, Found::Issue(Some(issue(OWNER)))) {
        Step::Ask(s, Lookup::ProjectById(7)) => s,
        other => panic!("unexpected {:?}", other),
    };
    let r = get_issue_step(OTHER, IssueAccess::AwaitProject(issue(OWNER)), Found::Project(None));
    assert_eq!(not_found_message(&r), Some("Project not found.".to_string()));
    let state = match get_issue_step(OTHER, state, Found::Project(Some(project(false)))) {
        Step::Ask(s, Lookup::MemberRole { project_id: 7, user_id: OTHER }) => s,
        other => panic!("unexpected {:?}", other),
    };
    let r = get_issue_step(OTHER, IssueAccess::AwaitRole(issue(OWNER), project(false)), Found::MemberRole(None));
    assert!(is_forbidden(&r));
    assert!(matches!(get_issue_step(OTHER, state, Found::MemberRole(Some(MemberRole::Viewer))), Step::Perform(i) if i.id == 11));
}

#[test]
fn list_issues_filters_and_pages() {
    let filters = IssueFilters { status: Some("open".to_string()), priority: None, assignee_id: Some(3) };
    let page = PaginationParams { page: None, limit: None };
    let r = list_issues_step(OTHER, 7, &filters, &page, ProjectAccess::AwaitRole(project(true)), Found::MemberRole(None));
    match r {
        Step::Perform(l) => {
            assert_eq!((l.project_id, l.limit, l.offset), (7, 25, 0));
            assert_eq!(l.conditions.len(), 2);
        },
        other => panic!("unexpected {:?}", other),
    }
    let r = list_issues_step(OTHER, 7, &filters, &page, ProjectAccess::AwaitRole(project(false)), Found::MemberRole(None));
    assert!(is_forbidden(&r));
}

fn empty_update() -> UpdateIssueRequest {
    UpdateIssueRequest {
        subject: None,
        description: None,
        assignee_id: None,
        issue_type: None,
        status: None,
        priority: None,
        due_date: None,
    }
}

#[test]
fn update_issue_sets_present_fields_for_writers() {
    let mut bad = empty_update();
    bad.status = Some("bogus".to_string());
    assert!(matches!(update_issue(11, bad), Step::Reject(AppError::Validation(_))));
    let mut req = empty_update();
    req.status = Some("closed".to_string());
    let state = match update_issue(11, req) {
        Step::Ask(s, Lookup::IssueById(11)) => s,
        other => panic!("unexpected {:?}", other),
    };
    let state = match update_issue_step(OTHER, 11, state, Found::Issue(Some(issue(OWNER)))) {
        Step::Ask(s, _) => s,
        other => panic!("unexpected {:?}", other),
    };
    let state = match update_issue_step(OTHER, 11, state, Found::Project(Some(project(false)))) {
        Step::Ask(s, _) => s,
        other => panic!("unexpected {:?}", other),
    };
    match update_issue_step(OTHER, 11, state, Found::MemberRole(Some(MemberRole::Member))) {
        Step::Perform(u) => {
            assert_eq!(u.issue_id, 11);
            assert_eq!(u.assignments.len(), 1);
        },
        other => panic!("unexpected {:?}", other),
    }
}

#[test]
fn only_author_deletes_issue() {
    assert!(is_forbidden(&delete_issue_step(OTHER, Found::Issue(Some(issue(OWNER))))));
    assert!(matches!(delete_issue_step(OWNER, Found::Issue(Some(issue(OWNER)))), Step::Perform(d) if d.issue_id == 11));
    assert_eq!(not_found_message(&delete_issue_step(OWNER, Found::Issue(None))), Some("Issue not found.".to_string()));
}

#[test]
fn comments_need_comment_access() {
    assert!(matches!(list_comments(11), Step::Ask(IssueAccess::AwaitIssue, Lookup::IssueById(11))));
    let page = PaginationParams { page: Some(1), limit: Some(3) };
    let r = list_comments_step(OTHER, 11, &page, IssueAccess::AwaitRole(issue(OWNER), project(true)), Found::MemberRole(None));
    assert!(matches!(r, Step::Perform(l) if l.issue_id == 11 && l.limit == 3 && l.offset == 0));
    assert!(matches!(
        create_comment(11, CreateCommentRequest { body: String::new() }),
        Step::Reject(AppError::Validation(_))
    ));
    let state = match create_comment(11, CreateCommentRequest { body: "Looks good".to_string() }) {
        Step::Ask(s, Lookup::IssueById(11)) => s,
        other => panic!("unexpected {:?}", other),
    };
    let state = match create_comment_step(OTHER, 11, state, Found::Issue(Some(issue(OWNER)))) {
        Step::Ask(s, _) => s,
        other => panic!("unexpected {:?}", other),
    };
    let state = match create_comment_step(OTHER, 11, state, Found::Project(Some(project(true)))) {
        Step::Ask(s, _) => s,
        other => panic!("unexpected {:?}", other),
    };
    assert!(is_forbidden(&create_comment_step(OTHER, 11, state, Found::MemberRole(None))));
}

#[test]
fn viewer_may_comment() {
    let state = issue_tracker_api::handlers::comment_handler::CreateCommentState {
        access: IssueAccess::AwaitRole(issue(OWNER), project(false)),
        body: "Hi".to_string(),
    };
    match create_comment_step(OTHER, 11, state, Found::MemberRole(Some(MemberRole::Viewer))) {
        Step::Perform(c) => {
            assert_eq!((c.issue_id, c.author_id), (11, OTHER));
            assert_eq!(c.body, "Hi");
        },
        other => panic!("unexpected {:?}", other),
    }
}

#[test]
fn only_author_deletes_comment() {
    let c = Comment { id: 4, issue_id: 11, author_id: OWNER, body: "x".to_string(), created_at: 0, updated_at: 0 };
    assert!(matches!(delete_comment(4), Step::Ask((), Lookup::CommentById(4))));
    assert!(is_forbidden(&delete_comment_step(OTHER, Found::Comment(Some(c)))));
    let c = Comment { id: 4, issue_id: 11, author_id: OWNER, body: "x".to_string(), created_at: 0, updated_at: 0 };
    assert!(matches!(delete_comment_step(OWNER, Found::Comment(Some(c))), Step::Perform(d) if d.comment_id == 4));
    assert_eq!(not_found_message(&delete_comment_step(OWNER, Found::Comment(None))), Some("Comment not found.".to_string()));
}

#[test]
fn get_me_hides_hash() {
    assert!(matches!(get_me(9), Step::Ask((), Lookup::UserById(9))));
    match get_me_step(Found::User(Some(user(9)))) {
        Step::Perform(r) => {
            assert_eq!(r.id, 9);
            assert_eq!(r.email, "a@b.co");
            assert_eq!(r.display_name, "Ann");
        },
        other => panic!("unexpected {:?}", other),
    }
    assert_eq!(not_found_message(&get_me_step(Found::User(None))), Some("User not found.".to_string()));
}

#[test]
fn update_me_renames_and_rehashes() {
    let input = UserInput { display_name: PatchField::Value("Bea".to_string()), new_password: PatchField::Absent };
    let state = match update_me(9, input) {
        Step::Ask(s, Lookup::UserById(9)) => s,
        other => panic!("unexpected {:?}", other),
    };
    match update_me_step(state, Found::User(Some(user(9)))) {
        Step::Perform(m) => {
            assert_eq!(m.user.display_name, "Bea");
            assert_eq!(m.user.password_hash, "hash");
            assert_eq!(m.user.created_at, 5);
        },
        other => panic!("unexpected {:?}", other),
    }
    let input = UserInput { display_name: PatchField::Absent, new_password: PatchField::Value("Str0ng!pass".to_string()) };
    let state = match update_me_step(UpdateMeState::AwaitUser(input), Found::User(Some(user(9)))) {
        Step::Ask(s, Lookup::HashPassword(p)) => {
            assert_eq!(p, "Str0ng!pass");
            s
        },
        other => panic!("unexpected {:?}", other),
    };
    match update_me_step(state, Found::PasswordHash("newhash".to_string())) {
        Step::Perform(m) => {
            assert_eq!(m.user.password_hash, "newhash");
            assert_eq!(m.user.display_name, "Ann");
        },
        other => panic!("unexpected {:?}", other),
    }
}

#[test]
fn register_walkthrough() {
    let req = || RegisterRequest {
        email: "new@x.io".to_string(),
        password: "Str0ng!pass".to_string(),
        display_name: "New".to_string(),
    };
    let state = match register(req()) {
        Step::Ask(s, Lookup::EmailExists(e)) => {
            assert_eq!(e, "new@x.io");
            s
        },
        other => panic!("unexpected {:?}", other),
    };
    match register_step(RegisterState::AwaitEmailCheck(req()), Found::Exists(true)) {
        Step::Reject(AppError::Conflict(m)) => assert_eq!(m, "A user with that email already exists."),
        other => panic!("unexpected {:?}", other),
    }
    let state = match register_step(state, Found::Exists(false)) {
        Step::Ask(s, Lookup::HashPassword(p)) => {
            assert_eq!(p, "Str0ng!pass");
            s
        },
        other => panic!("unexpected {:?}", other),
    };
    match register_step(state, Found::PasswordHash("h".to_string())) {
        Step::Perform(r) => {
            assert_eq!(r.email, "new@x.io");
            assert_eq!(r.password_hash, "h");
            assert_eq!(r.display_name, "New");
        },
        other => panic!("unexpected {:?}", other),
    }
}

#[test]
fn login_failures_are_indistinct() {
    let req = || LoginRequest { email: "a@b.co".to_string(), password: "pw".to_string() };
    let state = match login(req()) {
        Step::Ask(s, Lookup::UserByEmail(e)) => {
            assert_eq!(e, "a@b.co");
            s
        },
        other => panic!("unexpected {:?}", other),
    };
    let unknown = login_step(LoginState::AwaitUser(req()), Found::User(None));
    assert!(matches!(unknown, Step::Reject(AppError::Unauthorized)));
    let state = match login_step(state, Found::User(Some(user(9)))) {
        Step::Ask(s, Lookup::VerifyPassword { password, hash }) => {
            assert_eq!((password.as_str(), hash.as_str()), ("pw", "hash"));
            s
        },
        other => panic!("unexpected {:?}", other),
    };
    let wrong = login_step(LoginState::AwaitVerify(9), Found::PasswordMatches(false));
    assert!(matches!(wrong, Step::Reject(AppError::Unauthorized)));
    assert!(matches!(login_step(state, Found::PasswordMatches(true)), Step::Perform(l) if l.user_id == 9));
}

#[test]
fn update_me_at_stamps_given_time() {
    let input = UserInput { display_name: PatchField::Value("Bea".to_string()), new_password: PatchField::Absent };
    match update_me_step_at(UpdateMeState::AwaitUser(input), Found::User(Some(user(9))), 77) {
        Step::Perform(m) => assert_eq!((m.user.display_name.as_str(), m.user.created_at, m.user.updated_at), ("Bea", 5, 77)),
        other => panic!("unexpected {:?}", other),
    }
    match update_me_step_at(UpdateMeState::AwaitHash(user(9)), Found::PasswordHash("h2".to_string()), 78) {
        Step::Perform(m) => assert_eq!((m.user.password_hash.as_str(), m.user.updated_at), ("h2", 78)),
        other => panic!("unexpected {:?}", other),
    }
    let bad = UserInput { display_name: PatchField::Value("x".repeat(101)), new_password: PatchField::Absent };
    assert!(matches!(
        update_me_step_at(UpdateMeState::AwaitUser(bad), Found::User(Some(user(9))), 1),
        Step::Reject(AppError::Validation(_))
    ));
}
