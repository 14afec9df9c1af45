//! Projects, their members, and who may do what in a project.
use vstd::prelude::*;
use crate::clock::now_micros;
use crate::ids::new_v4;
use crate::models::{patched, patched_text, PatchField};
use crate::text::{is_blank, str_eq};
use crate::validation::rules::{
    between_len, between_len_outcome, byte_len, max_len, max_len_outcome, not_empty,
    not_empty_outcome, slug, slug_outcome,
};
use crate::validation::{
    checked, lemma_record_outcome_empty, matches_errors, record_outcome, ErrorMap, Validatable,
    ValidationErrors, Validator,
};

verus! {

/// A project row. Ids are UUIDs as `u128`; times are microseconds since the Unix epoch.
#[derive(Debug)]
pub struct Project {
    pub id: u128,
    pub name: String,
    /// URL-safe slug that uniquely identifies the project (e.g. "my-project").
    pub identifier: String,
    pub description: String,
    pub is_public: bool,
    pub owner_id: u128,
    pub created_at: i64,
    pub updated_at: i64,
}

/// Role of a member in a project.
#[derive(Debug, Clone, Copy, PartialEq, Eq, Structural)]
pub enum MemberRole {
    Admin,
    Member,
    Viewer,
}

/// The role stored for `name` in the database and on the wire, if any.
pub open spec fn role_named(name: Seq<char>) -> Option<MemberRole> {
    if name == "admin"@ {
        Some(MemberRole::Admin)
    } else if name == "member"@ {
        Some(MemberRole::Member)
    } else if name == "viewer"@ {
        Some(MemberRole::Viewer)
    } else {
        None
    }
}

impl MemberRole {
    /// The lowercase name a role is stored and sent under.
    pub open spec fn name_spec(self) -> Seq<char> {
        match self {
            MemberRole::Admin => "admin"@,
            MemberRole::Member => "member"@,
            MemberRole::Viewer => "viewer"@,
        }
    }

    /// The lowercase name of the role.
    pub fn name(&self) -> (s: &'static str)
        ensures
            s@ == self.name_spec(),
    {
        match self {
            MemberRole::Admin => "admin",
            MemberRole::Member => "member",
            MemberRole::Viewer => "viewer",
        }
    }

    /// The role with the lowercase name `name`; `None` for any other text.
    pub fn from_name(name: &str) -> (r: Option<MemberRole>)
        ensures
            r == role_named(name@),
    {
        if str_eq(name, "admin") {
            Some(MemberRole::Admin)
        } else if str_eq(name, "member") {
            Some(MemberRole::Member)
        } else if str_eq(name, "viewer") {
            Some(MemberRole::Viewer)
        } else {
            None
        }
    }
}

/// A role's name reads back as that role, and no two roles share a name.
pub proof fn law_role_name_round_trip(m: MemberRole, n: MemberRole)
    ensures
        role_named(m.name_spec()) == Some(m),
        m.name_spec() == n.name_spec() ==> m == n,
{
    reveal_strlit("admin");
    reveal_strlit("member");
    reveal_strlit("viewer");
    assert("admin"@.len() == 5 && "member"@.len() == 6 && "viewer"@.len() == 6);
    assert("member"@[0] == 'm' && "viewer"@[0] == 'v');
    assert("admin"@ != "member"@ && "admin"@ != "viewer"@ && "member"@ != "viewer"@);
}

/// A membership row.
#[derive(Debug)]
pub struct ProjectMember {
    pub project_id: u128,
    pub user_id: u128,
    pub role: MemberRole,
    pub joined_at: i64,
}

/// Request body for `POST /api/projects/:project_id/members`.
#[derive(Debug)]
pub struct AddMemberRequest {
    pub email: String,
    pub role: MemberRole,
}

/// Request body for creating and patching a project; absent fields are left unchanged.
#[derive(Debug, Default)]
pub struct ProjectInput {
    pub name: PatchField<String>,
    pub identifier: PatchField<String>,
    pub description: PatchField<String>,
    pub is_public: PatchField<bool>,
}

/// The errors of the post-merge project checks on these field values.
pub open spec fn project_errors(name: Seq<char>, identifier: Seq<char>, description: Seq<char>) -> ErrorMap {
    let m1 = record_outcome(Map::empty(), "name"@, not_empty_outcome(name));
    let m2 = record_outcome(m1, "name"@, max_len_outcome(100, name));
    let m3 = record_outcome(m2, "identifier"@, between_len_outcome(3, 50, identifier));
    let m4 = record_outcome(m3, "identifier"@, slug_outcome(identifier));
    record_outcome(m4, "description"@, max_len_outcome(2000, description))
}

/// The project field values pass every check.
pub open spec fn project_fields_valid(name: Seq<char>, identifier: Seq<char>, description: Seq<char>) -> bool {
    &&& !is_blank(name)
    &&& byte_len(name) <= 100
    &&& 3 <= byte_len(identifier) <= 50
    &&& slug_outcome(identifier) is None
    &&& byte_len(description) <= 2000
}

pub proof fn lemma_project_errors_empty(name: Seq<char>, identifier: Seq<char>, description: Seq<char>)
    ensures
        (project_errors(name, identifier, description) == Map::<Seq<char>, Seq<Seq<char>>>::empty())
            <==> project_fields_valid(name, identifier, description),
{
    let m0 = Map::<Seq<char>, Seq<Seq<char>>>::empty();
    let m1 = record_outcome(m0, "name"@, not_empty_outcome(name));
    let m2 = record_outcome(m1, "name"@, max_len_outcome(100, name));
    let m3 = record_outcome(m2, "identifier"@, between_len_outcome(3, 50, identifier));
    let m4 = record_outcome(m3, "identifier"@, slug_outcome(identifier));
    lemma_record_outcome_empty(m0, "name"@, not_empty_outcome(name));
    lemma_record_outcome_empty(m1, "name"@, max_len_outcome(100, name));
    lemma_record_outcome_empty(m2, "identifier"@, between_len_outcome(3, 50, identifier));
    lemma_record_outcome_empty(m3, "identifier"@, slug_outcome(identifier));
    lemma_record_outcome_empty(m4, "description"@, max_len_outcome(2000, description));
}

/// The value a rule sees in a patch field (`None` when absent).
pub open spec fn patch_subject(p: PatchField<String>) -> Option<Seq<char>> {
    match p {
        PatchField::Value(v) => Some(v@),
        PatchField::Absent => None,
    }
}

/// The errors of the checks on the fields present in a project request.
pub open spec fn project_input_errors(input: ProjectInput) -> ErrorMap {
    let m1 = checked(Map::empty(), "name"@, patch_subject(input.name), |s: Seq<char>| not_empty_outcome(s));
    let m2 = checked(m1, "name"@, patch_subject(input.name), |s: Seq<char>| max_len_outcome(100, s));
    let m3 = checked(m2, "identifier"@, patch_subject(input.identifier), |s: Seq<char>| between_len_outcome(3, 50, s));
    let m4 = checked(m3, "identifier"@, patch_subject(input.identifier), |s: Seq<char>| slug_outcome(s));
    checked(m4, "description"@, patch_subject(input.description), |s: Seq<char>| max_len_outcome(2000, s))
}

/// Each field present in the request passes its checks.
pub open spec fn project_input_valid(input: ProjectInput) -> bool {
    &&& (input.name matches PatchField::Value(v) ==> !is_blank(v@) && byte_len(v@) <= 100)
    &&& (input.identifier matches PatchField::Value(v) ==> 3 <= byte_len(v@) <= 50 && slug_outcome(v@) is None)
    &&& (input.description matches PatchField::Value(v) ==> byte_len(v@) <= 2000)
}

pub proof fn lemma_project_input_errors_empty(input: ProjectInput)
    ensures
        (project_input_errors(input) == Map::<Seq<char>, Seq<Seq<char>>>::empty()) <==> project_input_valid(input),
{
    let m0 = Map::<Seq<char>, Seq<Seq<char>>>::empty();
    let m1 = checked(m0, "name"@, patch_subject(input.name), |s: Seq<char>| not_empty_outcome(s));
    let m2 = checked(m1, "name"@, patch_subject(input.name), |s: Seq<char>| max_len_outcome(100, s));
    let m3 = checked(m2, "identifier"@, patch_subject(input.identifier), |s: Seq<char>| between_len_outcome(3, 50, s));
    let m4 = checked(m3, "identifier"@, patch_subject(input.identifier), |s: Seq<char>| slug_outcome(s));
    if let PatchField::Value(v) = input.name {
        lemma_record_outcome_empty(m0, "name"@, not_empty_outcome(v@));
        lemma_record_outcome_empty(m1, "name"@, max_len_outcome(100, v@));
    }
    if let PatchField::Value(v) = input.identifier {
        lemma_record_outcome_empty(m2, "identifier"@, between_len_outcome(3, 50, v@));
        lemma_record_outcome_empty(m3, "identifier"@, slug_outcome(v@));
    }
    if let PatchField::Value(v) = input.description {
        lemma_record_outcome_empty(m4, "description"@, max_len_outcome(2000, v@));
    }
}

impl ProjectInput {
    /// Validates the fields present in this request; absent fields are skipped.
    pub fn validate(&self) -> (r: Result<(), ValidationErrors>)
        ensures
            matches_errors(r, project_input_errors(*self)),
            r is Ok <==> project_input_valid(*self),
    {
        let mut v = Validator::new();
        v.field("name", &self.name).check(not_empty).check(max_len(100));
        v.field("identifier", &self.identifier).check(between_len(3, 50)).check(slug);
        v.field("description", &self.description).check(max_len(2000));
        proof { lemma_project_input_errors_empty(*self); }
        v.finish()
    }
}

impl Default for Project {
    /// A fresh project: random id, current times, empty text fields, private, nil owner.
    fn default() -> (p: Self)
        ensures
            p.name@ == Seq::<char>::empty(),
            p.identifier@ == Seq::<char>::empty(),
            p.description@ == Seq::<char>::empty(),
            !p.is_public,
            p.owner_id == 0,
    {
        Project {
            id: new_v4(),
            name: String::new(),
            identifier: String::new(),
            description: String::new(),
            is_public: false,
            owner_id: 0,
            created_at: now_micros(),
            updated_at: now_micros(),
        }
    }
}

impl Project {
    /// The project after applying the fields present in `input`.
    pub open spec fn applied(self, input: ProjectInput) -> Project {
        Project {
            name: patched(self.name, input.name),
            identifier: patched(self.identifier, input.identifier),
            description: patched(self.description, input.description),
            is_public: patched(self.is_public, input.is_public),
            ..self
        }
    }

    /// The errors of the post-merge checks on this project.
    pub open spec fn errors(self) -> ErrorMap {
        project_errors(self.name@, self.identifier@, self.description@)
    }

    pub open spec fn fields_valid(self) -> bool {
        project_fields_valid(self.name@, self.identifier@, self.description@)
    }

    /// Copies the fields present in `input` over this project.
    pub fn apply(self, input: ProjectInput) -> (r: Self)
        ensures
            r == self.applied(input),
    {
        let mut project = self;
        if let PatchField::Value(v) = input.name {
            project.name = v;
        }
        if let PatchField::Value(v) = input.identifier {
            project.identifier = v;
        }
        if let PatchField::Value(v) = input.description {
            project.description = v;
        }
        if let PatchField::Value(v) = input.is_public {
            project.is_public = v;
        }
        project
    }

    /// The post-merge checks: name, identifier and description.
    pub fn validate(&self) -> (r: Result<(), ValidationErrors>)
        ensures
            matches_errors(r, self.errors()),
            r is Ok <==> self.fields_valid(),
    {
        let mut v = Validator::new();
        v.field("name", &self.name).check(not_empty).check(max_len(100));
        v.field("identifier", &self.identifier).check(between_len(3, 50)).check(slug);
        v.field("description", &self.description).check(max_len(2000));
        proof { lemma_project_errors_empty(self.name@, self.identifier@, self.description@); }
        v.finish()
    }

    /// A new project owned by `owner_id` from a request: the request is checked
    /// first, then the merged project.
    pub fn create(input: ProjectInput, owner_id: u128) -> (r: Result<Self, ValidationErrors>)
        ensures
            !project_input_valid(input) ==> (r matches Err(e) && e.wf() && e@ == project_input_errors(input)),
            project_input_valid(input) ==> {
                let name = patched_text(Seq::empty(), input.name);
                let identifier = patched_text(Seq::empty(), input.identifier);
                let description = patched_text(Seq::empty(), input.description);
                &&& (r is Ok <==> project_fields_valid(name, identifier, description))
                &&& (r matches Err(e) ==> e.wf() && e@ == project_errors(name, identifier, description))
                &&& (r matches Ok(p) ==> {
                    &&& p.name@ == name
                    &&& p.identifier@ == identifier
                    &&& p.description@ == description
                    &&& p.is_public == patched(false, input.is_public)
                    &&& p.owner_id == owner_id
                })
            },
    {
        let checked_input = input.validate();
        if let Err(e) = checked_input {
            return Err(e);
        }
        let mut project = Project::default();
        project.owner_id = owner_id;
        let project = project.apply(input);
        let checked_project = project.validate();
        if let Err(e) = checked_project {
            return Err(e);
        }
        Ok(project)
    }

    /// This project updated from a request at time `now` (microseconds): the
    /// request is checked first, then the merged project; `updated_at` becomes `now`.
    pub fn update_at(self, input: ProjectInput, now: i64) -> (r: Result<Self, ValidationErrors>)
        ensures
            !project_input_valid(input) ==> (r matches Err(e) && e.wf() && e@ == project_input_errors(input)),
            project_input_valid(input) ==> {
                let merged = self.applied(input);
                &&& (r is Ok <==> merged.fields_valid())
                &&& (r matches Err(e) ==> e.wf() && e@ == merged.errors())
                &&& (r matches Ok(p) ==> p == Project { updated_at: now, ..merged })
            },
    {
        let checked_input = input.validate();
        if let Err(e) = checked_input {
            return Err(e);
        }
        let mut project = self.apply(input);
        project.updated_at = now;
        let checked_project = project.validate();
        if let Err(e) = checked_project {
            return Err(e);
        }
        Ok(project)
    }

    /// This project updated from a request: the request is checked first, then
    /// the merged project; `updated_at` becomes the current time.
    pub fn update(self, input: ProjectInput) -> (r: Result<Self, ValidationErrors>)
        ensures
            !project_input_valid(input) ==> (r matches Err(e) && e.wf() && e@ == project_input_errors(input)),
            project_input_valid(input) ==> {
                let merged = self.applied(input);
                &&& (r is Ok <==> merged.fields_valid())
                &&& (r matches Err(e) ==> e.wf() && e@ == merged.errors())
                &&& (r matches Ok(p) ==> p == Project { updated_at: p.updated_at, ..merged })
            },
    {
        let now = now_micros();
        self.update_at(input, now)
    }

    /// Public projects are visible to everyone; private ones to the owner and members.
    pub open spec fn may_view(&self, user_id: u128, member_role: Option<MemberRole>) -> bool {
        self.is_public || self.owner_id == user_id || member_role is Some
    }

    /// Commenting needs ownership or membership (any role).
    pub open spec fn may_comment(&self, user_id: u128, member_role: Option<MemberRole>) -> bool {
        self.owner_id == user_id || member_role is Some
    }

    /// Writing issues needs ownership or the admin or member role (not viewer).
    pub open spec fn may_write_issues(&self, user_id: u128, member_role: Option<MemberRole>) -> bool {
        self.owner_id == user_id || member_role == Some(MemberRole::Admin) || member_role == Some(
            MemberRole::Member,
        )
    }

    /// Project settings are for the owner and admin members.
    pub open spec fn may_admin(&self, user_id: u128, member_role: Option<MemberRole>) -> bool {
        self.owner_id == user_id || member_role == Some(MemberRole::Admin)
    }

    /// Can the user see this project?
    pub fn can_view(&self, user_id: u128, member_role: Option<MemberRole>) -> (r: bool)
        ensures
            r == self.may_view(user_id, member_role),
    {
        self.is_public || self.owner_id == user_id || member_role.is_some()
    }

    /// Can the user comment on issues in this project?
    pub fn can_comment(&self, user_id: u128, member_role: Option<MemberRole>) -> (r: bool)
        ensures
            r == self.may_comment(user_id, member_role),
    {
        self.owner_id == user_id || member_role.is_some()
    }

    /// Can the user create and update issues?
    pub fn can_write_issues(&self, user_id: u128, member_role: Option<MemberRole>) -> (r: bool)
        ensures
            r == self.may_write_issues(user_id, member_role),
    {
        if self.owner_id == user_id {
            return true;
        }
        match member_role {
            Some(MemberRole::Admin) | Some(MemberRole::Member) => true,
            _ => false,
        }
    }

    /// Can the user modify project settings?
    pub fn can_admin(&self, user_id: u128, member_role: Option<MemberRole>) -> (r: bool)
        ensures
            r == self.may_admin(user_id, member_role),
    {
        if self.owner_id == user_id {
            return true;
        }
        match member_role {
            Some(MemberRole::Admin) => true,
            _ => false,
        }
    }
}

/// Permissions nest: whoever may administer a project may write its issues,
/// whoever may write issues may comment, and whoever may comment may view.
pub proof fn law_permission_hierarchy(p: Project, user_id: u128, role: Option<MemberRole>)
    ensures
        p.may_admin(user_id, role) ==> p.may_write_issues(user_id, role),
        p.may_write_issues(user_id, role) ==> p.may_comment(user_id, role),
        p.may_comment(user_id, role) ==> p.may_view(user_id, role),
{
}

/// The owner may do everything in the project, whatever role row they have.
pub proof fn law_owner_may_do_everything(p: Project, role: Option<MemberRole>)
    ensures
        p.may_view(p.owner_id, role),
        p.may_comment(p.owner_id, role),
        p.may_write_issues(p.owner_id, role),
        p.may_admin(p.owner_id, role),
{
}

/// A private project is invisible to a user who neither owns it nor is a member.
pub proof fn law_private_project_hidden_from_outsiders(p: Project, user_id: u128)
    requires
        !p.is_public,
        p.owner_id != user_id,
    ensures
        !p.may_view(user_id, None),
        !p.may_comment(user_id, None),
        !p.may_write_issues(user_id, None),
        !p.may_admin(user_id, None),
{
}

/// Everyone may view a public project, but visibility alone grants nothing more.
pub proof fn law_public_project_visible_to_all(p: Project, user_id: u128, role: Option<MemberRole>)
    requires
        p.is_public,
    ensures
        p.may_view(user_id, role),
        p.owner_id != user_id && role is None ==> !p.may_comment(user_id, role),
{
}

/// A viewer who does not own the project may view and comment, but neither
/// write issues nor administer it; a member may also write issues; an admin may do all.
pub proof fn law_member_roles(p: Project, user_id: u128)
    requires
        p.owner_id != user_id,
    ensures
        p.may_view(user_id, Some(MemberRole::Viewer)),
        p.may_comment(user_id, Some(MemberRole::Viewer)),
        !p.may_write_issues(user_id, Some(MemberRole::Viewer)),
        !p.may_admin(user_id, Some(MemberRole::Viewer)),
        p.may_write_issues(user_id, Some(MemberRole::Member)),
        !p.may_admin(user_id, Some(MemberRole::Member)),
        p.may_admin(user_id, Some(MemberRole::Admin)),
{
}

/// A request with every field absent.
pub open spec fn empty_project_input() -> ProjectInput {
    ProjectInput {
        name: PatchField::Absent,
        identifier: PatchField::Absent,
        description: PatchField::Absent,
        is_public: PatchField::Absent,
    }
}

/// Omitted fields are left unchanged: an empty request changes nothing and passes its checks.
pub proof fn law_empty_input_changes_nothing(p: Project)
    ensures
        p.applied(empty_project_input()) == p,
        project_input_errors(empty_project_input()) == Map::<Seq<char>, Seq<Seq<char>>>::empty(),
{
    assert(project_input_errors(empty_project_input()) =~= Map::<Seq<char>, Seq<Seq<char>>>::empty());
}

/// Applying a request sets exactly the present fields, keeps identity, owner
/// and times, and applying it twice is the same as once.
pub proof fn law_apply_sets_present_fields(p: Project, input: ProjectInput)
    ensures
        p.applied(input).id == p.id,
        p.applied(input).owner_id == p.owner_id,
        p.applied(input).created_at == p.created_at,
        p.applied(input).updated_at == p.updated_at,
        input.name matches PatchField::Value(v) ==> p.applied(input).name == v,
        input.name is Absent ==> p.applied(input).name == p.name,
        input.identifier matches PatchField::Value(v) ==> p.applied(input).identifier == v,
        input.identifier is Absent ==> p.applied(input).identifier == p.identifier,
        input.description matches PatchField::Value(v) ==> p.applied(input).description == v,
        input.description is Absent ==> p.applied(input).description == p.description,
        input.is_public matches PatchField::Value(v) ==> p.applied(input).is_public == v,
        input.is_public is Absent ==> p.applied(input).is_public == p.is_public,
        p.applied(input).applied(input) == p.applied(input),
{
}

} // verus!
