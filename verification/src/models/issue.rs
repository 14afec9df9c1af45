//! Issues: rows, list filters, and the create and update request bodies.
use vstd::prelude::*;
use crate::text::str_eq;
use crate::validation::rules::{char_len, char_len_outcome};
use crate::validation::{checked, failure, matches_errors, record_outcome, ErrorMap, ValidationErrors, Validator};

verus! {

/// An issue row. Ids are UUIDs as `u128`; `due_date` is a day number
/// (days from 0001-01-01, the proleptic Gregorian day 1); times are
/// microseconds since the Unix epoch.
#[derive(Debug)]
pub struct Issue {
    pub id: u128,
    pub project_id: u128,
    pub author_id: u128,
    pub assignee_id: Option<u128>,
    pub subject: String,
    pub description: String,
    pub issue_type: String,
    pub status: String,
    pub priority: String,
    pub due_date: Option<i32>,
    pub created_at: i64,
    pub updated_at: i64,
}

/// Optional filters for listing the issues of a project.
#[derive(Debug)]
pub struct IssueFilters {
    pub status: Option<String>,
    pub priority: Option<String>,
    pub assignee_id: Option<u128>,
}

/// One condition a list query adds to `project_id = ...`.
#[derive(Debug)]
pub enum IssueCondition {
    Status(String),
    Priority(String),
    AssigneeId(u128),
}

/// Request body for `POST /api/projects/:project_id/issues`.
#[derive(Debug)]
pub struct CreateIssueRequest {
    pub subject: String,
    pub description: String,
    pub assignee_id: Option<u128>,
    pub issue_type: String,
    pub status: String,
    pub priority: String,
    pub due_date: Option<i32>,
}

/// Request body for `PATCH /api/issues/:issue_id`; only present fields change.
/// For `assignee_id` and `due_date`, `Some(None)` clears the column.
#[derive(Debug)]
pub struct UpdateIssueRequest {
    pub subject: Option<String>,
    pub description: Option<String>,
    pub assignee_id: Option<Option<u128>>,
    pub issue_type: Option<String>,
    pub status: Option<String>,
    pub priority: Option<String>,
    pub due_date: Option<Option<i32>>,
}

/// One column an update sets, besides `updated_at`.
#[derive(Debug)]
pub enum IssueAssignment {
    Subject(String),
    IssueType(String),
    Status(String),
    Priority(String),
    Description(String),
    AssigneeId(Option<u128>),
    DueDate(Option<i32>),
}

pub open spec fn is_issue_type(s: Seq<char>) -> bool {
    s == "bug"@ || s == "feature"@ || s == "task"@ || s == "support"@
}

pub open spec fn is_status(s: Seq<char>) -> bool {
    s == "open"@ || s == "in_progress"@ || s == "resolved"@ || s == "closed"@ || s == "feedback"@
}

pub open spec fn is_priority(s: Seq<char>) -> bool {
    s == "low"@ || s == "normal"@ || s == "high"@ || s == "urgent"@ || s == "immediate"@
}

pub open spec fn issue_type_outcome(s: Seq<char>) -> Option<Seq<char>> {
    if is_issue_type(s) {
        None
    } else {
        Some("Issue type must be one of: bug, feature, task, support."@)
    }
}

pub open spec fn status_outcome(s: Seq<char>) -> Option<Seq<char>> {
    if is_status(s) {
        None
    } else {
        Some("Status must be one of: open, in_progress, resolved, closed, feedback."@)
    }
}

pub open spec fn priority_outcome(s: Seq<char>) -> Option<Seq<char>> {
    if is_priority(s) {
        None
    } else {
        Some("Priority must be one of: low, normal, high, urgent, immediate."@)
    }
}

/// Accepts bug, feature, task and support.
pub fn validate_issue_type(value: &str) -> (r: Result<(), String>)
    ensures
        failure(r) == issue_type_outcome(value@),
{
    if str_eq(value, "bug") || str_eq(value, "feature") || str_eq(value, "task") || str_eq(value, "support") {
        Ok(())
    } else {
        Err("Issue type must be one of: bug, feature, task, support.".to_string())
    }
}

/// Accepts open, in_progress, resolved, closed and feedback.
pub fn validate_status(value: &str) -> (r: Result<(), String>)
    ensures
        failure(r) == status_outcome(value@),
{
    if str_eq(value, "open") || str_eq(value, "in_progress") || str_eq(value, "resolved")
        || str_eq(value, "closed") || str_eq(value, "feedback") {
        Ok(())
    } else {
        Err("Status must be one of: open, in_progress, resolved, closed, feedback.".to_string())
    }
}

/// Accepts low, normal, high, urgent and immediate.
pub fn validate_priority(value: &str) -> (r: Result<(), String>)
    ensures
        failure(r) == priority_outcome(value@),
{
    if str_eq(value, "low") || str_eq(value, "normal") || str_eq(value, "high") || str_eq(value, "urgent")
        || str_eq(value, "immediate") {
        Ok(())
    } else {
        Err("Priority must be one of: low, normal, high, urgent, immediate.".to_string())
    }
}

/// The issue type when the request gives none.
pub fn default_issue_type() -> (s: String)
    ensures
        s@ == "task"@,
{
    "task".to_string()
}

/// The status when the request gives none.
pub fn default_status() -> (s: String)
    ensures
        s@ == "open"@,
{
    "open".to_string()
}

/// The priority when the request gives none.
pub fn default_priority() -> (s: String)
    ensures
        s@ == "normal"@,
{
    "normal".to_string()
}

pub open spec fn subject_outcome(s: Seq<char>) -> Option<Seq<char>> {
    char_len_outcome(Some(1), Some(300), "Subject must be between 1 and 300 characters."@, s)
}

pub open spec fn description_outcome(s: Seq<char>) -> Option<Seq<char>> {
    char_len_outcome(None, Some(10000), "Description must be at most 10,000 characters."@, s)
}

/// Errors of a create request.
pub open spec fn create_issue_errors(r: CreateIssueRequest) -> ErrorMap {
    let m1 = record_outcome(Map::empty(), "subject"@, subject_outcome(r.subject@));
    let m2 = record_outcome(m1, "description"@, description_outcome(r.description@));
    let m3 = record_outcome(m2, "issue_type"@, issue_type_outcome(r.issue_type@));
    let m4 = record_outcome(m3, "status"@, status_outcome(r.status@));
    record_outcome(m4, "priority"@, priority_outcome(r.priority@))
}

pub open spec fn text_subject(o: Option<String>) -> Option<Seq<char>> {
    match o {
        Some(v) => Some(v@),
        None => None,
    }
}

/// Errors of an update request, on the present fields only.
pub open spec fn update_issue_errors(r: UpdateIssueRequest) -> ErrorMap {
    let m1 = checked(Map::empty(), "subject"@, text_subject(r.subject), |s: Seq<char>| subject_outcome(s));
    let m2 = checked(m1, "description"@, text_subject(r.description), |s: Seq<char>| description_outcome(s));
    let m3 = checked(m2, "issue_type"@, text_subject(r.issue_type), |s: Seq<char>| issue_type_outcome(s));
    let m4 = checked(m3, "status"@, text_subject(r.status), |s: Seq<char>| status_outcome(s));
    checked(m4, "priority"@, text_subject(r.priority), |s: Seq<char>| priority_outcome(s))
}

impl CreateIssueRequest {
    /// Subject 1 to 300 characters, description at most 10,000 characters, and
    /// a known issue type, status and priority.
    pub fn validate(&self) -> (r: Result<(), ValidationErrors>)
        ensures
            matches_errors(r, create_issue_errors(*self)),
    {
        let mut v = Validator::new();
        v.field("subject", &self.subject).check(
            char_len(Some(1), Some(300), "Subject must be between 1 and 300 characters."),
        );
        v.field("description", &self.description).check(
            char_len(None, Some(10000), "Description must be at most 10,000 characters."),
        );
        v.field("issue_type", &self.issue_type).check(validate_issue_type);
        v.field("status", &self.status).check(validate_status);
        v.field("priority", &self.priority).check(validate_priority);
        v.finish()
    }
}

impl UpdateIssueRequest {
    /// The checks of `CreateIssueRequest::validate`, on the present fields only.
    pub fn validate(&self) -> (r: Result<(), ValidationErrors>)
        ensures
            matches_errors(r, update_issue_errors(*self)),
    {
        let mut v = Validator::new();
        v.field("subject", &self.subject).check(
            char_len(Some(1), Some(300), "Subject must be between 1 and 300 characters."),
        );
        v.field("description", &self.description).check(
            char_len(None, Some(10000), "Description must be at most 10,000 characters."),
        );
        v.field("issue_type", &self.issue_type).check(validate_issue_type);
        v.field("status", &self.status).check(validate_status);
        v.field("priority", &self.priority).check(validate_priority);
        v.finish()
    }
}

/// `s` followed by `x` when present.
pub open spec fn push_some<T>(s: Seq<T>, x: Option<T>) -> Seq<T> {
    match x {
        Some(v) => s.push(v),
        None => s,
    }
}

/// The conditions a filter adds, in order: status, priority, assignee.
pub open spec fn filter_conditions(f: IssueFilters) -> Seq<IssueCondition> {
    let s1 = push_some(Seq::empty(), match f.status { Some(v) => Some(IssueCondition::Status(v)), None => None });
    let s2 = push_some(s1, match f.priority { Some(v) => Some(IssueCondition::Priority(v)), None => None });
    push_some(s2, match f.assignee_id { Some(v) => Some(IssueCondition::AssigneeId(v)), None => None })
}

/// The columns an update sets, in order: subject, issue type, status,
/// priority, description, assignee, due date.
pub open spec fn update_assignments(r: UpdateIssueRequest) -> Seq<IssueAssignment> {
    let s1 = push_some(Seq::empty(), match r.subject { Some(v) => Some(IssueAssignment::Subject(v)), None => None });
    let s2 = push_some(s1, match r.issue_type { Some(v) => Some(IssueAssignment::IssueType(v)), None => None });
    let s3 = push_some(s2, match r.status { Some(v) => Some(IssueAssignment::Status(v)), None => None });
    let s4 = push_some(s3, match r.priority { Some(v) => Some(IssueAssignment::Priority(v)), None => None });
    let s5 = push_some(s4, match r.description { Some(v) => Some(IssueAssignment::Description(v)), None => None });
    let s6 = push_some(s5, match r.assignee_id { Some(v) => Some(IssueAssignment::AssigneeId(v)), None => None });
    push_some(s6, match r.due_date { Some(v) => Some(IssueAssignment::DueDate(v)), None => None })
}

impl IssueFilters {
    /// The conditions these filters add to a list query.
    pub fn conditions(&self) -> (r: Vec<IssueCondition>)
        ensures
            r@ == filter_conditions(*self),
    {
        let mut out: Vec<IssueCondition> = Vec::new();
        if let Some(v) = &self.status {
            out.push(IssueCondition::Status(v.clone()));
        }
        if let Some(v) = &self.priority {
            out.push(IssueCondition::Priority(v.clone()));
        }
        if let Some(v) = self.assignee_id {
            out.push(IssueCondition::AssigneeId(v));
        }
        out
    }
}

impl UpdateIssueRequest {
    /// The columns this request sets.
    pub fn assignments(&self) -> (r: Vec<IssueAssignment>)
        ensures
            r@ == update_assignments(*self),
    {
        let mut out: Vec<IssueAssignment> = Vec::new();
        if let Some(v) = &self.subject {
            out.push(IssueAssignment::Subject(v.clone()));
        }
        if let Some(v) = &self.issue_type {
            out.push(IssueAssignment::IssueType(v.clone()));
        }
        if let Some(v) = &self.status {
            out.push(IssueAssignment::Status(v.clone()));
        }
        if let Some(v) = &self.priority {
            out.push(IssueAssignment::Priority(v.clone()));
        }
        if let Some(v) = &self.description {
            out.push(IssueAssignment::Description(v.clone()));
        }
        if let Some(v) = self.assignee_id {
            out.push(IssueAssignment::AssigneeId(v));
        }
        if let Some(v) = self.due_date {
            out.push(IssueAssignment::DueDate(v));
        }
        out
    }
}

/// 1 when `o` is present, else 0.
pub open spec fn present<T>(o: Option<T>) -> nat {
    if o is Some { 1 } else { 0 }
}

/// Each present filter yields exactly one condition, on its own column and
/// with its own value, and nothing else is filtered on.
pub proof fn law_filter_conditions(f: IssueFilters)
    ensures
        forall|v: String| #[trigger] filter_conditions(f).contains(IssueCondition::Status(v)) <==> f.status == Some(v),
        forall|v: String| #[trigger] filter_conditions(f).contains(IssueCondition::Priority(v)) <==> f.priority == Some(v),
        forall|v: u128| #[trigger] filter_conditions(f).contains(IssueCondition::AssigneeId(v)) <==> f.assignee_id == Some(v),
        filter_conditions(f).len() == present(f.status) + present(f.priority) + present(f.assignee_id),
{
    let c = filter_conditions(f);
    assert forall|v: String| #[trigger] c.contains(IssueCondition::Status(v)) <==> f.status == Some(v) by {
        if f.status == Some(v) {
            assert(c[0] == IssueCondition::Status(v));
        }
    }
    assert forall|v: String| #[trigger] c.contains(IssueCondition::Priority(v)) <==> f.priority == Some(v) by {
        if f.priority == Some(v) {
            assert(c[present(f.status) as int] == IssueCondition::Priority(v));
        }
    }
    assert forall|v: u128| #[trigger] c.contains(IssueCondition::AssigneeId(v)) <==> f.assignee_id == Some(v) by {
        if f.assignee_id == Some(v) {
            assert(c[(present(f.status) + present(f.priority)) as int] == IssueCondition::AssigneeId(v));
        }
    }
}

/// Each present field of an update yields exactly one assignment, to its own
/// column and with its own value (for `assignee_id` and `due_date`, `Some(None)`
/// clears the column); absent fields set nothing.
pub proof fn law_update_assignments(r: UpdateIssueRequest)
    ensures
        forall|v: String| #[trigger] update_assignments(r).contains(IssueAssignment::Subject(v)) <==> r.subject == Some(v),
        forall|v: String| #[trigger] update_assignments(r).contains(IssueAssignment::IssueType(v)) <==> r.issue_type == Some(v),
        forall|v: String| #[trigger] update_assignments(r).contains(IssueAssignment::Status(v)) <==> r.status == Some(v),
        forall|v: String| #[trigger] update_assignments(r).contains(IssueAssignment::Priority(v)) <==> r.priority == Some(v),
        forall|v: String| #[trigger] update_assignments(r).contains(IssueAssignment::Description(v)) <==> r.description == Some(v),
        forall|v: Option<u128>| #[trigger] update_assignments(r).contains(IssueAssignment::AssigneeId(v)) <==> r.assignee_id == Some(v),
        forall|v: Option<i32>| #[trigger] update_assignments(r).contains(IssueAssignment::DueDate(v)) <==> r.due_date == Some(v),
        update_assignments(r).len() == present(r.subject) + present(r.issue_type) + present(r.status) + present(r.priority)
            + present(r.description) + present(r.assignee_id) + present(r.due_date),
{
    let a = update_assignments(r);
    let n1 = present(r.subject);
    let n2 = n1 + present(r.issue_type);
    let n3 = n2 + present(r.status);
    let n4 = n3 + present(r.priority);
    let n5 = n4 + present(r.description);
    let n6 = n5 + present(r.assignee_id);
    assert forall|v: String| #[trigger] a.contains(IssueAssignment::Subject(v)) <==> r.subject == Some(v) by {
        if r.subject == Some(v) {
            assert(a[0] == IssueAssignment::Subject(v));
        }
    }
    assert forall|v: String| #[trigger] a.contains(IssueAssignment::IssueType(v)) <==> r.issue_type == Some(v) by {
        if r.issue_type == Some(v) {
            assert(a[n1 as int] == IssueAssignment::IssueType(v));
        }
    }
    assert forall|v: String| #[trigger] a.contains(IssueAssignment::Status(v)) <==> r.status == Some(v) by {
        if r.status == Some(v) {
            assert(a[n2 as int] == IssueAssignment::Status(v));
        }
    }
    assert forall|v: String| #[trigger] a.contains(IssueAssignment::Priority(v)) <==> r.priority == Some(v) by {
        if r.priority == Some(v) {
            assert(a[n3 as int] == IssueAssignment::Priority(v));
        }
    }
    assert forall|v: String| #[trigger] a.contains(IssueAssignment::Description(v)) <==> r.description == Some(v) by {
        if r.description == Some(v) {
            assert(a[n4 as int] == IssueAssignment::Description(v));
        }
    }
    assert forall|v: Option<u128>| #[trigger] a.contains(IssueAssignment::AssigneeId(v)) <==> r.assignee_id == Some(v) by {
        if r.assignee_id == Some(v) {
            assert(a[n5 as int] == IssueAssignment::AssigneeId(v));
        }
    }
    assert forall|v: Option<i32>| #[trigger] a.contains(IssueAssignment::DueDate(v)) <==> r.due_date == Some(v) by {
        if r.due_date == Some(v) {
            assert(a[n6 as int] == IssueAssignment::DueDate(v));
        }
    }
}

/// A create request is accepted only with an issue type of bug, feature, task
/// or support, a status of open, in_progress, resolved, closed or feedback,
/// and a priority of low, normal, high, urgent or immediate. An unknown value
/// puts exactly its field's message under that field; a known one puts
/// nothing there.
pub proof fn law_create_issue_enumerations(r: CreateIssueRequest)
    ensures
        create_issue_errors(r) == Map::<Seq<char>, Seq<Seq<char>>>::empty() ==> {
            &&& (r.issue_type@ == "bug"@ || r.issue_type@ == "feature"@ || r.issue_type@ == "task"@ || r.issue_type@ == "support"@)
            &&& (r.status@ == "open"@ || r.status@ == "in_progress"@ || r.status@ == "resolved"@ || r.status@ == "closed"@
                || r.status@ == "feedback"@)
            &&& (r.priority@ == "low"@ || r.priority@ == "normal"@ || r.priority@ == "high"@ || r.priority@ == "urgent"@
                || r.priority@ == "immediate"@)
        },
        (r.issue_type@ == "bug"@ || r.issue_type@ == "feature"@ || r.issue_type@ == "task"@ || r.issue_type@ == "support"@)
            <==> !create_issue_errors(r).contains_key("issue_type"@),
        !(r.issue_type@ == "bug"@ || r.issue_type@ == "feature"@ || r.issue_type@ == "task"@ || r.issue_type@ == "support"@)
            ==> create_issue_errors(r)["issue_type"@] == seq!["Issue type must be one of: bug, feature, task, support."@],
        (r.status@ == "open"@ || r.status@ == "in_progress"@ || r.status@ == "resolved"@ || r.status@ == "closed"@
            || r.status@ == "feedback"@) <==> !create_issue_errors(r).contains_key("status"@),
        !(r.status@ == "open"@ || r.status@ == "in_progress"@ || r.status@ == "resolved"@ || r.status@ == "closed"@
            || r.status@ == "feedback"@) ==> create_issue_errors(r)["status"@]
            == seq!["Status must be one of: open, in_progress, resolved, closed, feedback."@],
        (r.priority@ == "low"@ || r.priority@ == "normal"@ || r.priority@ == "high"@ || r.priority@ == "urgent"@
            || r.priority@ == "immediate"@) <==> !create_issue_errors(r).contains_key("priority"@),
        !(r.priority@ == "low"@ || r.priority@ == "normal"@ || r.priority@ == "high"@ || r.priority@ == "urgent"@
            || r.priority@ == "immediate"@) ==> create_issue_errors(r)["priority"@]
            == seq!["Priority must be one of: low, normal, high, urgent, immediate."@],
{
    reveal_strlit("subject");
    reveal_strlit("description");
    reveal_strlit("issue_type");
    reveal_strlit("status");
    reveal_strlit("priority");
    let m1 = record_outcome(Map::empty(), "subject"@, subject_outcome(r.subject@));
    let m2 = record_outcome(m1, "description"@, description_outcome(r.description@));
    let m3 = record_outcome(m2, "issue_type"@, issue_type_outcome(r.issue_type@));
    let m4 = record_outcome(m3, "status"@, status_outcome(r.status@));
    let m5 = record_outcome(m4, "priority"@, priority_outcome(r.priority@));
    assert("subject"@.len() == 7 && "description"@.len() == 11 && "issue_type"@.len() == 10);
    assert("status"@.len() == 6 && "priority"@.len() == 8);
    assert("subject"@ != "issue_type"@ && "description"@ != "issue_type"@);
    assert("subject"@ != "status"@ && "description"@ != "status"@ && "issue_type"@ != "status"@);
    assert("subject"@ != "priority"@ && "description"@ != "priority"@ && "issue_type"@ != "priority"@ && "status"@ != "priority"@);
    assert(!m2.contains_key("issue_type"@) && !m2.contains_key("status"@) && !m2.contains_key("priority"@));
    assert(!m3.contains_key("status"@) && !m3.contains_key("priority"@));
    assert(!m4.contains_key("priority"@));
    if issue_type_outcome(r.issue_type@) is Some {
        assert(m5.contains_key("issue_type"@));
    }
    if status_outcome(r.status@) is Some {
        assert(m5.contains_key("status"@));
    }
    if priority_outcome(r.priority@) is Some {
        assert(m5.contains_key("priority"@));
    }
}

} // verus!
