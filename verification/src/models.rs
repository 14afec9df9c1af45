//! Request and row models, PATCH fields and pagination.
use vstd::prelude::*;
use crate::validation::Validatable;

pub mod project;
pub mod user;
pub mod issue;
pub mod comment;

verus! {

/// Field wrapper for PATCH endpoints, to tell an explicit value from an absent field.
#[derive(Debug, Clone, PartialEq)]
pub enum PatchField<T> {
    Value(T),
    Absent,
}

impl<T> Default for PatchField<T> {
    fn default() -> (r: Self)
        ensures
            r is Absent,
    {
        PatchField::Absent
    }
}

/// The value after applying `patch` to `current`: the patched value when
/// present, else `current` unchanged.
pub open spec fn patched<T>(current: T, patch: PatchField<T>) -> T {
    match patch {
        PatchField::Value(v) => v,
        PatchField::Absent => current,
    }
}

/// The text after applying a text patch to `current`.
pub open spec fn patched_text(current: Seq<char>, patch: PatchField<String>) -> Seq<char> {
    match patch {
        PatchField::Value(v) => v@,
        PatchField::Absent => current,
    }
}

/// `PatchField<String>` applies `&str` rules to its value and skips them when absent.
impl Validatable for PatchField<String> {
    open spec fn subject(&self) -> Option<Seq<char>> {
        match self {
            PatchField::Value(v) => Some(v@),
            PatchField::Absent => None,
        }
    }

    fn apply<F: FnOnce(&str) -> Result<(), String>>(&self, f: F) -> (r: Result<(), String>) {
        match self {
            PatchField::Value(v) => f(v.as_str()),
            PatchField::Absent => Ok(()),
        }
    }
}

/// Query parameters for paginated list endpoints; absent values take defaults.
#[derive(Debug, Clone, Copy)]
pub struct PaginationParams {
    pub page: Option<i64>,
    pub limit: Option<i64>,
}

impl PaginationParams {
    /// The requested page, at least 1 (default 1).
    pub open spec fn page_spec(&self) -> i64 {
        match self.page {
            Some(p) => if p < 1 { 1 } else { p },
            None => 1,
        }
    }

    /// The requested page size, at most 100 (default 25).
    pub open spec fn limit_spec(&self) -> i64 {
        match self.limit {
            Some(l) => if l > 100 { 100 } else { l },
            None => 25,
        }
    }

    /// `(page - 1) * limit`, the number of rows skipped.
    pub open spec fn offset_spec(&self) -> int {
        (self.page_spec() - 1) * self.limit_spec()
    }

    pub fn page(&self) -> (r: i64)
        ensures
            r == self.page_spec(),
    {
        match self.page {
            Some(p) => if p < 1 { 1 } else { p },
            None => 1,
        }
    }

    pub fn limit(&self) -> (r: i64)
        ensures
            r == self.limit_spec(),
    {
        match self.limit {
            Some(l) => if l > 100 { 100 } else { l },
            None => 25,
        }
    }

    /// The row offset. The product must fit in an `i64` (it overflows otherwise).
    pub fn offset(&self) -> (r: i64)
        requires
            i64::MIN <= self.offset_spec() <= i64::MAX,
        ensures
            r == self.offset_spec(),
    {
        let page = self.page();
        let limit = self.limit();
        (page - 1) * limit
    }
}

/// Pages start at 1, page sizes are capped at 100, absent values default to
/// page 1 of 25 rows, and the first page skips no row.
pub proof fn law_pagination_bounds(p: PaginationParams)
    ensures
        p.page_spec() >= 1,
        p.limit_spec() <= 100,
        p.page is None ==> p.page_spec() == 1,
        p.limit is None ==> p.limit_spec() == 25,
        p.page_spec() == 1 ==> p.offset_spec() == 0,
        p.limit_spec() >= 0 ==> p.offset_spec() >= 0,
{
    assert(p.limit_spec() >= 0 ==> (p.page_spec() - 1) * p.limit_spec() >= 0) by (nonlinear_arith)
        requires
            p.page_spec() >= 1,
    ;
}

/// Standard envelope for paginated list responses.
#[derive(Debug)]
pub struct PaginatedResponse<T> {
    pub data: Vec<T>,
    pub total: i64,
    pub page: i64,
    pub limit: i64,
}

impl<T> PaginatedResponse<T> {
    pub fn new(data: Vec<T>, total: i64, params: &PaginationParams) -> (r: Self)
        ensures
            r.data == data,
            r.total == total,
            r.page == params.page_spec(),
            r.limit == params.limit_spec(),
    {
        PaginatedResponse { data, total, page: params.page(), limit: params.limit() }
    }
}

} // verus!
