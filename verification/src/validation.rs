//! Validation primitives: a `Validator` collects, per field, the messages of
//! every rule that failed; `FieldValidator::check` applies one rule to one field.
use vstd::prelude::*;

pub mod rules;

verus! {

/// Abstract value of the collected errors: field name to its messages, in
/// the order in which they were recorded.
pub type ErrorMap = Map<Seq<char>, Seq<Seq<char>>>;

/// The error map after recording `msg` for `field`.
pub open spec fn record_error(m: ErrorMap, field: Seq<char>, msg: Seq<char>) -> ErrorMap {
    if m.contains_key(field) {
        m.insert(field, m[field].push(msg))
    } else {
        m.insert(field, seq![msg])
    }
}

/// The error map after a rule on `field` produced `outcome` (`None` when it passed).
pub open spec fn record_outcome(m: ErrorMap, field: Seq<char>, outcome: Option<Seq<char>>) -> ErrorMap {
    match outcome {
        Some(msg) => record_error(m, field, msg),
        None => m,
    }
}

/// The error map after a rule with outcome function `outcome` ran on a field
/// whose value is `subject` (skipped when absent).
pub open spec fn checked(
    m: ErrorMap,
    field: Seq<char>,
    subject: Option<Seq<char>>,
    outcome: spec_fn(Seq<char>) -> Option<Seq<char>>,
) -> ErrorMap {
    match subject {
        Some(v) => record_outcome(m, field, outcome(v)),
        None => m,
    }
}

/// `r` is the result of finishing a validator whose errors are `m`.
pub open spec fn matches_errors(r: Result<(), ValidationErrors>, m: ErrorMap) -> bool {
    &&& (r is Ok <==> m == Map::<Seq<char>, Seq<Seq<char>>>::empty())
    &&& (r matches Err(e) ==> e.wf() && e@ == m)
}

/// Recording an outcome leaves the map empty only when it was empty and the rule passed.
pub proof fn lemma_record_outcome_empty(m: ErrorMap, field: Seq<char>, outcome: Option<Seq<char>>)
    ensures
        (record_outcome(m, field, outcome) == Map::<Seq<char>, Seq<Seq<char>>>::empty()) <==> (m
            == Map::<Seq<char>, Seq<Seq<char>>>::empty() && outcome is None),
{
    if outcome is Some {
        assert(record_outcome(m, field, outcome).contains_key(field));
    }
}

/// Recording an error appends its message to the field's list (creating the
/// list) and leaves every other field as it was: no error is ever lost.
pub proof fn law_record_error_appends(m: ErrorMap, field: Seq<char>, msg: Seq<char>)
    ensures
        record_error(m, field, msg).contains_key(field),
        record_error(m, field, msg)[field] == (if m.contains_key(field) { m[field] } else { Seq::empty() }).push(msg),
        forall|g: Seq<char>| g != field ==> #[trigger] record_error(m, field, msg).contains_key(g) == m.contains_key(g),
        forall|g: Seq<char>| g != field && m.contains_key(g) ==> #[trigger] record_error(m, field, msg)[g] == m[g],
{
    if !m.contains_key(field) {
        assert(seq![msg] =~= Seq::<Seq<char>>::empty().push(msg));
    }
}

/// A rule on an absent value records nothing; a rule on a present value
/// records exactly the message of its outcome.
pub proof fn law_absent_values_skip_rules(m: ErrorMap, field: Seq<char>, outcome: spec_fn(Seq<char>) -> Option<Seq<char>>, v: Seq<char>)
    ensures
        checked(m, field, None, outcome) == m,
        checked(m, field, Some(v), outcome) == record_outcome(m, field, outcome(v)),
{
}

/// The message carried by a rule result, if the rule failed.
pub open spec fn failure(r: Result<(), String>) -> Option<Seq<char>> {
    match r {
        Ok(()) => None,
        Err(e) => Some(e@),
    }
}

/// Field-level validation failures: for each failing field, its messages.
#[derive(Debug)]
pub struct ValidationErrors {
    entries: Vec<(String, Vec<String>)>,
}

impl ValidationErrors {
    /// Well-formedness: each field occurs once and has at least one message.
    pub closed spec fn wf(self) -> bool {
        &&& forall|i: int, j: int|
            0 <= i < j < self.entries@.len() ==> #[trigger] self.entries@[i].0@
                != #[trigger] self.entries@[j].0@
        &&& forall|i: int| 0 <= i < self.entries@.len() ==> #[trigger] self.entries@[i].1@.len() > 0
    }

    closed spec fn has_key(self, k: Seq<char>) -> bool {
        exists|i: int| 0 <= i < self.entries@.len() && #[trigger] self.entries@[i].0@ == k
    }

    closed spec fn key_index(self, k: Seq<char>) -> int {
        choose|i: int| 0 <= i < self.entries@.len() && #[trigger] self.entries@[i].0@ == k
    }

    pub closed spec fn map(self) -> ErrorMap {
        Map::new(
            |k: Seq<char>| self.has_key(k),
            |k: Seq<char>| self.entries@[self.key_index(k)].1@.map_values(|m: String| m@),
        )
    }

    /// No errors.
    pub fn new() -> (r: Self)
        ensures
            r.wf(),
            r@ == Map::<Seq<char>, Seq<Seq<char>>>::empty(),
    {
        let r = ValidationErrors { entries: Vec::new() };
        assert(r@ =~= Map::<Seq<char>, Seq<Seq<char>>>::empty());
        r
    }

    pub fn is_empty(&self) -> (b: bool)
        ensures
            b <==> self@ == Map::<Seq<char>, Seq<Seq<char>>>::empty(),
    {
        if self.entries.len() == 0 {
            assert(self@ =~= Map::<Seq<char>, Seq<Seq<char>>>::empty());
            true
        } else {
            assert(self@.contains_key(self.entries@[0].0@));
            false
        }
    }

    proof fn lemma_key_index(self, k: Seq<char>, i: int)
        requires
            self.wf(),
            0 <= i < self.entries@.len(),
            self.entries@[i].0@ == k,
        ensures
            self.has_key(k),
            self.key_index(k) == i,
    {
        let j = self.key_index(k);
        assert(0 <= j < self.entries@.len() && self.entries@[j].0@ == k);
        if j < i {
            assert(self.entries@[j].0@ != self.entries@[i].0@);
        } else if i < j {
            assert(self.entries@[i].0@ != self.entries@[j].0@);
        }
    }

    /// The messages recorded for `field`, if any.
    pub fn get(&self, field: &str) -> (r: Option<&Vec<String>>)
        requires
            self.wf(),
        ensures
            r is Some <==> self@.contains_key(field@),
            r matches Some(v) ==> v@.map_values(|m: String| m@) == self@[field@],
    {
        let key = field.to_string();
        let n = self.entries.len();
        let mut i: usize = 0;
        while i < n
            invariant
                n == self.entries@.len(),
                0 <= i <= n,
                self.wf(),
                key@ == field@,
                forall|j: int| 0 <= j < i ==> #[trigger] self.entries@[j].0@ != key@,
            decreases n - i,
        {
            if self.entries[i].0 == key {
                proof { self.lemma_key_index(key@, i as int); }
                return Some(&self.entries[i].1);
            }
            i += 1;
        }
        None
    }

    /// The failing fields with their messages, in the order the fields first
    /// failed: each field once, with exactly the messages the map holds for it.
    pub fn entries(&self) -> (r: &Vec<(String, Vec<String>)>)
        ensures
            self.wf() ==> forall|i: int, j: int|
                0 <= i < j < r@.len() ==> #[trigger] r@[i].0@ != #[trigger] r@[j].0@,
            self.wf() ==> forall|i: int|
                0 <= i < r@.len() ==> #[trigger] self@.contains_key(r@[i].0@) && self@[r@[i].0@]
                    == r@[i].1@.map_values(|m: String| m@),
            forall|k: Seq<char>| #[trigger] self@.contains_key(k) ==> exists|i: int| 0 <= i < r@.len() && #[trigger] r@[i].0@ == k,
    {
        proof {
            if self.wf() {
                assert forall|i: int| 0 <= i < self.entries@.len() implies #[trigger] self@.contains_key(self.entries@[i].0@)
                    && self@[self.entries@[i].0@] == self.entries@[i].1@.map_values(|m: String| m@) by {
                    self.lemma_key_index(self.entries@[i].0@, i);
                }
            }
        }
        &self.entries
    }

    /// Records `msg` for `field`.
    pub fn push(&mut self, field: &str, msg: String)
        requires
            old(self).wf(),
        ensures
            final(self).wf(),
            final(self)@ == record_error(old(self)@, field@, msg@),
    {
        let key = field.to_string();
        let n = self.entries.len();
        let mut i: usize = 0;
        while i < n
            invariant
                n == self.entries@.len(),
                0 <= i <= n,
                *self == *old(self),
                old(self).wf(),
                key@ == field@,
                forall|j: int| 0 <= j < i ==> #[trigger] self.entries@[j].0@ != key@,
            decreases n - i,
        {
            if self.entries[i].0 == key {
                proof { old(self).lemma_key_index(key@, i as int); }
                self.entries[i].1.push(msg);
                proof {
                    let o = *old(self);
                    let s = *self;
                    assert(s.entries@ == o.entries@.update(i as int, (o.entries@[i as int].0, s.entries@[i as int].1)));
                    s.lemma_key_index(key@, i as int);
                    assert forall|k: Seq<char>| #[trigger] s.has_key(k) == o.has_key(k) by {
                        if s.has_key(k) {
                            let j = choose|j: int| 0 <= j < s.entries@.len() && #[trigger] s.entries@[j].0@ == k;
                            assert(o.entries@[j].0@ == k);
                        }
                        if o.has_key(k) {
                            let j = choose|j: int| 0 <= j < o.entries@.len() && #[trigger] o.entries@[j].0@ == k;
                            assert(s.entries@[j].0@ == k);
                        }
                    }
                    assert forall|k: Seq<char>| s.has_key(k) && k != key@ implies
                        #[trigger] s.entries@[s.key_index(k)].1@ == o.entries@[o.key_index(k)].1@ by {
                        let j = s.key_index(k);
                        assert(o.entries@[j].0@ == k);
                        o.lemma_key_index(k, j);
                    }
                    o.lemma_key_index(key@, i as int);
                    assert(s.entries@[i as int].1@ == o.entries@[i as int].1@.push(msg));
                    assert(s.entries@[i as int].1@.map_values(|m: String| m@)
                        =~= o.entries@[i as int].1@.map_values(|m: String| m@).push(msg@));
                    assert(s@ =~= record_error(o@, field@, msg@));
                }
                return;
            }
            i += 1;
        }
        let mut msgs: Vec<String> = Vec::new();
        msgs.push(msg);
        self.entries.push((key, msgs));
        proof {
            let o = *old(self);
            let s = *self;
            assert(s.entries@ == o.entries@.push(s.entries@[n as int]));
            s.lemma_key_index(key@, n as int);
            assert(!o.has_key(key@));
            assert forall|k: Seq<char>| k != key@ implies #[trigger] s.has_key(k) == o.has_key(k) by {
                if s.has_key(k) {
                    let j = choose|j: int| 0 <= j < s.entries@.len() && #[trigger] s.entries@[j].0@ == k;
                    assert(j != n);
                    assert(o.entries@[j].0@ == k);
                }
                if o.has_key(k) {
                    let j = choose|j: int| 0 <= j < o.entries@.len() && #[trigger] o.entries@[j].0@ == k;
                    assert(s.entries@[j].0@ == k);
                }
            }
            assert forall|k: Seq<char>| s.has_key(k) && k != key@ implies
                #[trigger] s.entries@[s.key_index(k)].1@ == o.entries@[o.key_index(k)].1@ by {
                let j = s.key_index(k);
                assert(j != n);
                assert(o.entries@[j].0@ == k);
                o.lemma_key_index(k, j);
            }
            assert(s.entries@[n as int].1@.map_values(|m: String| m@) =~= seq![msg@]);
            assert(s@ =~= record_error(o@, field@, msg@));
        }
    }
}

/// A well-formed error set lists no field without a message.
pub proof fn law_no_empty_field_lists(e: ValidationErrors)
    requires
        e.wf(),
    ensures
        forall|k: Seq<char>| #[trigger] e@.contains_key(k) ==> e@[k].len() > 0,
{
    assert forall|k: Seq<char>| #[trigger] e@.contains_key(k) implies e@[k].len() > 0 by {
        let i = e.key_index(k);
        assert(0 <= i < e.entries@.len() && e.entries@[i].0@ == k);
        assert(e.entries@[i].1@.len() > 0);
    }
}

impl View for ValidationErrors {
    type V = ErrorMap;

    closed spec fn view(&self) -> ErrorMap {
        self.map()
    }
}

/// A value that validation rules can be applied to. Absent values (an absent
/// `PatchField`, a `None`) skip every rule.
pub trait Validatable {
    /// The text the rules see, or `None` when the rules are skipped.
    spec fn subject(&self) -> Option<Seq<char>>;

    /// Applies `f` to the value when it is present; `Ok(())` when absent.
    fn apply<F: FnOnce(&str) -> Result<(), String>>(&self, f: F) -> (r: Result<(), String>)
        requires
            forall|s: &str| self.subject() == Some(s@) ==> #[trigger] f.requires((s,)),
        ensures
            rule_applied(self.subject(), f, r),
    ;
}

/// `r` is what applying `f` to `subject` can give: `Ok(())` when the subject is absent.
pub open spec fn rule_applied<F: FnOnce(&str) -> Result<(), String>>(
    subject: Option<Seq<char>>,
    f: F,
    r: Result<(), String>,
) -> bool {
    match subject {
        None => r == Ok::<(), String>(()),
        Some(v) => exists|s: &str| s@ == v && #[trigger] f.ensures((s,), r),
    }
}

impl Validatable for str {
    open spec fn subject(&self) -> Option<Seq<char>> {
        Some(self@)
    }

    fn apply<F: FnOnce(&str) -> Result<(), String>>(&self, f: F) -> (r: Result<(), String>) {
        f(self)
    }
}

impl Validatable for String {
    open spec fn subject(&self) -> Option<Seq<char>> {
        Some(self@)
    }

    fn apply<F: FnOnce(&str) -> Result<(), String>>(&self, f: F) -> (r: Result<(), String>) {
        f(self.as_str())
    }
}

impl Validatable for Option<String> {
    open spec fn subject(&self) -> Option<Seq<char>> {
        match self {
            Some(v) => Some(v@),
            None => None,
        }
    }

    fn apply<F: FnOnce(&str) -> Result<(), String>>(&self, f: F) -> (r: Result<(), String>) {
        match self {
            Some(v) => f(v.as_str()),
            None => Ok(()),
        }
    }
}

/// Collects validation errors; `finish` turns them into the result.
pub struct Validator(ValidationErrors);

impl View for Validator {
    type V = ErrorMap;

    closed spec fn view(&self) -> ErrorMap {
        self.0@
    }
}

impl Validator {
    pub closed spec fn wf(&self) -> bool {
        self.0.wf()
    }

    /// A validator with no errors recorded.
    pub fn new() -> (r: Self)
        ensures
            r.wf(),
            r@ == Map::<Seq<char>, Seq<Seq<char>>>::empty(),
    {
        Validator(ValidationErrors::new())
    }

    /// Begins validating the field `name`, whose value is `value`.
    pub fn field<'a, V: Validatable + ?Sized>(&'a mut self, name: &'a str, value: &'a V) -> (r:
        FieldValidator<'a, V>)
        requires
            old(self).wf(),
        ensures
            r.field == name,
            r.value == value,
            *r.validator == *old(self),
            *final(self) == *final(r.validator),
    {
        FieldValidator { validator: self, field: name, value }
    }

    /// Records `msg` for `field`.
    fn push_error(&mut self, field: &str, msg: String)
        requires
            old(self).wf(),
        ensures
            final(self).wf(),
            final(self)@ == record_error(old(self)@, field@, msg@),
    {
        self.0.push(field, msg);
    }

    /// `Ok(())` when no error was recorded, else all recorded errors.
    pub fn finish(self) -> (r: Result<(), ValidationErrors>)
        requires
            self.wf(),
        ensures
            r is Ok <==> self@ == Map::<Seq<char>, Seq<Seq<char>>>::empty(),
            r matches Err(e) ==> e.wf() && e@ == self@,
            r matches Err(e) ==> forall|k: Seq<char>| #[trigger] e@.contains_key(k) ==> e@[k].len() > 0,
    {
        proof { law_no_empty_field_lists(self.0); }
        if self.0.is_empty() {
            Ok(())
        } else {
            Err(self.0)
        }
    }
}

impl Default for Validator {
    fn default() -> (r: Self)
        ensures
            r.wf(),
            r@ == Map::<Seq<char>, Seq<Seq<char>>>::empty(),
    {
        Self::new()
    }
}

/// Applies rules to one field, recording failures in the validator it borrows.
pub struct FieldValidator<'a, V: ?Sized> {
    pub validator: &'a mut Validator,
    pub field: &'a str,
    pub value: &'a V,
}

impl<'a, V: Validatable + ?Sized> FieldValidator<'a, V> {
    /// Applies rule `f` to the field value and records its message if it fails.
    pub fn check<F: FnOnce(&str) -> Result<(), String>>(&mut self, f: F) -> (r: &mut Self)
        requires
            old(self).validator.wf(),
            forall|s: &str| old(self).value.subject() == Some(s@) ==> #[trigger] f.requires((s,)),
        ensures
            r.field == old(self).field,
            r.value == old(self).value,
            r.validator.wf(),
            exists|res: Result<(), String>|
                rule_applied(old(self).value.subject(), f, res) && (*r.validator)@ == record_outcome(
                    (*old(self).validator)@,
                    old(self).field@,
                    failure(res),
                ),
            *final(r.validator) == *final(old(self).validator),
            *final(self) == *final(r),
    {
        let field = self.field;
        let value = self.value;
        let res = value.apply(f);
        match res {
            Err(e) => {
                self.validator.push_error(field, e);
            },
            Ok(()) => {},
        }
        self
    }
}

} // verus!
