//! Field validation of incoming requests, on the checks of the `validator`
//! crate, and the errors that a failed validation reports.
use vstd::prelude::*;
use crate::text::string_of;

verus! {

/// Whether the `validator` crate accepts a text as an e-mail address (the
/// HTML5 rules, with length limits on both sides of the `@`).
pub uninterp spec fn email_valid(s: Seq<char>) -> bool;

/// `validator::ValidateEmail::validate_email` on a text. The contract names
/// the verdict and states the one rule the crate's source applies first: an
/// empty text, or one without `@`, is refused.
#[verifier::external_body]
pub fn validate_email(s: &str) -> (r: bool)
    ensures
        r == email_valid(s@),
        r ==> s@.len() > 0 && s@.contains('@'),
{
    validator::ValidateEmail::validate_email(&s)
}

/// A length is within the optional bounds.
pub open spec fn length_ok(len: nat, min: Option<u64>, max: Option<u64>) -> bool {
    (match min {
        Some(m) => len >= m,
        None => true,
    }) && (match max {
        Some(m) => len <= m,
        None => true,
    })
}

/// `validator::ValidateLength::validate_length` on a text, without an exact
/// length: the crate counts the characters (`chars().count()`) and checks
/// them against the bounds given.
#[verifier::external_body]
pub fn validate_length(s: &str, min: Option<u64>, max: Option<u64>) -> (r: bool)
    ensures
        r == length_ok(s@.len(), min, max),
{
    validator::ValidateLength::<u64>::validate_length(&s, min, max, None)
}

/// One failed check: the field and the check's code (`length`, `email`).
#[derive(Debug, Clone)]
pub struct FieldError {
    pub field: String,
    pub code: String,
}

/// The failed checks of a request, in field order.
#[derive(Debug, Clone)]
pub struct ValidationErrors {
    pub field_errors: Vec<FieldError>,
}

/// The (field, code) of each failed check.
pub open spec fn error_views(v: Seq<FieldError>) -> Seq<(Seq<char>, Seq<char>)> {
    v.map_values(|e: FieldError| (e.field@, e.code@))
}

/// The (field, code) pairs of the checks that fail, in order; each check is
/// (field, code, passed).
pub open spec fn failures(checks: Seq<(Seq<char>, Seq<char>, bool)>) -> Seq<(Seq<char>, Seq<char>)>
    decreases checks.len(),
{
    if checks.len() == 0 {
        Seq::empty()
    } else {
        let rest = failures(checks.drop_last());
        if checks.last().2 {
            rest
        } else {
            rest.push((checks.last().0, checks.last().1))
        }
    }
}

/// The outcome of validating against a list of checks: success exactly when
/// every check passes, and otherwise the failed checks.
pub open spec fn validation_outcome(
    r: Result<(), ValidationErrors>,
    checks: Seq<(Seq<char>, Seq<char>, bool)>,
) -> bool {
    match r {
        Ok(()) => failures(checks).len() == 0,
        Err(e) => failures(checks).len() > 0 && error_views(e.field_errors@) == failures(checks),
    }
}

/// The (field, code) pairs that a validation result reports: none on
/// success, the failed checks otherwise.
pub open spec fn reported(r: Result<(), ValidationErrors>) -> Seq<(Seq<char>, Seq<char>)> {
    match r {
        Ok(()) => Seq::empty(),
        Err(e) => error_views(e.field_errors@),
    }
}

/// A pair is among the failures of `checks` exactly when some check with
/// that field and code failed.
pub proof fn lemma_failures_contains(checks: Seq<(Seq<char>, Seq<char>, bool)>, f: Seq<char>, c: Seq<char>)
    ensures
        failures(checks).contains((f, c)) <==> exists|i: int|
            0 <= i < checks.len() && (#[trigger] checks[i]).0 == f && checks[i].1 == c && !checks[i].2,
    decreases checks.len(),
{
    if checks.len() > 0 {
        let prev = checks.drop_last();
        lemma_failures_contains(prev, f, c);
        let last = checks.last();
        if exists|i: int| 0 <= i < prev.len() && (#[trigger] prev[i]).0 == f && prev[i].1 == c && !prev[i].2 {
            let i = choose|i: int| 0 <= i < prev.len() && (#[trigger] prev[i]).0 == f && prev[i].1 == c && !prev[i].2;
            assert(checks[i] == prev[i]);
        }
        if exists|i: int| 0 <= i < checks.len() && (#[trigger] checks[i]).0 == f && checks[i].1 == c && !checks[i].2 {
            let i = choose|i: int| 0 <= i < checks.len() && (#[trigger] checks[i]).0 == f && checks[i].1 == c && !checks[i].2;
            if i < prev.len() {
                assert(prev[i] == checks[i]);
            }
        }
        if !last.2 {
            let rest = failures(prev);
            assert(failures(checks) == rest.push((last.0, last.1)));
            if failures(checks).contains((f, c)) {
                let k = choose|k: int| 0 <= k < failures(checks).len() && failures(checks)[k] == (f, c);
                if k < rest.len() {
                    assert(rest[k] == (f, c));
                }
            }
            if rest.contains((f, c)) {
                let k = choose|k: int| 0 <= k < rest.len() && rest[k] == (f, c);
                assert(failures(checks)[k] == (f, c));
            }
            if last.0 == f && last.1 == c {
                assert(failures(checks)[rest.len() as int] == (f, c));
            }
        }
    }
}

/// Where exactly one check has a given field and code, that pair is among
/// the failures exactly when that check failed.
pub proof fn lemma_single_check(checks: Seq<(Seq<char>, Seq<char>, bool)>, idx: int)
    requires
        0 <= idx < checks.len(),
        forall|j: int|
            0 <= j < checks.len() && j != idx ==> !((#[trigger] checks[j]).0 == checks[idx].0 && checks[j].1
                == checks[idx].1),
    ensures
        failures(checks).contains((checks[idx].0, checks[idx].1)) <==> !checks[idx].2,
{
    lemma_failures_contains(checks, checks[idx].0, checks[idx].1);
}

/// Every pair among the failures of `checks` names a check that failed.
pub proof fn lemma_failures_from_checks(checks: Seq<(Seq<char>, Seq<char>, bool)>, k: int)
    requires
        0 <= k < failures(checks).len(),
    ensures
        exists|i: int|
            0 <= i < checks.len() && (#[trigger] checks[i]).0 == failures(checks)[k].0 && checks[i].1
                == failures(checks)[k].1 && !checks[i].2,
{
    let p = failures(checks)[k];
    assert(failures(checks).contains(p));
    lemma_failures_contains(checks, p.0, p.1);
}

/// What a validation result reports is the failures of its checks, and it
/// succeeds exactly when it reports none.
pub proof fn lemma_outcome_reports_failures(r: Result<(), ValidationErrors>, checks: Seq<(Seq<char>, Seq<char>, bool)>)
    requires
        validation_outcome(r, checks),
    ensures
        reported(r) == failures(checks),
        r is Ok <==> reported(r).len() == 0,
{
}

/// The length check of an optional text: passes when absent.
pub open spec fn opt_length_ok(s: Option<String>, min: Option<u64>, max: Option<u64>) -> bool {
    match s {
        Some(x) => length_ok(x@.len(), min, max),
        None => true,
    }
}

/// The e-mail check of an optional text: passes when absent.
pub open spec fn opt_email_ok(s: Option<String>) -> bool {
    match s {
        Some(x) => email_valid(x@),
        None => true,
    }
}

/// Collects failed checks.
pub(crate) struct FieldChecks {
    pub errors: Vec<FieldError>,
    pub checks: Ghost<Seq<(Seq<char>, Seq<char>, bool)>>,
}

impl FieldChecks {
    pub(crate) fn new() -> (c: Self)
        ensures
            c.checks@ == Seq::<(Seq<char>, Seq<char>, bool)>::empty(),
            error_views(c.errors@) == failures(c.checks@),
    {
        let c = FieldChecks { errors: Vec::new(), checks: Ghost(Seq::empty()) };
        assert(error_views(c.errors@) =~= Seq::empty());
        c
    }

    /// Records a check of `field` with code `code` that passed or not.
    pub(crate) fn check(&mut self, field: &str, code: &str, passed: bool)
        requires
            error_views(old(self).errors@) == failures(old(self).checks@),
        ensures
            final(self).checks@ == old(self).checks@.push((field@, code@, passed)),
            error_views(final(self).errors@) == failures(final(self).checks@),
    {
        proof {
            self.checks@ = self.checks@.push((field@, code@, passed));
        }
        assert(self.checks@.drop_last() =~= old(self).checks@);
        if !passed {
            self.errors.push(FieldError { field: string_of(field), code: string_of(code) });
            assert(error_views(self.errors@) =~= failures(self.checks@));
        }
    }

    /// Checks an optional text's length, if present.
    pub(crate) fn check_length(&mut self, field: &str, s: &Option<String>, min: Option<u64>, max: Option<u64>)
        requires
            error_views(old(self).errors@) == failures(old(self).checks@),
        ensures
            final(self).checks@ == old(self).checks@.push((field@, "length"@, opt_length_ok(*s, min, max))),
            error_views(final(self).errors@) == failures(final(self).checks@),
    {
        let ok = match s {
            Some(x) => validate_length(x.as_str(), min, max),
            None => true,
        };
        self.check(field, "length", ok);
    }

    /// Checks an optional text is an e-mail address, if present.
    pub(crate) fn check_email(&mut self, field: &str, s: &Option<String>)
        requires
            error_views(old(self).errors@) == failures(old(self).checks@),
        ensures
            final(self).checks@ == old(self).checks@.push((field@, "email"@, opt_email_ok(*s))),
            error_views(final(self).errors@) == failures(final(self).checks@),
    {
        let ok = match s {
            Some(x) => validate_email(x.as_str()),
            None => true,
        };
        self.check(field, "email", ok);
    }

    /// The outcome of all checks made.
    pub(crate) fn finish(self) -> (r: Result<(), ValidationErrors>)
        requires
            error_views(self.errors@) == failures(self.checks@),
        ensures
            validation_outcome(r, self.checks@),
    {
        if self.errors.len() == 0 {
            Ok(())
        } else {
            Err(ValidationErrors { field_errors: self.errors })
        }
    }
}

/// A relationship as a JSON:API payload gives it: explicitly null, or
/// pointing at a resource whose id may or may not read as a number.
#[derive(Debug, Clone, Copy)]
pub struct RelationshipLink {
    pub is_null: bool,
    pub id: Option<i32>,
}

} // verus!
