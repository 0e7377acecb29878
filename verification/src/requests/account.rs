use vstd::prelude::*;
use crate::search_filter::opt_view;
use crate::text::string_of;
use crate::validation::{
    failures, lemma_failures_from_checks, lemma_outcome_reports_failures, lemma_single_check,
    length_ok, opt_length_ok, reported, validation_outcome, FieldChecks, ValidationErrors,
};

verus! {

/// The body of a request that creates an account.
#[derive(Debug, Clone)]
pub struct CreateAccountRequest {
    pub name: String,
}

/// The checks on a new account: a name of 2 to 100 characters.
pub open spec fn create_account_checks(r: CreateAccountRequest) -> Seq<(Seq<char>, Seq<char>, bool)> {
    seq![("name"@, "length"@, length_ok(r.name@.len(), Some(2u64), Some(100u64)))]
}

/// A new account, as a request supplies it.
#[derive(Debug, Clone)]
pub struct NewAccount {
    pub name: String,
}

impl CreateAccountRequest {
    /// Validates the request.
    pub fn validate(&self) -> (r: Result<(), ValidationErrors>)
        ensures
            validation_outcome(r, create_account_checks(*self)),
    {
        let mut c = FieldChecks::new();
        c.check_length("name", &Some(string_of(self.name.as_str())), Some(2), Some(100));
        c.finish()
    }

    /// The account to create.
    pub fn to_new_model(&self) -> (m: NewAccount)
        ensures
            m.name@ == self.name@,
    {
        NewAccount { name: string_of(self.name.as_str()) }
    }
}

/// The body of a request that updates an account.
#[derive(Debug, Clone)]
pub struct UpdateAccountRequest {
    pub name: Option<String>,
}

/// The checks on an account update: a name, if given, of 2 to 100
/// characters.
pub open spec fn update_account_checks(r: UpdateAccountRequest) -> Seq<(Seq<char>, Seq<char>, bool)> {
    seq![("name"@, "length"@, opt_length_ok(r.name, Some(2u64), Some(100u64)))]
}

/// The changes to an account, stamped with the time of the update
/// (microseconds since the Unix epoch).
#[derive(Debug, Clone)]
pub struct AccountUpdate {
    pub name: Option<String>,
    pub updated_at: i64,
}

impl UpdateAccountRequest {
    /// Validates the request.
    pub fn validate(&self) -> (r: Result<(), ValidationErrors>)
        ensures
            validation_outcome(r, update_account_checks(*self)),
    {
        let mut c = FieldChecks::new();
        c.check_length("name", &self.name, Some(2), Some(100));
        c.finish()
    }


    /// The changes to make, stamped with `now`.
    pub fn to_update_model(&self, now: i64) -> (u: AccountUpdate)
        ensures
            opt_view(u.name) == opt_view(self.name),
            u.updated_at == now,
    {
        AccountUpdate { name: crate::requests::user::clone_opt(&self.name), updated_at: now }
    }
}

/// A new account is accepted exactly when its name has 2 to 100
/// characters; otherwise the name is reported (`length`), and nothing else.
pub proof fn law_create_account_validation(req: CreateAccountRequest, res: Result<(), ValidationErrors>)
    requires
        validation_outcome(res, create_account_checks(req)),
    ensures
        reported(res).contains(("name"@, "length"@)) <==> (req.name@.len() < 2 || req.name@.len() > 100),
        forall|k: int|
            0 <= k < reported(res).len() ==> {
                let e = #[trigger] reported(res)[k];
                ||| e == ("name"@, "length"@)
            },
        res is Ok <==> reported(res).len() == 0,
{
    let checks = create_account_checks(req);
    lemma_outcome_reports_failures(res, checks);
    reveal_strlit("length");
    reveal_strlit("name");
    assert("length"@.len() == 6);
    assert("name"@.len() == 4);
    assert(checks.len() == 1);
    lemma_single_check(checks, 0);
    assert forall|k: int| 0 <= k < reported(res).len() implies {
        let e = #[trigger] reported(res)[k];
        ||| e == ("name"@, "length"@)
    } by {
        lemma_failures_from_checks(checks, k);
        let i = choose|i: int|
            0 <= i < checks.len() && (#[trigger] checks[i]).0 == failures(checks)[k].0 && checks[i].1
                == failures(checks)[k].1 && !checks[i].2;
        assert(0 <= i < 1);
    }
}

/// An account update is accepted exactly when a name, if given, has 2 to
/// 100 characters; otherwise the name is reported (`length`), and nothing
/// else.
pub proof fn law_update_account_validation(req: UpdateAccountRequest, res: Result<(), ValidationErrors>)
    requires
        validation_outcome(res, update_account_checks(req)),
    ensures
        reported(res).contains(("name"@, "length"@)) <==> (req.name is Some && (req.name.unwrap()@.len() < 2 || req.name.unwrap()@.len() > 100)),
        forall|k: int|
            0 <= k < reported(res).len() ==> {
                let e = #[trigger] reported(res)[k];
                ||| e == ("name"@, "length"@)
            },
        res is Ok <==> reported(res).len() == 0,
{
    let checks = update_account_checks(req);
    lemma_outcome_reports_failures(res, checks);
    reveal_strlit("length");
    reveal_strlit("name");
    assert("length"@.len() == 6);
    assert("name"@.len() == 4);
    assert(checks.len() == 1);
    lemma_single_check(checks, 0);
    assert forall|k: int| 0 <= k < reported(res).len() implies {
        let e = #[trigger] reported(res)[k];
        ||| e == ("name"@, "length"@)
    } by {
        lemma_failures_from_checks(checks, k);
        let i = choose|i: int|
            0 <= i < checks.len() && (#[trigger] checks[i]).0 == failures(checks)[k].0 && checks[i].1
                == failures(checks)[k].1 && !checks[i].2;
        assert(0 <= i < 1);
    }
}

} // verus!
