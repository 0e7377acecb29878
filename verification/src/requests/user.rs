use vstd::prelude::*;
use crate::search_filter::opt_view;
use crate::text::string_of;
use crate::validation::{
    email_valid, failures, lemma_failures_from_checks, lemma_outcome_reports_failures,
    lemma_single_check, length_ok, opt_email_ok, opt_length_ok, reported, validation_outcome,
    FieldChecks, RelationshipLink, ValidationErrors,
};

verus! {

/// A copy of an optional text.
pub fn clone_opt(o: &Option<String>) -> (r: Option<String>)
    ensures
        opt_view(r) == opt_view(*o),
{
    match o {
        Some(s) => Some(string_of(s.as_str())),
        None => None,
    }
}

/// Flattens an optional optional text.
pub open spec fn flat_view(o: Option<Option<String>>) -> Option<Seq<char>> {
    match o {
        Some(x) => opt_view(x),
        None => None,
    }
}

/// A flattened copy of an optional optional text.
pub fn clone_flat(o: &Option<Option<String>>) -> (r: Option<String>)
    ensures
        opt_view(r) == flat_view(*o),
{
    match o {
        Some(x) => clone_opt(x),
        None => None,
    }
}

/// The body of a request that creates a user.
#[derive(Debug, Clone)]
pub struct CreateUserRequest {
    pub email: String,
    pub first_name: String,
    pub last_name: String,
    pub password: String,
    pub owner: Option<bool>,
    pub photo_filename: Option<String>,
    pub account_id: Option<i32>,
}

/// The checks on a new user: an e-mail address, names of 2 to 50 characters
/// and a password of 8 to 255.
pub open spec fn create_user_checks(r: CreateUserRequest) -> Seq<(Seq<char>, Seq<char>, bool)> {
    seq![
        ("email"@, "email"@, email_valid(r.email@)),
        ("first_name"@, "length"@, length_ok(r.first_name@.len(), Some(2u64), Some(50u64))),
        ("last_name"@, "length"@, length_ok(r.last_name@.len(), Some(2u64), Some(50u64))),
        ("password"@, "length"@, length_ok(r.password@.len(), Some(8u64), Some(255u64))),
    ]
}

/// A new user, as a request supplies it.
#[derive(Debug, Clone)]
pub struct NewUser {
    pub email: String,
    pub password: String,
    pub first_name: String,
    pub last_name: String,
    pub owner: bool,
    pub photo_filename: Option<String>,
    pub account_id: Option<i32>,
}

/// The account a record goes to when a request names none.
pub const DEFAULT_ACCOUNT_ID: i32 = 1i32;

impl CreateUserRequest {
    /// Validates the request.
    pub fn validate(&self) -> (r: Result<(), ValidationErrors>)
        ensures
            validation_outcome(r, create_user_checks(*self)),
    {
        let mut c = FieldChecks::new();
        c.check_email("email", &Some(string_of(self.email.as_str())));
        c.check_length("first_name", &Some(string_of(self.first_name.as_str())), Some(2), Some(50));
        c.check_length("last_name", &Some(string_of(self.last_name.as_str())), Some(2), Some(50));
        c.check_length("password", &Some(string_of(self.password.as_str())), Some(8), Some(255));
        assert(c.checks@ =~= create_user_checks(*self));
        c.finish()
    }

    /// Takes the account from the payload's `account` relationship, when it
    /// names one.
    pub fn apply_relationships(&mut self, account: Option<RelationshipLink>)
        ensures
            final(self).account_id == (match account {
                Some(l) => if l.id is Some {
                    l.id
                } else {
                    old(self).account_id
                },
                None => old(self).account_id,
            }),
            final(self).email == old(self).email,
            final(self).first_name == old(self).first_name,
            final(self).last_name == old(self).last_name,
            final(self).password == old(self).password,
            final(self).owner == old(self).owner,
            final(self).photo_filename == old(self).photo_filename,
    {
        if let Some(l) = account {
            if let Some(id) = l.id {
                self.account_id = Some(id);
            }
        }
    }

    /// The user to create: not an owner unless asked, in the default
    /// account unless one is named.
    pub fn to_new_model(&self) -> (m: NewUser)
        ensures
            m.email@ == self.email@,
            m.password@ == self.password@,
            m.first_name@ == self.first_name@,
            m.last_name@ == self.last_name@,
            m.owner == (match self.owner {
                Some(b) => b,
                None => false,
            }),
            opt_view(m.photo_filename) == opt_view(self.photo_filename),
            m.account_id == (match self.account_id {
                Some(a) => Some(a),
                None => Some(DEFAULT_ACCOUNT_ID),
            }),
    {
        NewUser {
            email: string_of(self.email.as_str()),
            password: string_of(self.password.as_str()),
            first_name: string_of(self.first_name.as_str()),
            last_name: string_of(self.last_name.as_str()),
            owner: match self.owner {
                Some(b) => b,
                None => false,
            },
            photo_filename: clone_opt(&self.photo_filename),
            account_id: match self.account_id {
                Some(a) => Some(a),
                None => Some(DEFAULT_ACCOUNT_ID),
            },
        }
    }
}

/// The body of a request that updates a user.
#[derive(Debug, Clone)]
pub struct UpdateUserRequest {
    pub email: Option<String>,
    pub first_name: Option<String>,
    pub last_name: Option<String>,
    pub owner: Option<bool>,
    pub photo_filename: Option<Option<String>>,
    pub account_id: Option<Option<i32>>,
}

/// The checks on a user update: each given field as on creation.
pub open spec fn update_user_checks(r: UpdateUserRequest) -> Seq<(Seq<char>, Seq<char>, bool)> {
    seq![
        ("email"@, "email"@, opt_email_ok(r.email)),
        ("first_name"@, "length"@, opt_length_ok(r.first_name, Some(2u64), Some(50u64))),
        ("last_name"@, "length"@, opt_length_ok(r.last_name, Some(2u64), Some(50u64))),
    ]
}

/// The changes to a user, stamped with the time of the update.
#[derive(Debug, Clone)]
pub struct UserUpdate {
    pub email: Option<String>,
    pub first_name: Option<String>,
    pub last_name: Option<String>,
    pub photo_filename: Option<String>,
    pub updated_at: i64,
}

/// The account a relationship sets on an update: null clears it, an id sets
/// it, anything else leaves the request as it was.
pub open spec fn updated_link(current: Option<Option<i32>>, link: Option<RelationshipLink>) -> Option<
    Option<i32>,
> {
    match link {
        Some(l) => if l.is_null {
            Some(None)
        } else if l.id is Some {
            Some(l.id)
        } else {
            current
        },
        None => current,
    }
}

impl UpdateUserRequest {
    /// Validates the request.
    pub fn validate(&self) -> (r: Result<(), ValidationErrors>)
        ensures
            validation_outcome(r, update_user_checks(*self)),
    {
        let mut c = FieldChecks::new();
        c.check_email("email", &self.email);
        c.check_length("first_name", &self.first_name, Some(2), Some(50));
        c.check_length("last_name", &self.last_name, Some(2), Some(50));
        assert(c.checks@ =~= update_user_checks(*self));
        c.finish()
    }

    /// Takes the account from the payload's `account` relationship.
    pub fn apply_relationships(&mut self, account: Option<RelationshipLink>)
        ensures
            final(self).account_id == updated_link(old(self).account_id, account),
            final(self).email == old(self).email,
            final(self).first_name == old(self).first_name,
            final(self).last_name == old(self).last_name,
            final(self).owner == old(self).owner,
            final(self).photo_filename == old(self).photo_filename,
    {
        if let Some(l) = account {
            if l.is_null {
                self.account_id = Some(None);
            } else if let Some(id) = l.id {
                self.account_id = Some(Some(id));
            }
        }
    }


    /// The changes to make, stamped with `now`: the given names and e-mail,
    /// and the photo when one is given.
    pub fn to_update_model(&self, now: i64) -> (u: UserUpdate)
        ensures
            opt_view(u.email) == opt_view(self.email),
            opt_view(u.first_name) == opt_view(self.first_name),
            opt_view(u.last_name) == opt_view(self.last_name),
            opt_view(u.photo_filename) == flat_view(self.photo_filename),
            u.updated_at == now,
    {
        UserUpdate {
            email: clone_opt(&self.email),
            first_name: clone_opt(&self.first_name),
            last_name: clone_opt(&self.last_name),
            photo_filename: clone_flat(&self.photo_filename),
            updated_at: now,
        }
    }
}

/// A new user is accepted exactly when its e-mail is an address, its first
/// and last names have 2 to 50 characters and its password 8 to 255; each
/// fault is reported under its field (`email`, `length`), and nothing
/// else.
pub proof fn law_create_user_validation(req: CreateUserRequest, res: Result<(), ValidationErrors>)
    requires
        validation_outcome(res, create_user_checks(req)),
    ensures
        reported(res).contains(("email"@, "email"@)) <==> !email_valid(req.email@),
        reported(res).contains(("first_name"@, "length"@)) <==> (req.first_name@.len() < 2 || req.first_name@.len() > 50),
        reported(res).contains(("last_name"@, "length"@)) <==> (req.last_name@.len() < 2 || req.last_name@.len() > 50),
        reported(res).contains(("password"@, "length"@)) <==> (req.password@.len() < 8 || req.password@.len() > 255),
        forall|k: int|
            0 <= k < reported(res).len() ==> {
                let e = #[trigger] reported(res)[k];
                ||| e == ("email"@, "email"@)
                ||| e == ("first_name"@, "length"@)
                ||| e == ("last_name"@, "length"@)
                ||| e == ("password"@, "length"@)
            },
        res is Ok <==> reported(res).len() == 0,
{
    let checks = create_user_checks(req);
    lemma_outcome_reports_failures(res, checks);
    reveal_strlit("email");
    reveal_strlit("first_name");
    reveal_strlit("last_name");
    reveal_strlit("length");
    reveal_strlit("password");
    assert("email"@.len() == 5);
    assert("first_name"@.len() == 10);
    assert("last_name"@.len() == 9);
    assert("length"@.len() == 6);
    assert("password"@.len() == 8);
    assert(checks.len() == 4);
    assert forall|i: int, j: int|
        0 <= i < 4 && 0 <= j < 4 && i != j implies !((#[trigger] checks[i]).0 == (#[trigger] checks[j]).0
        && checks[i].1 == checks[j].1) by {
    }
    lemma_single_check(checks, 0);
    lemma_single_check(checks, 1);
    lemma_single_check(checks, 2);
    lemma_single_check(checks, 3);
    assert forall|k: int| 0 <= k < reported(res).len() implies {
        let e = #[trigger] reported(res)[k];
        ||| e == ("email"@, "email"@)
        ||| e == ("first_name"@, "length"@)
        ||| e == ("last_name"@, "length"@)
        ||| e == ("password"@, "length"@)
    } by {
        lemma_failures_from_checks(checks, k);
        let i = choose|i: int|
            0 <= i < checks.len() && (#[trigger] checks[i]).0 == failures(checks)[k].0 && checks[i].1
                == failures(checks)[k].1 && !checks[i].2;
        assert(0 <= i < 4);
    }
}

/// A user update is accepted exactly when each given field is as on
/// creation: an e-mail address, names of 2 to 50 characters; each fault is
/// reported under its field, and nothing else.
pub proof fn law_update_user_validation(req: UpdateUserRequest, res: Result<(), ValidationErrors>)
    requires
        validation_outcome(res, update_user_checks(req)),
    ensures
        reported(res).contains(("email"@, "email"@)) <==> (req.email is Some && !email_valid(req.email.unwrap()@)),
        reported(res).contains(("first_name"@, "length"@)) <==> (req.first_name is Some && (req.first_name.unwrap()@.len() < 2 || req.first_name.unwrap()@.len() > 50)),
        reported(res).contains(("last_name"@, "length"@)) <==> (req.last_name is Some && (req.last_name.unwrap()@.len() < 2 || req.last_name.unwrap()@.len() > 50)),
        forall|k: int|
            0 <= k < reported(res).len() ==> {
                let e = #[trigger] reported(res)[k];
                ||| e == ("email"@, "email"@)
                ||| e == ("first_name"@, "length"@)
                ||| e == ("last_name"@, "length"@)
            },
        res is Ok <==> reported(res).len() == 0,
{
    let checks = update_user_checks(req);
    lemma_outcome_reports_failures(res, checks);
    reveal_strlit("email");
    reveal_strlit("first_name");
    reveal_strlit("last_name");
    reveal_strlit("length");
    assert("email"@.len() == 5);
    assert("first_name"@.len() == 10);
    assert("last_name"@.len() == 9);
    assert("length"@.len() == 6);
    assert(checks.len() == 3);
    assert forall|i: int, j: int|
        0 <= i < 3 && 0 <= j < 3 && i != j implies !((#[trigger] checks[i]).0 == (#[trigger] checks[j]).0
        && checks[i].1 == checks[j].1) by {
    }
    lemma_single_check(checks, 0);
    lemma_single_check(checks, 1);
    lemma_single_check(checks, 2);
    assert forall|k: int| 0 <= k < reported(res).len() implies {
        let e = #[trigger] reported(res)[k];
        ||| e == ("email"@, "email"@)
        ||| e == ("first_name"@, "length"@)
        ||| e == ("last_name"@, "length"@)
    } by {
        lemma_failures_from_checks(checks, k);
        let i = choose|i: int|
            0 <= i < checks.len() && (#[trigger] checks[i]).0 == failures(checks)[k].0 && checks[i].1
                == failures(checks)[k].1 && !checks[i].2;
        assert(0 <= i < 3);
    }
}

} // verus!
