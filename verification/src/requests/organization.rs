use vstd::prelude::*;
use crate::search_filter::opt_view;
use crate::requests::user::{clone_flat, clone_opt, flat_view, updated_link, DEFAULT_ACCOUNT_ID};
use crate::text::string_of;
use crate::validation::{
    email_valid, failures, lemma_failures_from_checks, lemma_outcome_reports_failures,
    lemma_single_check, length_ok, opt_email_ok, opt_length_ok, reported, validation_outcome,
    FieldChecks, RelationshipLink, ValidationErrors,
};

verus! {

/// The body of a request that creates an organization.
#[derive(Debug, Clone)]
pub struct CreateOrganizationRequest {
    pub name: String,
    pub email: Option<String>,
    pub phone: Option<String>,
    pub address: Option<String>,
    pub city: Option<String>,
    pub region: Option<String>,
    pub country: Option<String>,
    pub postal_code: Option<String>,
    pub account_id: Option<i32>,
}

/// The checks on a new organization: a name of 2 to 100 characters and an
/// e-mail address if given.
pub open spec fn create_organization_checks(r: CreateOrganizationRequest) -> Seq<
    (Seq<char>, Seq<char>, bool),
> {
    seq![
        ("name"@, "length"@, length_ok(r.name@.len(), Some(2u64), Some(100u64))),
        ("email"@, "email"@, opt_email_ok(r.email)),
    ]
}

/// A new organization, as a request supplies it.
#[derive(Debug, Clone)]
pub struct NewOrganization {
    pub name: String,
    pub email: Option<String>,
    pub phone: Option<String>,
    pub address: Option<String>,
    pub city: Option<String>,
    pub region: Option<String>,
    pub country: Option<String>,
    pub postal_code: Option<String>,
    pub account_id: Option<i32>,
}

impl CreateOrganizationRequest {
    /// Validates the request.
    pub fn validate(&self) -> (r: Result<(), ValidationErrors>)
        ensures
            validation_outcome(r, create_organization_checks(*self)),
    {
        let mut c = FieldChecks::new();
        c.check_length("name", &Some(string_of(self.name.as_str())), Some(2), Some(100));
        c.check_email("email", &self.email);
        assert(c.checks@ =~= create_organization_checks(*self));
        c.finish()
    }

    /// Takes the account from the payload's `account` relationship, when it
    /// names one.
    pub fn apply_relationships(&mut self, account: Option<RelationshipLink>)
        ensures
            final(self).account_id == (match account {
                Some(l) => if l.id is Some {
                    l.id
                } else {
                    old(self).account_id
                },
                None => old(self).account_id,
            }),
            final(self).name == old(self).name,
            final(self).email == old(self).email,
            final(self).phone == old(self).phone,
            final(self).address == old(self).address,
            final(self).city == old(self).city,
            final(self).region == old(self).region,
            final(self).country == old(self).country,
            final(self).postal_code == old(self).postal_code,
    {
        if let Some(l) = account {
            if let Some(id) = l.id {
                self.account_id = Some(id);
            }
        }
    }

    /// The organization to create, in the default account unless one is
    /// named.
    pub fn to_new_model(&self) -> (m: NewOrganization)
        ensures
            m.name@ == self.name@,
            opt_view(m.email) == opt_view(self.email),
            opt_view(m.phone) == opt_view(self.phone),
            opt_view(m.address) == opt_view(self.address),
            opt_view(m.city) == opt_view(self.city),
            opt_view(m.region) == opt_view(self.region),
            opt_view(m.country) == opt_view(self.country),
            opt_view(m.postal_code) == opt_view(self.postal_code),
            m.account_id == (match self.account_id {
                Some(a) => Some(a),
                None => Some(DEFAULT_ACCOUNT_ID),
            }),
    {
        NewOrganization {
            name: string_of(self.name.as_str()),
            email: clone_opt(&self.email),
            phone: clone_opt(&self.phone),
            address: clone_opt(&self.address),
            city: clone_opt(&self.city),
            region: clone_opt(&self.region),
            country: clone_opt(&self.country),
            postal_code: clone_opt(&self.postal_code),
            account_id: match self.account_id {
                Some(a) => Some(a),
                None => Some(DEFAULT_ACCOUNT_ID),
            },
        }
    }
}

/// The body of a request that updates an organization; a field given as
/// `Some(None)` is cleared.
#[derive(Debug, Clone)]
pub struct UpdateOrganizationRequest {
    pub name: Option<String>,
    pub email: Option<Option<String>>,
    pub phone: Option<Option<String>>,
    pub address: Option<Option<String>>,
    pub city: Option<Option<String>>,
    pub region: Option<Option<String>>,
    pub country: Option<Option<String>>,
    pub postal_code: Option<Option<String>>,
    pub account_id: Option<Option<i32>>,
}

/// The e-mail check of a field that may be absent or cleared.
pub open spec fn opt2_email_ok(s: Option<Option<String>>) -> bool {
    match s {
        Some(Some(x)) => email_valid(x@),
        _ => true,
    }
}

/// The checks on an organization update: each given field as on creation.
pub open spec fn update_organization_checks(r: UpdateOrganizationRequest) -> Seq<
    (Seq<char>, Seq<char>, bool),
> {
    seq![
        ("name"@, "length"@, opt_length_ok(r.name, Some(2u64), Some(100u64))),
        ("email"@, "email"@, opt2_email_ok(r.email)),
    ]
}

/// The changes to an organization, stamped with the time of the update.
#[derive(Debug, Clone)]
pub struct OrganizationUpdate {
    pub name: Option<String>,
    pub email: Option<String>,
    pub phone: Option<String>,
    pub address: Option<String>,
    pub city: Option<String>,
    pub region: Option<String>,
    pub country: Option<String>,
    pub postal_code: Option<String>,
    pub updated_at: i64,
}

impl UpdateOrganizationRequest {
    /// Validates the request.
    pub fn validate(&self) -> (r: Result<(), ValidationErrors>)
        ensures
            validation_outcome(r, update_organization_checks(*self)),
    {
        let mut c = FieldChecks::new();
        c.check_length("name", &self.name, Some(2), Some(100));
        let inner = match &self.email {
            Some(Some(x)) => Some(string_of(x.as_str())),
            _ => None,
        };
        c.check_email("email", &inner);
        assert(c.checks@ =~= update_organization_checks(*self));
        c.finish()
    }

    /// Takes the account from the payload's `account` relationship.
    pub fn apply_relationships(&mut self, account: Option<RelationshipLink>)
        ensures
            final(self).account_id == updated_link(old(self).account_id, account),
            final(self).name == old(self).name,
            final(self).email == old(self).email,
            final(self).phone == old(self).phone,
            final(self).address == old(self).address,
            final(self).city == old(self).city,
            final(self).region == old(self).region,
            final(self).country == old(self).country,
            final(self).postal_code == old(self).postal_code,
    {
        if let Some(l) = account {
            if l.is_null {
                self.account_id = Some(None);
            } else if let Some(id) = l.id {
                self.account_id = Some(Some(id));
            }
        }
    }


    /// The changes to make, stamped with `now`: the name if given, and each
    /// other field flattened, a cleared field giving none.
    pub fn to_update_model(&self, now: i64) -> (u: OrganizationUpdate)
        ensures
            opt_view(u.name) == opt_view(self.name),
            opt_view(u.email) == flat_view(self.email),
            opt_view(u.phone) == flat_view(self.phone),
            opt_view(u.address) == flat_view(self.address),
            opt_view(u.city) == flat_view(self.city),
            opt_view(u.region) == flat_view(self.region),
            opt_view(u.country) == flat_view(self.country),
            opt_view(u.postal_code) == flat_view(self.postal_code),
            u.updated_at == now,
    {
        OrganizationUpdate {
            name: clone_opt(&self.name),
            email: clone_flat(&self.email),
            phone: clone_flat(&self.phone),
            address: clone_flat(&self.address),
            city: clone_flat(&self.city),
            region: clone_flat(&self.region),
            country: clone_flat(&self.country),
            postal_code: clone_flat(&self.postal_code),
            updated_at: now,
        }
    }
}

/// A new organization is accepted exactly when its name has 2 to 100
/// characters and its e-mail, if given, is an address; each fault is
/// reported under its field (`length`, `email`), and nothing else.
pub proof fn law_create_organization_validation(req: CreateOrganizationRequest, res: Result<(), ValidationErrors>)
    requires
        validation_outcome(res, create_organization_checks(req)),
    ensures
        reported(res).contains(("name"@, "length"@)) <==> (req.name@.len() < 2 || req.name@.len() > 100),
        reported(res).contains(("email"@, "email"@)) <==> (req.email is Some && !email_valid(req.email.unwrap()@)),
        forall|k: int|
            0 <= k < reported(res).len() ==> {
                let e = #[trigger] reported(res)[k];
                ||| e == ("name"@, "length"@)
                ||| e == ("email"@, "email"@)
            },
        res is Ok <==> reported(res).len() == 0,
{
    let checks = create_organization_checks(req);
    lemma_outcome_reports_failures(res, checks);
    reveal_strlit("email");
    reveal_strlit("length");
    reveal_strlit("name");
    assert("email"@.len() == 5);
    assert("length"@.len() == 6);
    assert("name"@.len() == 4);
    assert(checks.len() == 2);
    assert forall|i: int, j: int|
        0 <= i < 2 && 0 <= j < 2 && i != j implies !((#[trigger] checks[i]).0 == (#[trigger] checks[j]).0
        && checks[i].1 == checks[j].1) by {
    }
    lemma_single_check(checks, 0);
    lemma_single_check(checks, 1);
    assert forall|k: int| 0 <= k < reported(res).len() implies {
        let e = #[trigger] reported(res)[k];
        ||| e == ("name"@, "length"@)
        ||| e == ("email"@, "email"@)
    } by {
        lemma_failures_from_checks(checks, k);
        let i = choose|i: int|
            0 <= i < checks.len() && (#[trigger] checks[i]).0 == failures(checks)[k].0 && checks[i].1
                == failures(checks)[k].1 && !checks[i].2;
        assert(0 <= i < 2);
    }
}

/// An organization update is accepted exactly when a name, if given, has 2
/// to 100 characters and an e-mail, if given and not cleared, is an
/// address; each fault is reported under its field, and nothing else.
pub proof fn law_update_organization_validation(req: UpdateOrganizationRequest, res: Result<(), ValidationErrors>)
    requires
        validation_outcome(res, update_organization_checks(req)),
    ensures
        reported(res).contains(("name"@, "length"@)) <==> (req.name is Some && (req.name.unwrap()@.len() < 2 || req.name.unwrap()@.len() > 100)),
        reported(res).contains(("email"@, "email"@)) <==> (req.email matches Some(Some(x)) && !email_valid(x@)),
        forall|k: int|
            0 <= k < reported(res).len() ==> {
                let e = #[trigger] reported(res)[k];
                ||| e == ("name"@, "length"@)
                ||| e == ("email"@, "email"@)
            },
        res is Ok <==> reported(res).len() == 0,
{
    let checks = update_organization_checks(req);
    lemma_outcome_reports_failures(res, checks);
    reveal_strlit("email");
    reveal_strlit("length");
    reveal_strlit("name");
    assert("email"@.len() == 5);
    assert("length"@.len() == 6);
    assert("name"@.len() == 4);
    assert(checks.len() == 2);
    assert forall|i: int, j: int|
        0 <= i < 2 && 0 <= j < 2 && i != j implies !((#[trigger] checks[i]).0 == (#[trigger] checks[j]).0
        && checks[i].1 == checks[j].1) by {
    }
    lemma_single_check(checks, 0);
    lemma_single_check(checks, 1);
    assert forall|k: int| 0 <= k < reported(res).len() implies {
        let e = #[trigger] reported(res)[k];
        ||| e == ("name"@, "length"@)
        ||| e == ("email"@, "email"@)
    } by {
        lemma_failures_from_checks(checks, k);
        let i = choose|i: int|
            0 <= i < checks.len() && (#[trigger] checks[i]).0 == failures(checks)[k].0 && checks[i].1
                == failures(checks)[k].1 && !checks[i].2;
        assert(0 <= i < 2);
    }
}

} // verus!
