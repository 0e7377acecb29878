use vstd::prelude::*;
use crate::search_filter::opt_view;
use crate::requests::user::{clone_opt, DEFAULT_ACCOUNT_ID};
use crate::text::string_of;
use crate::validation::{
    email_valid, failures, lemma_failures_from_checks, lemma_outcome_reports_failures,
    lemma_single_check, length_ok, opt_email_ok, opt_length_ok, reported, validation_outcome,
    FieldChecks, RelationshipLink, ValidationErrors,
};

verus! {

/// The body of a request that creates a contact.
#[derive(Debug, Clone)]
pub struct CreateContactRequest {
    pub first_name: String,
    pub last_name: String,
    pub email: Option<String>,
    pub phone: Option<String>,
    pub address: Option<String>,
    pub city: Option<String>,
    pub region: Option<String>,
    pub country: Option<String>,
    pub postal_code: Option<String>,
    pub organization_id: Option<i32>,
    pub account_id: Option<i32>,
}

/// The checks on a new contact: names of 1 to 50 characters, an e-mail
/// address if given, and upper bounds on the address fields.
pub open spec fn create_contact_checks(r: CreateContactRequest) -> Seq<(Seq<char>, Seq<char>, bool)> {
    seq![
        ("first_name"@, "length"@, length_ok(r.first_name@.len(), Some(1u64), Some(50u64))),
        ("last_name"@, "length"@, length_ok(r.last_name@.len(), Some(1u64), Some(50u64))),
        ("email"@, "email"@, opt_email_ok(r.email)),
        ("phone"@, "length"@, opt_length_ok(r.phone, None, Some(20u64))),
        ("address"@, "length"@, opt_length_ok(r.address, None, Some(100u64))),
        ("city"@, "length"@, opt_length_ok(r.city, None, Some(50u64))),
        ("region"@, "length"@, opt_length_ok(r.region, None, Some(50u64))),
        ("country"@, "length"@, opt_length_ok(r.country, None, Some(2u64))),
        ("postal_code"@, "length"@, opt_length_ok(r.postal_code, None, Some(10u64))),
    ]
}

/// An optional text, when given, is longer than `max` characters.
pub open spec fn too_long(s: Option<String>, max: nat) -> bool {
    s is Some && s.unwrap()@.len() > max
}

/// A new contact is accepted exactly when nothing is wrong with it, and
/// each fault is reported under its field: a first or last name that is
/// empty or longer than 50 characters (`length`), an e-mail address that
/// is given and is not one (`email`), and, when given, a phone longer than
/// 20 characters, an address longer than 100, a city or a region longer
/// than 50, a country longer than 2 or a postal code longer than 10
/// (`length`). Nothing else is reported.
pub proof fn law_create_contact_validation(req: CreateContactRequest, res: Result<(), ValidationErrors>)
    requires
        validation_outcome(res, create_contact_checks(req)),
    ensures
        reported(res).contains(("first_name"@, "length"@)) <==> (req.first_name@.len() == 0
            || req.first_name@.len() > 50),
        reported(res).contains(("last_name"@, "length"@)) <==> (req.last_name@.len() == 0
            || req.last_name@.len() > 50),
        reported(res).contains(("email"@, "email"@)) <==> (req.email is Some && !email_valid(
            req.email.unwrap()@,
        )),
        reported(res).contains(("phone"@, "length"@)) <==> too_long(req.phone, 20),
        reported(res).contains(("address"@, "length"@)) <==> too_long(req.address, 100),
        reported(res).contains(("city"@, "length"@)) <==> too_long(req.city, 50),
        reported(res).contains(("region"@, "length"@)) <==> too_long(req.region, 50),
        reported(res).contains(("country"@, "length"@)) <==> too_long(req.country, 2),
        reported(res).contains(("postal_code"@, "length"@)) <==> too_long(req.postal_code, 10),
        forall|k: int|
            0 <= k < reported(res).len() ==> {
                let e = #[trigger] reported(res)[k];
                ||| e == ("first_name"@, "length"@)
                ||| e == ("last_name"@, "length"@)
                ||| e == ("email"@, "email"@)
                ||| e == ("phone"@, "length"@)
                ||| e == ("address"@, "length"@)
                ||| e == ("city"@, "length"@)
                ||| e == ("region"@, "length"@)
                ||| e == ("country"@, "length"@)
                ||| e == ("postal_code"@, "length"@)
            },
        res is Ok <==> reported(res).len() == 0,
{
    let checks = create_contact_checks(req);
    lemma_outcome_reports_failures(res, checks);
    reveal_strlit("first_name");
    reveal_strlit("last_name");
    reveal_strlit("email");
    reveal_strlit("phone");
    reveal_strlit("address");
    reveal_strlit("city");
    reveal_strlit("region");
    reveal_strlit("country");
    reveal_strlit("postal_code");
    reveal_strlit("length");
    assert("address"@[0] != "country"@[0]);
    assert("email"@[0] != "phone"@[0]);
    assert(checks.len() == 9);
    assert forall|i: int, j: int|
        0 <= i < 9 && 0 <= j < 9 && i != j implies !((#[trigger] checks[i]).0 == (#[trigger] checks[j]).0
        && checks[i].1 == checks[j].1) by {
        assert(checks[i].0.len() != checks[j].0.len() || checks[i].1 != checks[j].1
            || checks[i].0[0] != checks[j].0[0]);
    }
    lemma_single_check(checks, 0);
    lemma_single_check(checks, 1);
    lemma_single_check(checks, 2);
    lemma_single_check(checks, 3);
    lemma_single_check(checks, 4);
    lemma_single_check(checks, 5);
    lemma_single_check(checks, 6);
    lemma_single_check(checks, 7);
    lemma_single_check(checks, 8);
    assert(failures(checks).contains((checks[0].0, checks[0].1)) <==> !checks[0].2);
    assert(failures(checks).contains((checks[1].0, checks[1].1)) <==> !checks[1].2);
    assert(failures(checks).contains((checks[2].0, checks[2].1)) <==> !checks[2].2);
    assert(failures(checks).contains((checks[3].0, checks[3].1)) <==> !checks[3].2);
    assert(failures(checks).contains((checks[4].0, checks[4].1)) <==> !checks[4].2);
    assert(failures(checks).contains((checks[5].0, checks[5].1)) <==> !checks[5].2);
    assert(failures(checks).contains((checks[6].0, checks[6].1)) <==> !checks[6].2);
    assert(failures(checks).contains((checks[7].0, checks[7].1)) <==> !checks[7].2);
    assert(failures(checks).contains((checks[8].0, checks[8].1)) <==> !checks[8].2);
    assert forall|k: int| 0 <= k < reported(res).len() implies {
        let e = #[trigger] reported(res)[k];
        ||| e == ("first_name"@, "length"@)
        ||| e == ("last_name"@, "length"@)
        ||| e == ("email"@, "email"@)
        ||| e == ("phone"@, "length"@)
        ||| e == ("address"@, "length"@)
        ||| e == ("city"@, "length"@)
        ||| e == ("region"@, "length"@)
        ||| e == ("country"@, "length"@)
        ||| e == ("postal_code"@, "length"@)
    } by {
        lemma_failures_from_checks(checks, k);
        let i = choose|i: int|
            0 <= i < checks.len() && (#[trigger] checks[i]).0 == failures(checks)[k].0 && checks[i].1
                == failures(checks)[k].1 && !checks[i].2;
        assert(0 <= i < 9);
    }
}

/// A new contact, as a request supplies it.
#[derive(Debug, Clone)]
pub struct NewContact {
    pub first_name: String,
    pub last_name: String,
    pub email: Option<String>,
    pub phone: Option<String>,
    pub address: Option<String>,
    pub city: Option<String>,
    pub region: Option<String>,
    pub country: Option<String>,
    pub postal_code: Option<String>,
    pub organization_id: Option<i32>,
    pub account_id: Option<i32>,
}

impl CreateContactRequest {
    /// Validates the request.
    pub fn validate(&self) -> (r: Result<(), ValidationErrors>)
        ensures
            validation_outcome(r, create_contact_checks(*self)),
    {
        let mut c = FieldChecks::new();
        c.check_length("first_name", &Some(string_of(self.first_name.as_str())), Some(1), Some(50));
        c.check_length("last_name", &Some(string_of(self.last_name.as_str())), Some(1), Some(50));
        c.check_email("email", &self.email);
        c.check_length("phone", &self.phone, None, Some(20));
        c.check_length("address", &self.address, None, Some(100));
        c.check_length("city", &self.city, None, Some(50));
        c.check_length("region", &self.region, None, Some(50));
        c.check_length("country", &self.country, None, Some(2));
        c.check_length("postal_code", &self.postal_code, None, Some(10));
        assert(c.checks@ =~= create_contact_checks(*self));
        c.finish()
    }

    /// Takes the organization and the account from the payload's
    /// relationships: a relationship that is present sets the id it reads
    /// as, or none.
    pub fn apply_relationships(
        &mut self,
        organization: Option<RelationshipLink>,
        account: Option<RelationshipLink>,
    )
        ensures
            final(self).organization_id == (match organization {
                Some(l) => l.id,
                None => old(self).organization_id,
            }),
            final(self).account_id == (match account {
                Some(l) => l.id,
                None => old(self).account_id,
            }),
            final(self).first_name == old(self).first_name,
            final(self).last_name == old(self).last_name,
            final(self).email == old(self).email,
            final(self).phone == old(self).phone,
            final(self).address == old(self).address,
            final(self).city == old(self).city,
            final(self).region == old(self).region,
            final(self).country == old(self).country,
            final(self).postal_code == old(self).postal_code,
    {
        if let Some(l) = organization {
            self.organization_id = l.id;
        }
        if let Some(l) = account {
            self.account_id = l.id;
        }
    }

    /// The contact to create, in the default account unless one is named.
    pub fn to_new_model(&self) -> (m: NewContact)
        ensures
            m.first_name@ == self.first_name@,
            m.last_name@ == self.last_name@,
            opt_view(m.email) == opt_view(self.email),
            opt_view(m.phone) == opt_view(self.phone),
            opt_view(m.address) == opt_view(self.address),
            opt_view(m.city) == opt_view(self.city),
            opt_view(m.region) == opt_view(self.region),
            opt_view(m.country) == opt_view(self.country),
            opt_view(m.postal_code) == opt_view(self.postal_code),
            m.organization_id == self.organization_id,
            m.account_id == (match self.account_id {
                Some(a) => Some(a),
                None => Some(DEFAULT_ACCOUNT_ID),
            }),
    {
        NewContact {
            first_name: string_of(self.first_name.as_str()),
            last_name: string_of(self.last_name.as_str()),
            email: clone_opt(&self.email),
            phone: clone_opt(&self.phone),
            address: clone_opt(&self.address),
            city: clone_opt(&self.city),
            region: clone_opt(&self.region),
            country: clone_opt(&self.country),
            postal_code: clone_opt(&self.postal_code),
            organization_id: self.organization_id,
            account_id: match self.account_id {
                Some(a) => Some(a),
                None => Some(DEFAULT_ACCOUNT_ID),
            },
        }
    }
}

/// The body of a request that updates a contact.
#[derive(Debug, Clone)]
pub struct UpdateContactRequest {
    pub first_name: Option<String>,
    pub last_name: Option<String>,
    pub email: Option<String>,
    pub phone: Option<String>,
    pub address: Option<String>,
    pub city: Option<String>,
    pub region: Option<String>,
    pub country: Option<String>,
    pub postal_code: Option<String>,
    pub organization_id: Option<Option<i32>>,
    pub account_id: Option<Option<i32>>,
}

/// The checks on a contact update: each given field as on creation.
pub open spec fn update_contact_checks(r: UpdateContactRequest) -> Seq<(Seq<char>, Seq<char>, bool)> {
    seq![
        ("first_name"@, "length"@, opt_length_ok(r.first_name, Some(1u64), Some(50u64))),
        ("last_name"@, "length"@, opt_length_ok(r.last_name, Some(1u64), Some(50u64))),
        ("email"@, "email"@, opt_email_ok(r.email)),
        ("phone"@, "length"@, opt_length_ok(r.phone, None, Some(20u64))),
        ("address"@, "length"@, opt_length_ok(r.address, None, Some(100u64))),
        ("city"@, "length"@, opt_length_ok(r.city, None, Some(50u64))),
        ("region"@, "length"@, opt_length_ok(r.region, None, Some(50u64))),
        ("country"@, "length"@, opt_length_ok(r.country, None, Some(2u64))),
        ("postal_code"@, "length"@, opt_length_ok(r.postal_code, None, Some(10u64))),
    ]
}

/// The changes to a contact, stamped with the time of the update; an
/// organization of `None` leaves it unchanged.
#[derive(Debug, Clone)]
pub struct ContactUpdate {
    pub first_name: Option<String>,
    pub last_name: Option<String>,
    pub email: Option<String>,
    pub phone: Option<String>,
    pub address: Option<String>,
    pub city: Option<String>,
    pub region: Option<String>,
    pub country: Option<String>,
    pub postal_code: Option<String>,
    pub organization_id: Option<i32>,
    pub updated_at: i64,
}

impl UpdateContactRequest {
    /// Validates the request.
    pub fn validate(&self) -> (r: Result<(), ValidationErrors>)
        ensures
            validation_outcome(r, update_contact_checks(*self)),
    {
        let mut c = FieldChecks::new();
        c.check_length("first_name", &self.first_name, Some(1), Some(50));
        c.check_length("last_name", &self.last_name, Some(1), Some(50));
        c.check_email("email", &self.email);
        c.check_length("phone", &self.phone, None, Some(20));
        c.check_length("address", &self.address, None, Some(100));
        c.check_length("city", &self.city, None, Some(50));
        c.check_length("region", &self.region, None, Some(50));
        c.check_length("country", &self.country, None, Some(2));
        c.check_length("postal_code", &self.postal_code, None, Some(10));
        assert(c.checks@ =~= update_contact_checks(*self));
        c.finish()
    }

    /// Takes the organization and the account from the payload's
    /// relationships: null clears one, otherwise it is set to the id it
    /// reads as, or none.
    pub fn apply_relationships(
        &mut self,
        organization: Option<RelationshipLink>,
        account: Option<RelationshipLink>,
    )
        ensures
            final(self).organization_id == (match organization {
                Some(l) => if l.is_null {
                    Some(None)
                } else {
                    Some(l.id)
                },
                None => old(self).organization_id,
            }),
            final(self).account_id == (match account {
                Some(l) => if l.is_null {
                    Some(None)
                } else {
                    Some(l.id)
                },
                None => old(self).account_id,
            }),
            final(self).first_name == old(self).first_name,
            final(self).last_name == old(self).last_name,
            final(self).email == old(self).email,
            final(self).phone == old(self).phone,
            final(self).address == old(self).address,
            final(self).city == old(self).city,
            final(self).region == old(self).region,
            final(self).country == old(self).country,
            final(self).postal_code == old(self).postal_code,
    {
        if let Some(l) = organization {
            if l.is_null {
                self.organization_id = Some(None);
            } else {
                self.organization_id = Some(l.id);
            }
        }
        if let Some(l) = account {
            if l.is_null {
                self.account_id = Some(None);
            } else {
                self.account_id = Some(l.id);
            }
        }
    }


    /// The changes to make, stamped with `now`: every given field, and the
    /// organization when the request sets one.
    pub fn to_update_model(&self, now: i64) -> (u: ContactUpdate)
        ensures
            opt_view(u.first_name) == opt_view(self.first_name),
            opt_view(u.last_name) == opt_view(self.last_name),
            opt_view(u.email) == opt_view(self.email),
            opt_view(u.phone) == opt_view(self.phone),
            opt_view(u.address) == opt_view(self.address),
            opt_view(u.city) == opt_view(self.city),
            opt_view(u.region) == opt_view(self.region),
            opt_view(u.country) == opt_view(self.country),
            opt_view(u.postal_code) == opt_view(self.postal_code),
            u.organization_id == (match self.organization_id {
                Some(o) => o,
                None => None,
            }),
            u.updated_at == now,
    {
        ContactUpdate {
            first_name: clone_opt(&self.first_name),
            last_name: clone_opt(&self.last_name),
            email: clone_opt(&self.email),
            phone: clone_opt(&self.phone),
            address: clone_opt(&self.address),
            city: clone_opt(&self.city),
            region: clone_opt(&self.region),
            country: clone_opt(&self.country),
            postal_code: clone_opt(&self.postal_code),
            organization_id: match self.organization_id {
                Some(o) => o,
                None => None,
            },
            updated_at: now,
        }
    }
}

/// A contact update is accepted exactly when each given field is as on
/// creation: names of 1 to 50 characters, an e-mail address, a phone of at
/// most 20 characters, an address of at most 100, a city and a region of at
/// most 50, a country of at most 2 and a postal code of at most 10; each
/// fault is reported under its field, and nothing else.
pub proof fn law_update_contact_validation(req: UpdateContactRequest, res: Result<(), ValidationErrors>)
    requires
        validation_outcome(res, update_contact_checks(req)),
    ensures
        reported(res).contains(("first_name"@, "length"@)) <==> (req.first_name is Some && (req.first_name.unwrap()@.len() < 1 || req.first_name.unwrap()@.len() > 50)),
        reported(res).contains(("last_name"@, "length"@)) <==> (req.last_name is Some && (req.last_name.unwrap()@.len() < 1 || req.last_name.unwrap()@.len() > 50)),
        reported(res).contains(("email"@, "email"@)) <==> (req.email is Some && !email_valid(req.email.unwrap()@)),
        reported(res).contains(("phone"@, "length"@)) <==> (req.phone is Some && (req.phone.unwrap()@.len() > 20)),
        reported(res).contains(("address"@, "length"@)) <==> (req.address is Some && (req.address.unwrap()@.len() > 100)),
        reported(res).contains(("city"@, "length"@)) <==> (req.city is Some && (req.city.unwrap()@.len() > 50)),
        reported(res).contains(("region"@, "length"@)) <==> (req.region is Some && (req.region.unwrap()@.len() > 50)),
        reported(res).contains(("country"@, "length"@)) <==> (req.country is Some && (req.country.unwrap()@.len() > 2)),
        reported(res).contains(("postal_code"@, "length"@)) <==> (req.postal_code is Some && (req.postal_code.unwrap()@.len() > 10)),
        forall|k: int|
            0 <= k < reported(res).len() ==> {
                let e = #[trigger] reported(res)[k];
                ||| e == ("first_name"@, "length"@)
                ||| e == ("last_name"@, "length"@)
                ||| e == ("email"@, "email"@)
                ||| e == ("phone"@, "length"@)
                ||| e == ("address"@, "length"@)
                ||| e == ("city"@, "length"@)
                ||| e == ("region"@, "length"@)
                ||| e == ("country"@, "length"@)
                ||| e == ("postal_code"@, "length"@)
            },
        res is Ok <==> reported(res).len() == 0,
{
    let checks = update_contact_checks(req);
    lemma_outcome_reports_failures(res, checks);
    reveal_strlit("address");
    reveal_strlit("city");
    reveal_strlit("country");
    reveal_strlit("email");
    reveal_strlit("first_name");
    reveal_strlit("last_name");
    reveal_strlit("length");
    reveal_strlit("phone");
    reveal_strlit("postal_code");
    reveal_strlit("region");
    assert("address"@.len() == 7);
    assert("city"@.len() == 4);
    assert("country"@.len() == 7);
    assert("email"@.len() == 5);
    assert("first_name"@.len() == 10);
    assert("last_name"@.len() == 9);
    assert("length"@.len() == 6);
    assert("phone"@.len() == 5);
    assert("postal_code"@.len() == 11);
    assert("region"@.len() == 6);
    assert("address"@[0] != "country"@[0]);
    assert("email"@[0] != "phone"@[0]);
    assert("length"@[0] != "region"@[0]);
    assert(checks.len() == 9);
    assert forall|i: int, j: int|
        0 <= i < 9 && 0 <= j < 9 && i != j implies !((#[trigger] checks[i]).0 == (#[trigger] checks[j]).0
        && checks[i].1 == checks[j].1) by {
    }
    lemma_single_check(checks, 0);
    lemma_single_check(checks, 1);
    lemma_single_check(checks, 2);
    lemma_single_check(checks, 3);
    lemma_single_check(checks, 4);
    lemma_single_check(checks, 5);
    lemma_single_check(checks, 6);
    lemma_single_check(checks, 7);
    lemma_single_check(checks, 8);
    assert forall|k: int| 0 <= k < reported(res).len() implies {
        let e = #[trigger] reported(res)[k];
        ||| e == ("first_name"@, "length"@)
        ||| e == ("last_name"@, "length"@)
        ||| e == ("email"@, "email"@)
        ||| e == ("phone"@, "length"@)
        ||| e == ("address"@, "length"@)
        ||| e == ("city"@, "length"@)
        ||| e == ("region"@, "length"@)
        ||| e == ("country"@, "length"@)
        ||| e == ("postal_code"@, "length"@)
    } by {
        lemma_failures_from_checks(checks, k);
        let i = choose|i: int|
            0 <= i < checks.len() && (#[trigger] checks[i]).0 == failures(checks)[k].0 && checks[i].1
                == failures(checks)[k].1 && !checks[i].2;
        assert(0 <= i < 9);
    }
}

} // verus!
