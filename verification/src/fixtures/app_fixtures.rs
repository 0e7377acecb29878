use vstd::prelude::*;
use crate::fixtures::audit_log_fixtures::{activities, audit_views, login_failures, push_activities, push_login_failures};
use crate::fixtures::loader::Fixture;
use crate::fixtures::seeds::{
    audit_plain, audit_seed, contact_default, contact_seed, login_success, login_success_seed, named_user,
    organization_seed, user_seed, AuditLogSeed, AuditLogSeedView, ContactSeed, ContactSeedView,
    OrganizationSeed, OrganizationSeedView, UserSeed, UserSeedView,
};
use crate::fixtures::user_fixtures::{random_users, special_users, user_views};
use crate::text::{dec_int, push_i64, string_of};

verus! {

/// The account that the organizations and contacts go to.
pub const APP_ACCOUNT_ID: i32 = 1;

/// The account created for the users.
pub const APP_ACCOUNT_NAME: &'static str = "Acme Corporation";

/// The named users of the application setup: the super admin (the account's
/// owner), two admins and five regular users.
pub open spec fn app_core_users(account_id: i32) -> Seq<UserSeedView> {
    seq![
        UserSeedView {
            status: Some("active"@),
            owner: true,
            ..named_user(account_id, "admin@example.com"@, "Super Admin"@, "admin123"@, Some("ROLE_SUPER_ADMIN"@))
        },
        named_user(account_id, "manager@example.com"@, "Sarah Manager"@, "password123"@, Some("ROLE_ADMIN"@)),
        named_user(account_id, "admin.john@example.com"@, "John Administrator"@, "password123"@, Some("ROLE_ADMIN"@)),
        named_user(account_id, "john.doe@example.com"@, "John Doe"@, "password123"@, Some("ROLE_USER"@)),
        named_user(account_id, "jane.smith@example.com"@, "Jane Smith"@, "password123"@, Some("ROLE_USER"@)),
        named_user(account_id, "bob.wilson@example.com"@, "Bob Wilson"@, "password123"@, Some("ROLE_USER"@)),
        named_user(account_id, "alice.johnson@example.com"@, "Alice Johnson"@, "password123"@, Some("ROLE_USER"@)),
        named_user(account_id, "charlie.brown@example.com"@, "Charlie Brown"@, "password123"@, Some("ROLE_USER"@)),
    ]
}

/// The users the application setup creates in the account `account_id`, in
/// order: the users it hands on, then the special users.
pub open spec fn app_user_plan(account_id: i32, random_count: nat) -> Seq<UserSeedView> {
    app_handed_on_users(account_id, random_count) + special_users(account_id)
}

/// The users the application setup hands on, to the audit log, of those it
/// creates: the named users and the generated ones, in order. The disabled,
/// locked and two-factor users are created but not handed on.
pub open spec fn app_handed_on_users(account_id: i32, random_count: nat) -> Seq<UserSeedView> {
    app_core_users(account_id) + random_users(account_id, random_count)
}

fn named(account_id: i32, email: &str, name: &str, password: &str, role: &str) -> (s: UserSeed)
    ensures
        s@ == named_user(account_id, email@, name@, password@, Some(role@)),
{
    user_seed(account_id, Some(email), Some(name), Some(password), Some(role))
}

/// The five named organizations.
pub open spec fn app_named_organizations(account_id: i32) -> Seq<OrganizationSeedView> {
    seq![
        OrganizationSeedView { name: Some("Acme Corporation"@), email: Some("info@acme.com"@), phone: Some("+1-555-0100"@), account_id },
        OrganizationSeedView { name: Some("Tech Solutions Inc"@), email: Some("contact@techsolutions.com"@), phone: Some("+1-555-0101"@), account_id },
        OrganizationSeedView { name: Some("Global Industries"@), email: Some("hello@globalind.com"@), phone: Some("+1-555-0102"@), account_id },
        OrganizationSeedView { name: Some("Innovation Labs"@), email: Some("info@innovationlabs.com"@), phone: Some("+1-555-0103"@), account_id },
        OrganizationSeedView { name: Some("Enterprise Systems"@), email: Some("contact@entsys.com"@), phone: Some("+1-555-0104"@), account_id },
    ]
}

/// The organizations the application setup creates: the five named ones,
/// then generated ones up to `count` in all.
pub open spec fn app_organization_plan(account_id: i32, count: nat) -> Seq<OrganizationSeedView> {
    app_named_organizations(account_id) + Seq::new(
        if count > 5 {
            (count - 5) as nat
        } else {
            0
        },
        |i: int| OrganizationSeedView { name: None, email: None, phone: None, account_id },
    )
}

/// The five named contacts: first name, last name, e-mail, phone.
pub open spec fn app_contact_names() -> Seq<(Seq<char>, Seq<char>, Seq<char>, Seq<char>)> {
    seq![
        ("John"@, "Doe"@, "john.doe@example.com"@, "+1-555-1001"@),
        ("Jane"@, "Smith"@, "jane.smith@example.com"@, "+1-555-1002"@),
        ("Bob"@, "Johnson"@, "bob.johnson@example.com"@, "+1-555-1003"@),
        ("Alice"@, "Williams"@, "alice.williams@example.com"@, "+1-555-1004"@),
        ("Charlie"@, "Brown"@, "charlie.brown@example.com"@, "+1-555-1005"@),
    ]
}

/// The organization the `i`-th contact of a group goes to: the
/// organizations taken in turn, none when there are none.
pub open spec fn org_in_turn(org_ids: Seq<i32>, i: int) -> Option<i32> {
    if org_ids.len() > 0 {
        Some(org_ids[i % org_ids.len() as int])
    } else {
        None
    }
}

/// The `i`-th named contact. Without organizations it is attached to the
/// organization id 0.
pub open spec fn app_named_contact(account_id: i32, org_ids: Seq<i32>, i: int) -> ContactSeedView {
    let c = app_contact_names()[i];
    ContactSeedView {
        first_name: Some(c.0),
        last_name: Some(c.1),
        email: Some(c.2),
        phone: Some(c.3),
        account_id,
        organization_id: Some(
            match org_in_turn(org_ids, i) {
                Some(id) => id,
                None => 0,
            },
        ),
    }
}

/// The contacts the application setup creates, given the ids of the
/// organizations it created: the five named ones, then generated ones up to
/// `count` in all.
pub open spec fn app_contact_plan(account_id: i32, org_ids: Seq<i32>, count: nat) -> Seq<ContactSeedView> {
    Seq::new(5, |i: int| app_named_contact(account_id, org_ids, i)) + Seq::new(
        if count > 5 {
            (count - 5) as nat
        } else {
            0
        },
        |i: int| contact_default(account_id, org_in_turn(org_ids, i)),
    )
}

/// A successful login of `user`, the `i`-th one.
pub open spec fn user_login_seed(user: (i32, Seq<char>), i: int) -> AuditLogSeedView {
    AuditLogSeedView { user: Some(user), ..login_success_seed(i) }
}

/// A user-management entry by `actor` about the user with id `target`.
pub open spec fn management_seed(actor: (i32, Seq<char>), action: Seq<char>, target: i32) -> AuditLogSeedView {
    AuditLogSeedView {
        user: Some(actor),
        resource: Some("User:"@ + dec_int(target as int)),
        ..audit_plain("User Management"@, action, "Success"@)
    }
}

/// The user-management entries about the `i`-th user: created by the first
/// user, and for the first three also updated by the second.
pub open spec fn management_entries(users: Seq<(i32, Seq<char>)>, i: int) -> Seq<AuditLogSeedView> {
    let create = management_seed(users[0], "Create User"@, users[i].0);
    if i < 3 {
        seq![create, management_seed(users[1], "Update User"@, users[i].0)]
    } else {
        seq![create]
    }
}

/// The user-management entries about the first `n` users.
pub open spec fn management_upto(users: Seq<(i32, Seq<char>)>, n: nat) -> Seq<AuditLogSeedView>
    decreases n,
{
    if n == 0 {
        Seq::empty()
    } else {
        management_upto(users, (n - 1) as nat) + management_entries(users, n - 1)
    }
}

/// The four system events, without details.
pub open spec fn app_system_events() -> Seq<AuditLogSeedView> {
    seq![
        audit_plain("Configuration"@, "Update Settings"@, "Success"@),
        audit_plain("System"@, "Backup"@, "Success"@),
        audit_plain("Security"@, "Password Reset"@, "Success"@),
        audit_plain("Security"@, "2FA Enable"@, "Success"@),
    ]
}

pub open spec fn min_nat(a: nat, b: nat) -> nat {
    if a < b {
        a
    } else {
        b
    }
}

/// The audit log the application setup creates, given the users it created
/// (id and e-mail): a login for each of the first ten users, five failed
/// logins, user-management entries about the first five users when there are
/// at least three, the system events and `activity_count` activity entries.
pub open spec fn app_audit_plan(users: Seq<(i32, Seq<char>)>, activity_count: nat) -> Seq<AuditLogSeedView> {
    Seq::new(min_nat(users.len(), 10), |i: int| user_login_seed(users[i], i)) + login_failures() + (if users.len()
        >= 3 {
        management_upto(users, min_nat(users.len(), 5))
    } else {
        Seq::empty()
    }) + app_system_events() + activities(activity_count)
}

/// The id and e-mail of each user.
pub open spec fn user_refs(users: Seq<(i32, String)>) -> Seq<(i32, Seq<char>)> {
    users.map_values(|u: (i32, String)| (u.0, u.1@))
}

/// The views of a list of organization seeds.
pub open spec fn organization_views(v: Seq<OrganizationSeed>) -> Seq<OrganizationSeedView> {
    v.map_values(|s: OrganizationSeed| s@)
}

/// The views of a list of contact seeds.
pub open spec fn contact_views(v: Seq<ContactSeed>) -> Seq<ContactSeedView> {
    v.map_values(|s: ContactSeed| s@)
}

fn management_entry(actor: &(i32, String), action: &str, target: i32) -> (s: AuditLogSeed)
    ensures
        s@ == management_seed((actor.0, actor.1@), action@, target),
{
    let mut s = audit_seed("User Management", action, "Success");
    s.user = Some((actor.0, actor.1.clone()));
    let mut r = string_of("User:");
    push_i64(&mut r, target as i64);
    s.resource = Some(r);
    s
}

/// Seeds the whole application: users, organizations, contacts and the audit
/// log.
pub struct AppFixtures {
    pub load_users: bool,
    pub load_organizations: bool,
    pub load_contacts: bool,
    pub load_audit_logs: bool,
    pub random_user_count: usize,
    pub organization_count: usize,
    pub contact_count: usize,
    pub activity_log_count: usize,
}

impl AppFixtures {
    /// Everything, with 20 generated users, 10 organizations, 30 contacts and
    /// 50 activity entries.
    pub fn new() -> (f: Self)
        ensures
            f.load_users && f.load_organizations && f.load_contacts && f.load_audit_logs,
            f.random_user_count == 20,
            f.organization_count == 10,
            f.contact_count == 30,
            f.activity_log_count == 50,
    {
        AppFixtures {
            load_users: true,
            load_organizations: true,
            load_contacts: true,
            load_audit_logs: true,
            random_user_count: 20,
            organization_count: 10,
            contact_count: 30,
            activity_log_count: 50,
        }
    }

    /// The users alone, with 20 generated users.
    pub fn users_only() -> (f: Self)
        ensures
            f.load_users,
            !f.load_organizations && !f.load_contacts && !f.load_audit_logs,
            f.random_user_count == 20,
            f.organization_count == 0,
            f.contact_count == 0,
            f.activity_log_count == 0,
    {
        AppFixtures {
            load_users: true,
            load_organizations: false,
            load_contacts: false,
            load_audit_logs: false,
            random_user_count: 20,
            organization_count: 0,
            contact_count: 0,
            activity_log_count: 0,
        }
    }

    /// With `count` generated users.
    pub fn with_random_users(self, count: usize) -> (f: Self)
        ensures
            f == (AppFixtures { random_user_count: count, ..self }),
    {
        AppFixtures { random_user_count: count, ..self }
    }

    /// With `count` organizations in all.
    pub fn with_organizations(self, count: usize) -> (f: Self)
        ensures
            f == (AppFixtures { organization_count: count, ..self }),
    {
        AppFixtures { organization_count: count, ..self }
    }

    /// With `count` contacts in all.
    pub fn with_contacts(self, count: usize) -> (f: Self)
        ensures
            f == (AppFixtures { contact_count: count, ..self }),
    {
        AppFixtures { contact_count: count, ..self }
    }

    /// With `count` activity entries.
    pub fn with_activity_logs(self, count: usize) -> (f: Self)
        ensures
            f == (AppFixtures { activity_log_count: count, ..self }),
    {
        AppFixtures { activity_log_count: count, ..self }
    }

    /// The users to create in the account `account_id`, in order.
    pub fn user_plan(&self, account_id: i32) -> (v: Vec<UserSeed>)
        ensures
            user_views(v@) == app_user_plan(account_id, self.random_user_count as nat),
            user_views(v@).take(8 + self.random_user_count) == app_handed_on_users(
                account_id,
                self.random_user_count as nat,
            ),
    {
        let mut v: Vec<UserSeed> = Vec::new();
        let mut admin = named(account_id, "admin@example.com", "Super Admin", "admin123", "ROLE_SUPER_ADMIN");
        admin.status = Some(string_of("active"));
        admin.owner = true;
        v.push(admin);
        v.push(named(account_id, "manager@example.com", "Sarah Manager", "password123", "ROLE_ADMIN"));
        v.push(named(account_id, "admin.john@example.com", "John Administrator", "password123", "ROLE_ADMIN"));
        v.push(named(account_id, "john.doe@example.com", "John Doe", "password123", "ROLE_USER"));
        v.push(named(account_id, "jane.smith@example.com", "Jane Smith", "password123", "ROLE_USER"));
        v.push(named(account_id, "bob.wilson@example.com", "Bob Wilson", "password123", "ROLE_USER"));
        v.push(named(account_id, "alice.johnson@example.com", "Alice Johnson", "password123", "ROLE_USER"));
        v.push(named(account_id, "charlie.brown@example.com", "Charlie Brown", "password123", "ROLE_USER"));
        assert(user_views(v@) =~= app_core_users(account_id));
        crate::fixtures::user_fixtures::push_random_users(&mut v, account_id, self.random_user_count);
        crate::fixtures::user_fixtures::push_special_users(&mut v, account_id);
        assert(user_views(v@) =~= app_user_plan(account_id, self.random_user_count as nat));
        assert(user_views(v@).take(8 + self.random_user_count) =~= app_handed_on_users(
            account_id,
            self.random_user_count as nat,
        ));
        v
    }

    /// Of the users created from `user_plan`, in its order, the ones handed
    /// on: the first `8 + random_user_count`, which are created from
    /// `app_handed_on_users`.
    pub fn handed_on_users<U>(&self, created: Vec<U>) -> (r: Vec<U>)
        requires
            created@.len() >= 8 + self.random_user_count,
        ensures
            r@ == created@.take(8 + self.random_user_count),
    {
        let mut r = created;
        let len = r.len();
        assert(8 + self.random_user_count <= len);
        r.truncate(8 + self.random_user_count);
        r
    }

    /// The organizations to create in the account `account_id`, in order.
    pub fn organization_plan(&self, account_id: i32) -> (v: Vec<OrganizationSeed>)
        ensures
            organization_views(v@) == app_organization_plan(account_id, self.organization_count as nat),
    {
        let mut v: Vec<OrganizationSeed> = Vec::new();
        v.push(organization_seed(account_id, Some("Acme Corporation"), Some("info@acme.com"), Some("+1-555-0100")));
        v.push(organization_seed(account_id, Some("Tech Solutions Inc"), Some("contact@techsolutions.com"), Some("+1-555-0101")));
        v.push(organization_seed(account_id, Some("Global Industries"), Some("hello@globalind.com"), Some("+1-555-0102")));
        v.push(organization_seed(account_id, Some("Innovation Labs"), Some("info@innovationlabs.com"), Some("+1-555-0103")));
        v.push(organization_seed(account_id, Some("Enterprise Systems"), Some("contact@entsys.com"), Some("+1-555-0104")));
        let ghost named = organization_views(v@);
        assert(named =~= app_named_organizations(account_id));
        let n: usize = if self.organization_count > 5 {
            self.organization_count - 5
        } else {
            0
        };
        let ghost generated = Seq::new(
            n as nat,
            |i: int| OrganizationSeedView { name: None, email: None, phone: None, account_id },
        );
        let mut i: usize = 0;
        while i < n
            invariant
                i <= n,
                organization_views(v@) == named + generated.take(i as int),
                generated == Seq::new(
                    n as nat,
                    |i: int| OrganizationSeedView { name: None, email: None, phone: None, account_id },
                ),
            decreases n - i,
        {
            let ghost prev = v@;
            let x = organization_seed(account_id, None, None, None);
            v.push(x);
            assert(organization_views(v@) =~= organization_views(prev).push(x@));
            assert(generated.take(i + 1) =~= generated.take(i as int).push(generated[i as int]));
            i = i + 1;
        }
        assert(generated.take(n as int) =~= generated);
        assert(organization_views(v@) =~= app_organization_plan(account_id, self.organization_count as nat));
        v
    }

    /// The contacts to create in the account `account_id`, given the ids of
    /// the organizations created before them, in order.
    pub fn contact_plan(&self, account_id: i32, org_ids: &[i32]) -> (v: Vec<ContactSeed>)
        ensures
            contact_views(v@) == app_contact_plan(account_id, org_ids@, self.contact_count as nat),
    {
        let names: [(&str, &str, &str, &str); 5] = [
            ("John", "Doe", "john.doe@example.com", "+1-555-1001"),
            ("Jane", "Smith", "jane.smith@example.com", "+1-555-1002"),
            ("Bob", "Johnson", "bob.johnson@example.com", "+1-555-1003"),
            ("Alice", "Williams", "alice.williams@example.com", "+1-555-1004"),
            ("Charlie", "Brown", "charlie.brown@example.com", "+1-555-1005"),
        ];
        let ghost name_views = names@.map_values(
            |c: (&str, &str, &str, &str)| (c.0@, c.1@, c.2@, c.3@),
        );
        assert(name_views =~= app_contact_names());
        let ghost named = Seq::new(5, |i: int| app_named_contact(account_id, org_ids@, i));
        let mut v: Vec<ContactSeed> = Vec::new();
        let mut i: usize = 0;
        while i < 5
            invariant
                i <= 5,
                names@.map_values(|c: (&str, &str, &str, &str)| (c.0@, c.1@, c.2@, c.3@))
                    == app_contact_names(),
                named == Seq::new(5, |i: int| app_named_contact(account_id, org_ids@, i)),
                contact_views(v@) == named.take(i as int),
            decreases 5 - i,
        {
            let ghost prev = v@;
            let (first, last, email, phone) = names[i];
            let org: i32 = if org_ids.len() > 0 {
                org_ids[i % org_ids.len()]
            } else {
                0
            };
            let x = ContactSeed {
                first_name: Some(string_of(first)),
                last_name: Some(string_of(last)),
                email: Some(string_of(email)),
                phone: Some(string_of(phone)),
                account_id,
                organization_id: Some(org),
            };
            v.push(x);
            assert(names@.map_values(|c: (&str, &str, &str, &str)| (c.0@, c.1@, c.2@, c.3@))[i as int]
                == app_contact_names()[i as int]);
            assert(x@ == app_named_contact(account_id, org_ids@, i as int));
            assert(contact_views(v@) =~= contact_views(prev).push(x@));
            assert(named.take(i + 1) =~= named.take(i as int).push(named[i as int]));
            i = i + 1;
        }
        assert(named.take(5) =~= named);
        let n: usize = if self.contact_count > 5 {
            self.contact_count - 5
        } else {
            0
        };
        let ghost generated = Seq::new(n as nat, |i: int| contact_default(account_id, org_in_turn(org_ids@, i)));
        let mut i: usize = 0;
        while i < n
            invariant
                i <= n,
                contact_views(v@) == named + generated.take(i as int),
                generated == Seq::new(n as nat, |i: int| contact_default(account_id, org_in_turn(org_ids@, i))),
            decreases n - i,
        {
            let ghost prev = v@;
            let org: Option<i32> = if org_ids.len() > 0 {
                Some(org_ids[i % org_ids.len()])
            } else {
                None
            };
            let x = contact_seed(account_id, org);
            v.push(x);
            assert(contact_views(v@) =~= contact_views(prev).push(x@));
            assert(generated.take(i + 1) =~= generated.take(i as int).push(generated[i as int]));
            i = i + 1;
        }
        assert(generated.take(n as int) =~= generated);
        assert(contact_views(v@) =~= app_contact_plan(account_id, org_ids@, self.contact_count as nat));
        v
    }

    /// The audit-log entries to create, given the users created before them
    /// (id and e-mail), in order.
    pub fn audit_plan(&self, users: &[(i32, String)]) -> (v: Vec<AuditLogSeed>)
        ensures
            audit_views(v@) == app_audit_plan(user_refs(users@), self.activity_log_count as nat),
    {
        let ghost refs = user_refs(users@);
        let mut v: Vec<AuditLogSeed> = Vec::new();
        let n: usize = if users.len() < 10 {
            users.len()
        } else {
            10
        };
        let ghost logins = Seq::new(n as nat, |i: int| user_login_seed(refs[i], i));
        let mut i: usize = 0;
        while i < n
            invariant
                i <= n <= 10,
                n <= users@.len(),
                refs == user_refs(users@),
                logins == Seq::new(n as nat, |i: int| user_login_seed(refs[i], i)),
                audit_views(v@) == logins.take(i as int),
            decreases n - i,
        {
            let ghost prev = v@;
            let mut x = login_success(i as u64);
            x.user = Some((users[i].0, users[i].1.clone()));
            v.push(x);
            assert(x@ == user_login_seed(refs[i as int], i as int));
            assert(audit_views(v@) =~= audit_views(prev).push(x@));
            assert(logins.take(i + 1) =~= logins.take(i as int).push(logins[i as int]));
            i = i + 1;
        }
        assert(logins.take(n as int) =~= logins);
        push_login_failures(&mut v);
        let ghost after_failures = audit_views(v@);
        if users.len() >= 3 {
            let m: usize = if users.len() < 5 {
                users.len()
            } else {
                5
            };
            let mut k: usize = 0;
            while k < m
                invariant
                    k <= m <= 5,
                    3 <= users@.len(),
                    m <= users@.len(),
                    refs == user_refs(users@),
                    audit_views(v@) == after_failures + management_upto(refs, k as nat),
                decreases m - k,
            {
                let ghost prev = audit_views(v@);
                let target = users[k].0;
                let c = management_entry(&users[0], "Create User", target);
                v.push(c);
                if k < 3 {
                    let u = management_entry(&users[1], "Update User", target);
                    v.push(u);
                }
                assert(audit_views(v@) =~= prev + management_entries(refs, k as int));
                k = k + 1;
            }
        } else {
            assert(audit_views(v@) =~= after_failures + Seq::empty());
        }
        let ghost before_events = audit_views(v@);
        v.push(audit_seed("Configuration", "Update Settings", "Success"));
        v.push(audit_seed("System", "Backup", "Success"));
        v.push(audit_seed("Security", "Password Reset", "Success"));
        v.push(audit_seed("Security", "2FA Enable", "Success"));
        assert(audit_views(v@) =~= before_events + app_system_events());
        push_activities(&mut v, self.activity_log_count);
        assert(audit_views(v@) =~= app_audit_plan(refs, self.activity_log_count as nat));
        v
    }
}

impl Default for AppFixtures {
    fn default() -> (f: Self)
        ensures
            f == AppFixtures::new_spec(),
    {
        Self::new()
    }
}

impl AppFixtures {
    /// The full setup that `new` makes.
    pub open spec fn new_spec() -> AppFixtures {
        AppFixtures {
            load_users: true,
            load_organizations: true,
            load_contacts: true,
            load_audit_logs: true,
            random_user_count: 20,
            organization_count: 10,
            contact_count: 30,
            activity_log_count: 50,
        }
    }
}

impl Fixture for AppFixtures {
    open spec fn spec_order(&self) -> i32 {
        0
    }

    open spec fn spec_enabled(&self) -> bool {
        true
    }

    fn name(&self) -> (r: &str)
        ensures
            r@ == "AppFixtures"@,
    {
        "AppFixtures"
    }

    fn description(&self) -> (r: &str)
        ensures
            r@ == "Load all application fixtures (users, organizations, contacts, audit logs)"@,
    {
        "Load all application fixtures (users, organizations, contacts, audit logs)"
    }

    fn order(&self) -> (r: i32) {
        0
    }

    fn enabled(&self) -> (r: bool) {
        true
    }
}

} // verus!
