//! What a fixture asks the entity factory to create. A field left `None`
//! is filled by the factory with generated data.
use vstd::prelude::*;
use crate::search_filter::opt_view;
use crate::text::{push_u64, string_of};

verus! {

/// A user to create.
#[derive(Debug, Clone)]
pub struct UserSeed {
    pub email: Option<String>,
    pub name: Option<String>,
    pub password: Option<String>,
    pub role: Option<String>,
    pub status: Option<String>,
    pub account_id: i32,
    pub owner: bool,
    pub two_factor_secret: Option<String>,
}

/// The content of a user seed.
pub struct UserSeedView {
    pub email: Option<Seq<char>>,
    pub name: Option<Seq<char>>,
    pub password: Option<Seq<char>>,
    pub role: Option<Seq<char>>,
    pub status: Option<Seq<char>>,
    pub account_id: i32,
    pub owner: bool,
    pub two_factor_secret: Option<Seq<char>>,
}

impl View for UserSeed {
    type V = UserSeedView;

    open spec fn view(&self) -> UserSeedView {
        UserSeedView {
            email: opt_view(self.email),
            name: opt_view(self.name),
            password: opt_view(self.password),
            role: opt_view(self.role),
            status: opt_view(self.status),
            account_id: self.account_id,
            owner: self.owner,
            two_factor_secret: opt_view(self.two_factor_secret),
        }
    }
}

/// A user seed with everything generated but the account.
pub open spec fn user_default(account_id: i32) -> UserSeedView {
    UserSeedView {
        email: None,
        name: None,
        password: None,
        role: None,
        status: None,
        account_id,
        owner: false,
        two_factor_secret: None,
    }
}

/// A named user seed: e-mail, name, password and role given.
pub open spec fn named_user(
    account_id: i32,
    email: Seq<char>,
    name: Seq<char>,
    password: Seq<char>,
    role: Option<Seq<char>>,
) -> UserSeedView {
    UserSeedView {
        email: Some(email),
        name: Some(name),
        password: Some(password),
        role,
        ..user_default(account_id)
    }
}

pub fn user_seed(
    account_id: i32,
    email: Option<&str>,
    name: Option<&str>,
    password: Option<&str>,
    role: Option<&str>,
) -> (s: UserSeed)
    ensures
        s@ == (UserSeedView {
            email: match email { Some(x) => Some(x@), None => None },
            name: match name { Some(x) => Some(x@), None => None },
            password: match password { Some(x) => Some(x@), None => None },
            role: match role { Some(x) => Some(x@), None => None },
            ..user_default(account_id)
        }),
{
    UserSeed {
        email: opt_string(email),
        name: opt_string(name),
        password: opt_string(password),
        role: opt_string(role),
        status: None,
        account_id,
        owner: false,
        two_factor_secret: None,
    }
}

/// An owned copy of an optional text.
pub fn opt_string(o: Option<&str>) -> (r: Option<String>)
    ensures
        opt_view(r) == match o {
            Some(x) => Some(x@),
            None => None,
        },
{
    match o {
        Some(x) => Some(string_of(x)),
        None => None,
    }
}

/// An audit-log entry to create.
#[derive(Debug, Clone)]
pub struct AuditLogSeed {
    pub entity: String,
    pub action: String,
    pub status: String,
    pub ip: Option<String>,
    pub user_agent: Option<String>,
    pub details: Option<String>,
    pub user: Option<(i32, String)>,
    pub resource: Option<String>,
}

/// The content of an audit-log seed.
pub struct AuditLogSeedView {
    pub entity: Seq<char>,
    pub action: Seq<char>,
    pub status: Seq<char>,
    pub ip: Option<Seq<char>>,
    pub user_agent: Option<Seq<char>>,
    pub details: Option<Seq<char>>,
    pub user: Option<(i32, Seq<char>)>,
    pub resource: Option<Seq<char>>,
}

impl View for AuditLogSeed {
    type V = AuditLogSeedView;

    open spec fn view(&self) -> AuditLogSeedView {
        AuditLogSeedView {
            entity: self.entity@,
            action: self.action@,
            status: self.status@,
            ip: opt_view(self.ip),
            user_agent: opt_view(self.user_agent),
            details: opt_view(self.details),
            user: match self.user {
                Some(u) => Some((u.0, u.1@)),
                None => None,
            },
            resource: opt_view(self.resource),
        }
    }
}

/// An audit-log seed with only entity, action and status.
pub open spec fn audit_plain(entity: Seq<char>, action: Seq<char>, status: Seq<char>) -> AuditLogSeedView {
    AuditLogSeedView {
        entity,
        action,
        status,
        ip: None,
        user_agent: None,
        details: None,
        user: None,
        resource: None,
    }
}

pub fn audit_seed(entity: &str, action: &str, status: &str) -> (s: AuditLogSeed)
    ensures
        s@ == audit_plain(entity@, action@, status@),
{
    AuditLogSeed {
        entity: string_of(entity),
        action: string_of(action),
        status: string_of(status),
        ip: None,
        user_agent: None,
        details: None,
        user: None,
        resource: None,
    }
}

/// The browser that the seeded successful logins came from.
pub open spec fn seed_user_agent() -> Seq<char> {
    "Mozilla/5.0 (Windows NT 10.0; Win64; x64)"@
}

/// The address `192.168.1.<n>`.
pub open spec fn lan_ip(n: nat) -> Seq<char> {
    "192.168.1."@ + crate::text::dec_nat(n)
}

pub fn lan_ip_string(n: u64) -> (s: String)
    ensures
        s@ == lan_ip(n as nat),
{
    let mut s = string_of("192.168.1.");
    push_u64(&mut s, n);
    s
}

/// The kind of generated activity for the `i`-th activity entry.
pub open spec fn activity_action(i: int) -> Seq<char> {
    let r = i % 6;
    if r == 0 {
        "Create"@
    } else if r == 1 {
        "Update"@
    } else if r == 2 {
        "Delete"@
    } else if r == 3 {
        "View"@
    } else if r == 4 {
        "Export"@
    } else {
        "Import"@
    }
}

pub fn activity_action_str(i: usize) -> (s: &'static str)
    ensures
        s@ == activity_action(i as int),
{
    let r = i % 6;
    if r == 0 {
        "Create"
    } else if r == 1 {
        "Update"
    } else if r == 2 {
        "Delete"
    } else if r == 3 {
        "View"
    } else if r == 4 {
        "Export"
    } else {
        "Import"
    }
}

/// A generated activity entry.
pub open spec fn activity_seed(i: int) -> AuditLogSeedView {
    audit_plain("User Activity"@, activity_action(i), "Success"@)
}

/// A successful login from `192.168.1.<100 + i>`.
pub open spec fn login_success_seed(i: int) -> AuditLogSeedView {
    AuditLogSeedView {
        ip: Some(lan_ip((100 + i) as nat)),
        user_agent: Some(seed_user_agent()),
        ..audit_plain("Authentication"@, "Login"@, "Success"@)
    }
}

/// A failed login from `192.168.1.<200 + i>`.
pub open spec fn login_failed_seed(i: int) -> AuditLogSeedView {
    AuditLogSeedView {
        ip: Some(lan_ip((200 + i) as nat)),
        details: Some("Invalid credentials"@),
        ..audit_plain("Authentication"@, "Login"@, "Failed"@)
    }
}

pub fn login_success(i: u64) -> (s: AuditLogSeed)
    requires
        i <= u64::MAX - 200,
    ensures
        s@ == login_success_seed(i as int),
{
    let mut s = audit_seed("Authentication", "Login", "Success");
    s.ip = Some(lan_ip_string(100 + i));
    s.user_agent = Some(string_of("Mozilla/5.0 (Windows NT 10.0; Win64; x64)"));
    s
}

pub fn login_failed(i: u64) -> (s: AuditLogSeed)
    requires
        i <= u64::MAX - 200,
    ensures
        s@ == login_failed_seed(i as int),
{
    let mut s = audit_seed("Authentication", "Login", "Failed");
    s.ip = Some(lan_ip_string(200 + i));
    s.details = Some(string_of("Invalid credentials"));
    s
}

/// An organization to create.
#[derive(Debug, Clone)]
pub struct OrganizationSeed {
    pub name: Option<String>,
    pub email: Option<String>,
    pub phone: Option<String>,
    pub account_id: i32,
}

/// The content of an organization seed.
pub struct OrganizationSeedView {
    pub name: Option<Seq<char>>,
    pub email: Option<Seq<char>>,
    pub phone: Option<Seq<char>>,
    pub account_id: i32,
}

impl View for OrganizationSeed {
    type V = OrganizationSeedView;

    open spec fn view(&self) -> OrganizationSeedView {
        OrganizationSeedView {
            name: opt_view(self.name),
            email: opt_view(self.email),
            phone: opt_view(self.phone),
            account_id: self.account_id,
        }
    }
}

pub fn organization_seed(account_id: i32, name: Option<&str>, email: Option<&str>, phone: Option<&str>) -> (s:
    OrganizationSeed)
    ensures
        s@ == (OrganizationSeedView {
            name: match name { Some(x) => Some(x@), None => None },
            email: match email { Some(x) => Some(x@), None => None },
            phone: match phone { Some(x) => Some(x@), None => None },
            account_id,
        }),
{
    OrganizationSeed {
        name: opt_string(name),
        email: opt_string(email),
        phone: opt_string(phone),
        account_id,
    }
}

/// A contact to create.
#[derive(Debug, Clone)]
pub struct ContactSeed {
    pub first_name: Option<String>,
    pub last_name: Option<String>,
    pub email: Option<String>,
    pub phone: Option<String>,
    pub account_id: i32,
    pub organization_id: Option<i32>,
}

/// The content of a contact seed.
pub struct ContactSeedView {
    pub first_name: Option<Seq<char>>,
    pub last_name: Option<Seq<char>>,
    pub email: Option<Seq<char>>,
    pub phone: Option<Seq<char>>,
    pub account_id: i32,
    pub organization_id: Option<i32>,
}

impl View for ContactSeed {
    type V = ContactSeedView;

    open spec fn view(&self) -> ContactSeedView {
        ContactSeedView {
            first_name: opt_view(self.first_name),
            last_name: opt_view(self.last_name),
            email: opt_view(self.email),
            phone: opt_view(self.phone),
            account_id: self.account_id,
            organization_id: self.organization_id,
        }
    }
}

/// A contact seed with everything generated but the account and the
/// organization.
pub open spec fn contact_default(account_id: i32, organization_id: Option<i32>) -> ContactSeedView {
    ContactSeedView {
        first_name: None,
        last_name: None,
        email: None,
        phone: None,
        account_id,
        organization_id,
    }
}

pub fn contact_seed(account_id: i32, organization_id: Option<i32>) -> (s: ContactSeed)
    ensures
        s@ == contact_default(account_id, organization_id),
{
    ContactSeed {
        first_name: None,
        last_name: None,
        email: None,
        phone: None,
        account_id,
        organization_id,
    }
}

} // verus!
