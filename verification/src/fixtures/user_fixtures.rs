use vstd::prelude::*;
use crate::fixtures::loader::Fixture;
use crate::fixtures::seeds::{named_user, user_default, user_seed, UserSeed, UserSeedView};
use crate::text::string_of;

verus! {

/// The views of a list of user seeds.
pub open spec fn user_views(v: Seq<UserSeed>) -> Seq<UserSeedView> {
    v.map_values(|s: UserSeed| s@)
}

/// The named users every setup has: the super admin, two admins, the demo
/// user and four regular users.
pub open spec fn core_users(account_id: i32) -> Seq<UserSeedView> {
    seq![
        UserSeedView {
            status: Some("active"@),
            ..named_user(account_id, "admin@example.com"@, "Super Admin"@, "admin123"@, Some("ROLE_SUPER_ADMIN"@))
        },
        named_user(account_id, "manager@example.com"@, "Sarah Manager"@, "password123"@, Some("ROLE_ADMIN"@)),
        named_user(account_id, "admin.john@example.com"@, "John Administrator"@, "password123"@, Some("ROLE_ADMIN"@)),
        named_user(account_id, "johndoe@example.com"@, "John Doe"@, "secret"@, Some("ROLE_USER"@)),
        named_user(account_id, "jane.smith@example.com"@, "Jane Smith"@, "password123"@, Some("ROLE_USER"@)),
        named_user(account_id, "bob.wilson@example.com"@, "Bob Wilson"@, "password123"@, Some("ROLE_USER"@)),
        named_user(account_id, "alice.johnson@example.com"@, "Alice Johnson"@, "password123"@, Some("ROLE_USER"@)),
        named_user(account_id, "charlie.brown@example.com"@, "Charlie Brown"@, "password123"@, Some("ROLE_USER"@)),
    ]
}

/// The `i`-th generated user: every fifth one, from the first, is an admin.
pub open spec fn random_user(account_id: i32, i: int) -> UserSeedView {
    if i % 5 == 0 {
        UserSeedView { role: Some("ROLE_ADMIN"@), ..user_default(account_id) }
    } else {
        user_default(account_id)
    }
}

/// `n` generated users.
pub open spec fn random_users(account_id: i32, n: nat) -> Seq<UserSeedView> {
    Seq::new(n, |i: int| random_user(account_id, i))
}

/// The users with a special state: disabled, locked, and with two-factor
/// authentication.
pub open spec fn special_users(account_id: i32) -> Seq<UserSeedView> {
    seq![
        UserSeedView {
            status: Some("disabled"@),
            ..named_user(account_id, "disabled@example.com"@, "Disabled User"@, "password123"@, None)
        },
        UserSeedView {
            status: Some("locked"@),
            ..named_user(account_id, "locked@example.com"@, "Locked User"@, "password123"@, None)
        },
        UserSeedView {
            two_factor_secret: Some("JBSWY3DPEHPK3PXP"@),
            ..named_user(account_id, "secure@example.com"@, "Secure User"@, "password123"@, None)
        },
    ]
}

/// What the user fixture creates in the account `account_id` (the oldest
/// one), in order.
pub open spec fn user_fixture_plan(account_id: i32, create_random: bool, count: nat) -> Seq<UserSeedView> {
    core_users(account_id) + (if create_random {
        random_users(account_id, count)
    } else {
        Seq::empty()
    }) + special_users(account_id)
}

fn named(account_id: i32, email: &str, name: &str, password: &str, role: &str) -> (s: UserSeed)
    ensures
        s@ == named_user(account_id, email@, name@, password@, Some(role@)),
{
    user_seed(account_id, Some(email), Some(name), Some(password), Some(role))
}

fn push_core_users(v: &mut Vec<UserSeed>, account_id: i32)
    ensures
        user_views(final(v)@) == user_views(old(v)@) + core_users(account_id),
{
    let mut admin = named(account_id, "admin@example.com", "Super Admin", "admin123", "ROLE_SUPER_ADMIN");
    admin.status = Some(string_of("active"));
    v.push(admin);
    v.push(named(account_id, "manager@example.com", "Sarah Manager", "password123", "ROLE_ADMIN"));
    v.push(named(account_id, "admin.john@example.com", "John Administrator", "password123", "ROLE_ADMIN"));
    v.push(named(account_id, "johndoe@example.com", "John Doe", "secret", "ROLE_USER"));
    v.push(named(account_id, "jane.smith@example.com", "Jane Smith", "password123", "ROLE_USER"));
    v.push(named(account_id, "bob.wilson@example.com", "Bob Wilson", "password123", "ROLE_USER"));
    v.push(named(account_id, "alice.johnson@example.com", "Alice Johnson", "password123", "ROLE_USER"));
    v.push(named(account_id, "charlie.brown@example.com", "Charlie Brown", "password123", "ROLE_USER"));
    assert(user_views(v@) =~= user_views(old(v)@) + core_users(account_id));
}

pub fn push_random_users(v: &mut Vec<UserSeed>, account_id: i32, n: usize)
    ensures
        user_views(final(v)@) == user_views(old(v)@) + random_users(account_id, n as nat),
{
    let mut i: usize = 0;
    while i < n
        invariant
            i <= n,
            user_views(v@) == user_views(old(v)@) + random_users(account_id, n as nat).take(i as int),
        decreases n - i,
    {
        let ghost prev = v@;
        let x = if i % 5 == 0 {
            user_seed(account_id, None, None, None, Some("ROLE_ADMIN"))
        } else {
            user_seed(account_id, None, None, None, None)
        };
        v.push(x);
        assert(user_views(v@) =~= user_views(prev).push(x@));
        assert(random_users(account_id, n as nat).take(i + 1) =~= random_users(account_id, n as nat).take(
            i as int,
        ).push(random_user(account_id, i as int)));
        i = i + 1;
    }
    assert(random_users(account_id, n as nat).take(n as int) =~= random_users(account_id, n as nat));
}

pub fn push_special_users(v: &mut Vec<UserSeed>, account_id: i32)
    ensures
        user_views(final(v)@) == user_views(old(v)@) + special_users(account_id),
{
    let mut disabled = user_seed(
        account_id,
        Some("disabled@example.com"),
        Some("Disabled User"),
        Some("password123"),
        None,
    );
    disabled.status = Some(string_of("disabled"));
    v.push(disabled);
    let mut locked = user_seed(
        account_id,
        Some("locked@example.com"),
        Some("Locked User"),
        Some("password123"),
        None,
    );
    locked.status = Some(string_of("locked"));
    v.push(locked);
    let mut secure = user_seed(
        account_id,
        Some("secure@example.com"),
        Some("Secure User"),
        Some("password123"),
        None,
    );
    secure.two_factor_secret = Some(string_of("JBSWY3DPEHPK3PXP"));
    v.push(secure);
    assert(user_views(v@) =~= user_views(old(v)@) + special_users(account_id));
}

/// Seeds administrators, regular users and users in special states.
pub struct UserFixtures {
    pub create_random_users: bool,
    pub random_user_count: usize,
}

impl UserFixtures {
    /// With 20 generated users.
    pub fn new() -> (f: Self)
        ensures
            f.create_random_users,
            f.random_user_count == 20,
    {
        UserFixtures { create_random_users: true, random_user_count: 20 }
    }

    /// With `count` generated users.
    pub fn with_random_users(self, count: usize) -> (f: Self)
        ensures
            f.create_random_users,
            f.random_user_count == count,
    {
        UserFixtures { create_random_users: true, random_user_count: count }
    }

    /// Without generated users.
    pub fn without_random_users(self) -> (f: Self)
        ensures
            !f.create_random_users,
            f.random_user_count == self.random_user_count,
    {
        UserFixtures { create_random_users: false, ..self }
    }

    /// The users to create in the account `account_id`, in order.
    pub fn plan(&self, account_id: i32) -> (v: Vec<UserSeed>)
        ensures
            user_views(v@) == user_fixture_plan(
                account_id,
                self.create_random_users,
                self.random_user_count as nat,
            ),
    {
        let mut v: Vec<UserSeed> = Vec::new();
        push_core_users(&mut v, account_id);
        let ghost mid = user_views(v@);
        if self.create_random_users {
            push_random_users(&mut v, account_id, self.random_user_count);
        } else {
            assert(user_views(v@) =~= mid + Seq::empty());
        }
        push_special_users(&mut v, account_id);
        assert(user_views(v@) =~= user_fixture_plan(
            account_id,
            self.create_random_users,
            self.random_user_count as nat,
        ));
        v
    }
}

impl Default for UserFixtures {
    fn default() -> (f: Self)
        ensures
            f.create_random_users,
            f.random_user_count == 20,
    {
        Self::new()
    }
}

impl Fixture for UserFixtures {
    open spec fn spec_order(&self) -> i32 {
        10
    }

    open spec fn spec_enabled(&self) -> bool {
        true
    }

    fn name(&self) -> (r: &str)
        ensures
            r@ == "UserFixtures"@,
    {
        "UserFixtures"
    }

    fn description(&self) -> (r: &str)
        ensures
            r@ == "Create test users (admins, regular users, special users)"@,
    {
        "Create test users (admins, regular users, special users)"
    }

    fn order(&self) -> (r: i32) {
        10
    }

    fn enabled(&self) -> (r: bool) {
        true
    }
}

/// A seeded user with the e-mail `email`, the password `password` and a role,
/// status and second factor as given.
pub open spec fn has_user(
    plan: Seq<UserSeedView>,
    email: Seq<char>,
    password: Seq<char>,
    role: Option<Seq<char>>,
    status: Option<Seq<char>>,
    two_factor: bool,
) -> bool {
    exists|i: int|
        0 <= i < plan.len() && (#[trigger] plan[i]).email == Some(email) && plan[i].password == Some(password)
            && plan[i].role == role && plan[i].status == status && (plan[i].two_factor_secret is Some)
            == two_factor
}

/// Whatever the generated users, the user fixture seeds the test users that
/// can log in after seeding: the demo user, the super admin, the two
/// admins, a regular user, the disabled and the locked user, and the user
/// with two-factor authentication, each with its password.
pub proof fn law_test_users_seeded(account_id: i32, create_random: bool, count: nat)
    ensures
        ({
            let plan = user_fixture_plan(account_id, create_random, count);
            &&& has_user(plan, "johndoe@example.com"@, "secret"@, Some("ROLE_USER"@), None, false)
            &&& has_user(plan, "admin@example.com"@, "admin123"@, Some("ROLE_SUPER_ADMIN"@), Some("active"@), false)
            &&& has_user(plan, "manager@example.com"@, "password123"@, Some("ROLE_ADMIN"@), None, false)
            &&& has_user(plan, "admin.john@example.com"@, "password123"@, Some("ROLE_ADMIN"@), None, false)
            &&& has_user(plan, "jane.smith@example.com"@, "password123"@, Some("ROLE_USER"@), None, false)
            &&& has_user(plan, "disabled@example.com"@, "password123"@, None, Some("disabled"@), false)
            &&& has_user(plan, "locked@example.com"@, "password123"@, None, Some("locked"@), false)
            &&& has_user(plan, "secure@example.com"@, "password123"@, None, None, true)
        }),
{
    let plan = user_fixture_plan(account_id, create_random, count);
    let mid = if create_random {
        random_users(account_id, count)
    } else {
        Seq::empty()
    };
    let n: int = 8 + mid.len() as int;
    assert(plan[3] == core_users(account_id)[3]);
    assert(plan[0] == core_users(account_id)[0]);
    assert(plan[1] == core_users(account_id)[1]);
    assert(plan[2] == core_users(account_id)[2]);
    assert(plan[4] == core_users(account_id)[4]);
    assert(plan[n] == special_users(account_id)[0]);
    assert(plan[n + 1] == special_users(account_id)[1]);
    assert(plan[n + 2] == special_users(account_id)[2]);
}

} // verus!
