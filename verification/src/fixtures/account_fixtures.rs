use vstd::prelude::*;
use crate::fixtures::loader::Fixture;
use crate::text::string_of;

verus! {

/// The names of the demo accounts, in the order they are created.
pub open spec fn demo_account_names() -> Seq<Seq<char>> {
    seq![
        "TechStart Solutions"@,
        "Creative Digital Agency"@,
        "Enterprise Systems Ltd"@,
        "Innovative Products Co"@,
        "Strategic Consulting Group"@,
        "Advanced Manufacturing"@,
        "Modern Services Inc"@,
        "Dynamic Solutions LLC"@,
    ]
}

/// The accounts the fixture creates: the two main accounts, then as many
/// demo accounts as asked for, up to the eight there are.
pub open spec fn account_fixture_plan(create_demo: bool, count: nat) -> Seq<Seq<char>> {
    seq!["Acme Corporation"@, "Global Industries Inc."@] + (if create_demo {
        demo_account_names().take(if count < 8 {
            count as int
        } else {
            8
        })
    } else {
        Seq::empty()
    })
}

/// Seeds the accounts of the multi-tenant setup.
pub struct AccountFixtures {
    pub create_demo_accounts: bool,
    pub demo_account_count: usize,
}

impl AccountFixtures {
    /// With five demo accounts.
    pub fn new() -> (f: Self)
        ensures
            f.create_demo_accounts,
            f.demo_account_count == 5,
    {
        AccountFixtures { create_demo_accounts: true, demo_account_count: 5 }
    }

    /// With `count` demo accounts.
    pub fn with_demo_accounts(self, count: usize) -> (f: Self)
        ensures
            f.create_demo_accounts,
            f.demo_account_count == count,
    {
        AccountFixtures { create_demo_accounts: true, demo_account_count: count }
    }

    /// Without demo accounts.
    pub fn without_demo_accounts(self) -> (f: Self)
        ensures
            !f.create_demo_accounts,
            f.demo_account_count == self.demo_account_count,
    {
        AccountFixtures { create_demo_accounts: false, ..self }
    }

    /// The names of the accounts to create, in order.
    pub fn plan(&self) -> (v: Vec<String>)
        ensures
            v@.map_values(|s: String| s@) == account_fixture_plan(
                self.create_demo_accounts,
                self.demo_account_count as nat,
            ),
    {
        let mut v: Vec<String> = Vec::new();
        v.push(string_of("Acme Corporation"));
        v.push(string_of("Global Industries Inc."));
        if self.create_demo_accounts {
            let names: [&str; 8] = [
                "TechStart Solutions",
                "Creative Digital Agency",
                "Enterprise Systems Ltd",
                "Innovative Products Co",
                "Strategic Consulting Group",
                "Advanced Manufacturing",
                "Modern Services Inc",
                "Dynamic Solutions LLC",
            ];
            assert(names@.map_values(|s: &str| s@) =~= demo_account_names());
            let n: usize = if self.demo_account_count < 8 {
                self.demo_account_count
            } else {
                8
            };
            let mut i: usize = 0;
            while i < n
                invariant
                    i <= n <= 8,
                    names@.map_values(|s: &str| s@) == demo_account_names(),
                    v@.map_values(|s: String| s@) == seq!["Acme Corporation"@, "Global Industries Inc."@]
                        + demo_account_names().take(i as int),
                decreases n - i,
            {
                let ghost prev = v@;
                let s = string_of(names[i]);
                v.push(s);
                assert(v@.map_values(|s: String| s@) =~= prev.map_values(|s: String| s@).push(s@));
                assert(demo_account_names().take(i + 1) =~= demo_account_names().take(i as int).push(
                    demo_account_names()[i as int],
                ));
                i = i + 1;
            }
        }
        assert(v@.map_values(|s: String| s@) =~= account_fixture_plan(
            self.create_demo_accounts,
            self.demo_account_count as nat,
        ));
        v
    }
}

impl Default for AccountFixtures {
    fn default() -> (f: Self)
        ensures
            f.create_demo_accounts,
            f.demo_account_count == 5,
    {
        Self::new()
    }
}

impl Fixture for AccountFixtures {
    open spec fn spec_order(&self) -> i32 {
        5
    }

    open spec fn spec_enabled(&self) -> bool {
        true
    }

    fn name(&self) -> (r: &str)
        ensures
            r@ == "AccountFixtures"@,
    {
        "AccountFixtures"
    }

    fn description(&self) -> (r: &str)
        ensures
            r@ == "Create test accounts for multi-tenant architecture"@,
    {
        "Create test accounts for multi-tenant architecture"
    }

    fn order(&self) -> (r: i32) {
        5
    }

    fn enabled(&self) -> (r: bool) {
        true
    }
}

} // verus!
