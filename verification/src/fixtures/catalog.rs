use vstd::prelude::*;
use crate::fixtures::account_fixtures::AccountFixtures;
use crate::fixtures::app_fixtures::AppFixtures;
use crate::fixtures::audit_log_fixtures::AuditLogFixtures;
use crate::fixtures::entity_fixtures::EntityFixtures;
use crate::fixtures::loader::Fixture;
use crate::fixtures::user_fixtures::UserFixtures;

verus! {

/// Any of the application's fixtures, so that one loader can hold them all.
pub enum SeedFixture {
    App(AppFixtures),
    Account(AccountFixtures),
    User(UserFixtures),
    AuditLog(AuditLogFixtures),
    Entity(EntityFixtures),
}

impl Fixture for SeedFixture {
    open spec fn spec_order(&self) -> i32 {
        match self {
            SeedFixture::App(f) => f.spec_order(),
            SeedFixture::Account(f) => f.spec_order(),
            SeedFixture::User(f) => f.spec_order(),
            SeedFixture::AuditLog(f) => f.spec_order(),
            SeedFixture::Entity(f) => f.spec_order(),
        }
    }

    open spec fn spec_enabled(&self) -> bool {
        true
    }

    fn name(&self) -> (r: &str)
        ensures
            r@ == match self {
                SeedFixture::App(_) => "AppFixtures"@,
                SeedFixture::Account(_) => "AccountFixtures"@,
                SeedFixture::User(_) => "UserFixtures"@,
                SeedFixture::AuditLog(_) => "AuditLogFixtures"@,
                SeedFixture::Entity(_) => "EntityFixtures"@,
            },
    {
        match self {
            SeedFixture::App(f) => f.name(),
            SeedFixture::Account(f) => f.name(),
            SeedFixture::User(f) => f.name(),
            SeedFixture::AuditLog(f) => f.name(),
            SeedFixture::Entity(f) => f.name(),
        }
    }

    fn description(&self) -> (r: &str)
        ensures
            r@ == match self {
                SeedFixture::App(_) => "Load all application fixtures (users, organizations, contacts, audit logs)"@,
                SeedFixture::Account(_) => "Create test accounts for multi-tenant architecture"@,
                SeedFixture::User(_) => "Create test users (admins, regular users, special users)"@,
                SeedFixture::AuditLog(_) => "Create test audit logs (authentication, system events, activity)"@,
                SeedFixture::Entity(_) => "Create test data for business entities (organizations, products, customers)"@,
            },
    {
        match self {
            SeedFixture::App(f) => f.description(),
            SeedFixture::Account(f) => f.description(),
            SeedFixture::User(f) => f.description(),
            SeedFixture::AuditLog(f) => f.description(),
            SeedFixture::Entity(f) => f.description(),
        }
    }

    fn order(&self) -> (r: i32) {
        match self {
            SeedFixture::App(f) => f.order(),
            SeedFixture::Account(f) => f.order(),
            SeedFixture::User(f) => f.order(),
            SeedFixture::AuditLog(f) => f.order(),
            SeedFixture::Entity(f) => f.order(),
        }
    }

    fn enabled(&self) -> (r: bool) {
        true
    }
}

} // verus!
