use pingcrm::fixtures::account_fixtures::AccountFixtures;
use pingcrm::fixtures::app_fixtures::AppFixtures;
use pingcrm::fixtures::audit_log_fixtures::AuditLogFixtures;
use pingcrm::fixtures::catalog::SeedFixture;
use pingcrm::fixtures::entity_fixtures::EntityFixtures;
use pingcrm::fixtures::loader::{loading_line, purge_order, Fixture, FixtureLoader, LoadAction};
use pingcrm::fixtures::user_fixtures::UserFixtures;

#[test]
fn fixtures_run_by_order_keeping_ties_in_the_order_added() {
    let mut loader = FixtureLoader::new();
    loader.add_fixture(SeedFixture::AuditLog(AuditLogFixtures::new()));
    loader.add_fixture(SeedFixture::User(UserFixtures::new()));
    loader.add_fixtures(vec![
        SeedFixture::Entity(EntityFixtures::new()),
        SeedFixture::Account(AccountFixtures::new()),
        SeedFixture::App(AppFixtures::new()),
    ]);
    assert_eq!(loader.count(), 5);
    assert_eq!(loader.enabled_count(), 5);
    let order = loader.execution_order();
    let names: Vec<&str> = order.iter().map(|&i| loader.get(i).name()).collect();
    assert_eq!(
        names,
        vec!["AppFixtures", "AccountFixtures", "UserFixtures", "AuditLogFixtures", "EntityFixtures"]
    );
}

#[test]
fn fixture_descriptions() {
    assert_eq!(
        UserFixtures::new().description(),
        "Create test users (admins, regular users, special users)"
    );
    assert_eq!(EntityFixtures::new().order(), 20);
    assert_eq!(AccountFixtures::new().order(), 5);
}

#[test]
fn account_plan() {
    let plan = AccountFixtures::new().plan();
    assert_eq!(plan.len(), 7);
    assert_eq!(plan[0], "Acme Corporation");
    assert_eq!(plan[6], "Strategic Consulting Group");
    assert_eq!(AccountFixtures::new().without_demo_accounts().plan().len(), 2);
    assert_eq!(AccountFixtures::new().with_demo_accounts(50).plan().len(), 10);
}

#[test]
fn user_plan_has_the_test_users() {
    let plan = UserFixtures::new().plan(3);
    assert_eq!(plan.len(), 8 + 20 + 3);
    assert_eq!(plan[0].email.as_deref(), Some("admin@example.com"));
    assert_eq!(plan[0].status.as_deref(), Some("active"));
    assert_eq!(plan[3].email.as_deref(), Some("johndoe@example.com"));
    assert_eq!(plan[3].password.as_deref(), Some("secret"));
    assert_eq!(plan[8].role.as_deref(), Some("ROLE_ADMIN"));
    assert_eq!(plan[9].role, None);
    assert_eq!(plan[13].role.as_deref(), Some("ROLE_ADMIN"));
    assert_eq!(plan[30].two_factor_secret.as_deref(), Some("JBSWY3DPEHPK3PXP"));
    assert!(plan.iter().all(|u| u.account_id == 3));
    assert_eq!(UserFixtures::new().without_random_users().plan(1).len(), 11);
}

#[test]
fn audit_log_plan() {
    let plan = AuditLogFixtures::new().with_activity_logs(7).plan();
    assert_eq!(plan.len(), 10 + 5 + 6 + 7);
    assert_eq!(plan[0].ip.as_deref(), Some("192.168.1.100"));
    assert_eq!(plan[9].ip.as_deref(), Some("192.168.1.109"));
    assert_eq!(plan[10].ip.as_deref(), Some("192.168.1.200"));
    assert_eq!(plan[10].details.as_deref(), Some("Invalid credentials"));
    assert_eq!(plan[21].action, "Create");
    assert_eq!(plan[27].action, "Create");
    assert_eq!(plan[26].action, "Import");
}

#[test]
fn app_plans() {
    let app = AppFixtures::new().with_organizations(7).with_contacts(6);
    let users = app.user_plan(1);
    assert_eq!(users.len(), 8 + 20 + 3);
    assert!(users[0].owner);
    assert_eq!(users[3].email.as_deref(), Some("john.doe@example.com"));

    let orgs = app.organization_plan(1);
    assert_eq!(orgs.len(), 7);
    assert_eq!(orgs[4].name.as_deref(), Some("Enterprise Systems"));
    assert_eq!(orgs[5].name, None);

    let contacts = app.contact_plan(1, &[10, 20]);
    assert_eq!(contacts.len(), 6);
    let org_ids: Vec<Option<i32>> = contacts.iter().map(|c| c.organization_id).collect();
    assert_eq!(org_ids, vec![Some(10), Some(20), Some(10), Some(20), Some(10), Some(10)]);
    let lonely = app.contact_plan(1, &[]);
    assert_eq!(lonely[0].organization_id, Some(0));
    assert_eq!(lonely[5].organization_id, None);
    assert_eq!(AppFixtures::new().with_contacts(2).contact_plan(1, &[]).len(), 5);

    let few = app.with_activity_logs(0).audit_plan(&[(5, "a@x".to_string()), (6, "b@x".to_string())]);
    assert_eq!(few.len(), 2 + 5 + 4);
    assert_eq!(few[1].user, Some((6, "b@x".to_string())));
}

#[test]
fn app_audit_plan_manages_the_first_users() {
    let users: Vec<(i32, String)> = (1..=12).map(|i| (i, format!("u{}@x", i))).collect();
    let plan = AppFixtures::new().with_activity_logs(3).audit_plan(&users);
    assert_eq!(plan.len(), 10 + 5 + 8 + 4 + 3);
    let m = &plan[15..23];
    assert_eq!(m[0].action, "Create User");
    assert_eq!(m[0].user, Some((1, "u1@x".to_string())));
    assert_eq!(m[0].resource.as_deref(), Some("User:1"));
    assert_eq!(m[1].action, "Update User");
    assert_eq!(m[1].user, Some((2, "u2@x".to_string())));
    assert_eq!(m[7].resource.as_deref(), Some("User:5"));
    assert_eq!(m[7].action, "Create User");
}

#[test]
fn entity_plans() {
    let e = EntityFixtures::new();
    let orgs = e.organization_plan(2);
    assert_eq!(orgs.len(), 5);
    assert_eq!(orgs[0].name.as_deref(), Some("Tech Solutions Ltd"));
    assert_eq!(EntityFixtures::organizations_only().organization_plan(2).len(), 8);

    let contacts = EntityFixtures::organization_contacts(2, 1, 77);
    assert_eq!(contacts.len(), 2);
    assert_eq!(contacts[0].email.as_deref(), Some("john.smith@globalconsulting"));
    assert_eq!(contacts[1].email.as_deref(), Some("sarah.johnson@globalconsulting"));
    assert_eq!(contacts[1].phone.as_deref(), Some("+1-555-1011"));
    assert_eq!(contacts[0].organization_id, Some(77));
    assert!(EntityFixtures::organization_contacts(2, 3, 77).is_empty());

    let categories = EntityFixtures::category_plan(2);
    assert_eq!(categories[1].description, "High-quality office supplies for business and personal use");
    let brands = EntityFixtures::brand_plan(2);
    assert_eq!(brands[0].description, "Premium Brand - Quality products for discerning customers");

    let created: Vec<(i32, String)> = vec![(11, "TechPro".to_string()), (12, "Premium Brand".to_string()), (13, "TechPro".to_string())];
    let products = e.product_plan(2, &created);
    assert_eq!(products.len(), 20);
    assert_eq!(products[0].brand_id, Some(11));
    assert_eq!(products[1].brand_id, Some(12));
    assert_eq!(products[4].brand_id, None);
    assert_eq!(products[3].price, 39999);
    assert_eq!(products[0].description, "Premium Wireless Mouse - perfect for your office needs");

    let customers = e.customer_plan(2);
    assert_eq!(customers.len(), 10);
    let addresses = EntityFixtures::customer_addresses(2, 2, 55);
    assert_eq!(addresses.len(), 2);
    assert_eq!(addresses[0].street, "120 Main St");
    assert_eq!(addresses[1].street, "220 Oak Ave");
    assert_eq!(addresses[1].postal_code, "62702");
    assert_eq!(addresses[0].region, "IL");
    assert!(EntityFixtures::customer_addresses(2, 3, 55).is_empty());
}

#[test]
fn purging_empties_children_before_parents() {
    let order = purge_order();
    assert_eq!(order.len(), 12);
    assert_eq!(order[0], "order_items");
    assert_eq!(order[11], "accounts");
    let pos = |t: &str| order.iter().position(|x| *x == t).unwrap();
    assert!(pos("orders") < pos("customers"));
    assert!(pos("contacts") < pos("organizations"));
    assert!(pos("users") < pos("accounts"));
}

#[test]
fn loading_lines() {
    assert_eq!(loading_line("UserFixtures", "Create users"), "Loading: UserFixtures - Create users");
    assert_eq!(loading_line("Bare", ""), "Loading: Bare");
}

#[test]
fn the_special_users_are_created_but_not_handed_on() {
    let app = AppFixtures::new().with_random_users(2);
    let plan = app.user_plan(1);
    assert_eq!(plan.len(), 13);
    let created: Vec<String> = plan.iter().map(|u| u.email.clone().unwrap_or_default()).collect();
    let handed_on = app.handed_on_users(created);
    assert_eq!(handed_on.len(), 10);
    assert_eq!(handed_on[0], "admin@example.com");
    assert_eq!(handed_on[1], "manager@example.com");
    assert!(!handed_on.iter().any(|e| e == "disabled@example.com" || e == "locked@example.com" || e == "secure@example.com"));
}

fn two_fixture_loader() -> FixtureLoader<SeedFixture> {
    let mut loader = FixtureLoader::new();
    loader
        .add_fixture(SeedFixture::User(UserFixtures::new()))
        .add_fixture(SeedFixture::Account(AccountFixtures::new()));
    loader
}

#[test]
fn a_run_purges_first_then_loads_in_order() {
    let loader = two_fixture_loader();
    let (mut run, first) = loader.start_run(true);
    assert_eq!(first, LoadAction::Connect);
    for table in 0..purge_order().len() {
        assert_eq!(run.step(true), LoadAction::Delete(table));
    }
    // AccountFixtures runs before UserFixtures.
    assert_eq!(run.step(true), LoadAction::Load(1));
    assert_eq!(run.step(true), LoadAction::Load(0));
    assert!(!run.finished());
    assert_eq!(run.step(true), LoadAction::Finish(true));
    assert!(run.finished());
}

#[test]
fn a_run_stops_at_the_first_failure() {
    let loader = two_fixture_loader();
    let (mut run, first) = loader.start_run(false);
    assert_eq!(first, LoadAction::Load(1));
    assert_eq!(run.step(false), LoadAction::Finish(false));
    assert!(run.finished());

    let (mut purging, _) = loader.start_run(true);
    assert_eq!(purging.step(true), LoadAction::Delete(0));
    assert_eq!(purging.step(false), LoadAction::Finish(false));
}

#[test]
fn a_run_with_nothing_to_do_ends_at_once() {
    let loader: FixtureLoader<SeedFixture> = FixtureLoader::new();
    let (run, first) = loader.start_run(false);
    assert_eq!(first, LoadAction::Finish(true));
    assert!(run.finished());
}
