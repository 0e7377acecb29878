use pingcrm::requests::account::{CreateAccountRequest, UpdateAccountRequest};
use pingcrm::requests::contact::{CreateContactRequest, UpdateContactRequest};
use pingcrm::requests::organization::CreateOrganizationRequest;
use pingcrm::requests::user::CreateUserRequest;
use pingcrm::validation::RelationshipLink;

fn organization(name: &str, email: Option<&str>) -> CreateOrganizationRequest {
    CreateOrganizationRequest {
        name: name.to_string(),
        email: email.map(|s| s.to_string()),
        phone: None,
        address: None,
        city: None,
        region: None,
        country: None,
        postal_code: None,
        account_id: None,
    }
}

#[test]
fn test_create_account_validation() {
    let request = CreateAccountRequest {
        name: "A".to_string(),
    };

    let result = request.validate();
    assert!(result.is_err());
}

#[test]
fn test_create_account_valid() {
    let request = CreateAccountRequest {
        name: "Acme Corporation".to_string(),
    };

    let result = request.validate();
    assert!(result.is_ok());
}

#[test]
fn test_create_organization_validation() {
    let request = organization("A", Some("invalid-email"));

    let result = request.validate();
    assert!(result.is_err());
}

#[test]
fn test_create_organization_valid() {
    let request = organization("Acme Corp", Some("contact@acme.com"));

    let result = request.validate();
    assert!(result.is_ok());
}

#[test]
fn test_create_user_validation_fails() {
    let request = CreateUserRequest {
        email: "invalid-email".to_string(),
        first_name: "J".to_string(),
        last_name: "D".to_string(),
        password: "123".to_string(),
        owner: None,
        photo_filename: None,
        account_id: None,
    };

    let result = request.validate();
    assert!(result.is_err());
}

#[test]
fn test_create_user_valid() {
    let request = CreateUserRequest {
        email: "john@example.com".to_string(),
        first_name: "John".to_string(),
        last_name: "Doe".to_string(),
        password: "SecurePassword123!".to_string(),
        owner: Some(false),
        photo_filename: None,
        account_id: Some(1),
    };

    let result = request.validate();
    assert!(result.is_ok());
}

#[test]
fn validation_errors_name_each_failed_field_in_order() {
    let request = CreateUserRequest {
        email: "invalid-email".to_string(),
        first_name: "J".to_string(),
        last_name: "D".to_string(),
        password: "123".to_string(),
        owner: None,
        photo_filename: None,
        account_id: None,
    };
    let errors = request.validate().unwrap_err();
    let fields: Vec<&str> = errors.field_errors.iter().map(|e| e.field.as_str()).collect();
    assert!(fields.contains(&"email"));
    assert!(fields.contains(&"password"));
    let email = errors.field_errors.iter().find(|e| e.field == "email").unwrap();
    assert_eq!(email.code, "email");
}

#[test]
fn account_names_are_two_to_a_hundred_characters() {
    let ok = CreateAccountRequest { name: "Ab".to_string() };
    assert!(ok.validate().is_ok());
    let too_long = CreateAccountRequest { name: "x".repeat(101) };
    assert!(too_long.validate().is_err());
}

#[test]
fn new_models_fall_back_to_the_default_account() {
    let model = organization("Acme Corp", None).to_new_model();
    assert_eq!(model.account_id, Some(1));
    let mut named = organization("Acme Corp", None);
    named.account_id = Some(9);
    assert_eq!(named.to_new_model().account_id, Some(9));
}

#[test]
fn relationships_override_the_ids_of_the_payload() {
    let mut c = CreateContactRequest {
        first_name: "John".to_string(),
        last_name: "Doe".to_string(),
        email: None,
        phone: None,
        address: None,
        city: None,
        region: None,
        country: None,
        postal_code: None,
        organization_id: Some(3),
        account_id: Some(4),
    };
    c.apply_relationships(
        Some(RelationshipLink { is_null: false, id: Some(10) }),
        None,
    );
    assert_eq!(c.organization_id, Some(10));
    assert_eq!(c.account_id, Some(4));
    assert!(c.validate().is_ok());
}

#[test]
fn updates_are_stamped_with_the_given_time() {
    let u = UpdateAccountRequest { name: Some("New".to_string()) };
    let m = u.to_update_model(1_234);
    assert_eq!(m.updated_at, 1_234);
    assert_eq!(m.name, Some("New".to_string()));
}

#[test]
fn a_country_code_has_at_most_two_letters() {
    let u = UpdateContactRequest {
        first_name: None,
        last_name: None,
        email: None,
        phone: None,
        address: None,
        city: None,
        region: None,
        country: Some("USA".to_string()),
        postal_code: None,
        organization_id: None,
        account_id: None,
    };
    assert!(u.validate().is_err());
}

fn contact(first: &str, last: &str) -> CreateContactRequest {
    CreateContactRequest {
        first_name: first.to_string(),
        last_name: last.to_string(),
        email: None,
        phone: None,
        address: None,
        city: None,
        region: None,
        country: None,
        postal_code: None,
        organization_id: None,
        account_id: None,
    }
}

fn contact_update() -> UpdateContactRequest {
    UpdateContactRequest {
        first_name: None,
        last_name: None,
        email: None,
        phone: None,
        address: None,
        city: None,
        region: None,
        country: None,
        postal_code: None,
        organization_id: None,
        account_id: None,
    }
}

#[test]
fn test_create_contact_valid_jsonapi() {
    let mut request = contact("John", "Doe");
    request.email = Some("john@example.com".to_string());
    request.phone = Some("+1-555-0100".to_string());
    request.city = Some("New York".to_string());
    request.apply_relationships(Some(RelationshipLink { is_null: false, id: Some(5) }), None);

    assert!(request.validate().is_ok());
    assert_eq!(request.first_name, "John");
    assert_eq!(request.last_name, "Doe");
    assert_eq!(request.email, Some("john@example.com".to_string()));
    assert_eq!(request.organization_id, Some(5));
}

#[test]
fn test_create_contact_plain_json() {
    let mut request = contact("Jane", "Smith");
    request.email = Some("jane@example.com".to_string());
    request.organization_id = Some(10);

    assert!(request.validate().is_ok());
    assert_eq!(request.first_name, "Jane");
    assert_eq!(request.last_name, "Smith");
    assert_eq!(request.email, Some("jane@example.com".to_string()));
    assert_eq!(request.organization_id, Some(10));
}

#[test]
fn test_create_contact_validation_errors() {
    let mut request = contact("", "D");
    request.email = Some("not-an-email".to_string());
    request.country = Some("USA".to_string());

    let result = request.validate();
    assert!(result.is_err());
    let errors = result.unwrap_err();
    assert!(errors.field_errors.len() >= 3);
    let fields: Vec<&str> = errors.field_errors.iter().map(|e| e.field.as_str()).collect();
    assert_eq!(fields, vec!["first_name", "email", "country"]);
}

#[test]
fn test_update_contact_partial_update() {
    let mut request = contact_update();
    request.email = Some("newemail@example.com".to_string());
    request.city = Some("San Francisco".to_string());

    assert!(request.validate().is_ok());
    assert_eq!(request.first_name, None);
    assert_eq!(request.last_name, None);
    assert_eq!(request.email, Some("newemail@example.com".to_string()));
    assert_eq!(request.city, Some("San Francisco".to_string()));
    let update = request.to_update_model(42);
    assert_eq!(update.first_name, None);
    assert_eq!(update.city, Some("San Francisco".to_string()));
    assert_eq!(update.organization_id, None);
    assert_eq!(update.updated_at, 42);
}

#[test]
fn test_update_contact_clear_relationship() {
    let mut request = contact_update();
    request.first_name = Some("John".to_string());
    request.apply_relationships(Some(RelationshipLink { is_null: true, id: None }), None);

    assert!(request.validate().is_ok());
    assert_eq!(request.organization_id, Some(None));
    assert_eq!(request.account_id, None);
}

#[test]
fn test_update_contact_validation_error() {
    let mut request = contact_update();
    request.email = Some("invalid-email".to_string());

    let result = request.validate();
    assert!(result.is_err());
    let errors = result.unwrap_err();
    assert!(errors.field_errors.len() >= 1);
    let email_error = errors.field_errors.iter().find(|e| e.field.contains("email"));
    assert!(email_error.is_some());
}

#[test]
fn account_test_deserialize_from_jsonapi() {
    let request = CreateAccountRequest { name: "Acme Corporation".to_string() };

    assert!(request.validate().is_ok());
    assert_eq!(request.name, "Acme Corporation");
}

#[test]
fn organization_test_deserialize_from_jsonapi() {
    let mut request = CreateOrganizationRequest {
        name: "Acme Corp".to_string(),
        email: Some("contact@acme.com".to_string()),
        phone: None,
        address: None,
        city: None,
        region: None,
        country: None,
        postal_code: None,
        account_id: None,
    };
    request.apply_relationships(None);

    assert!(request.validate().is_ok());
    assert_eq!(request.name, "Acme Corp");
    assert_eq!(request.email, Some("contact@acme.com".to_string()));
}

#[test]
fn user_test_deserialize_from_jsonapi() {
    let mut request = CreateUserRequest {
        email: "john@example.com".to_string(),
        first_name: "John".to_string(),
        last_name: "Doe".to_string(),
        password: "SecurePass123!".to_string(),
        owner: None,
        photo_filename: None,
        account_id: None,
    };
    request.apply_relationships(Some(RelationshipLink { is_null: false, id: Some(1) }));

    assert!(request.validate().is_ok());
    assert_eq!(request.email, "john@example.com");
    assert_eq!(request.account_id, Some(1));
}
