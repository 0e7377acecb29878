use pingcrm::jsonapi::{
    api_not_configured, not_authenticated, check_operation, collection_path, index_include_step, is_include_allowed, item_id_or_zero,
    item_path, not_found, related_target_id, relationship_names, requested_relationship,
    show_include_error, ApiError, BatchOutcome, Cardinality, EntityConfig, IncludeStep,
    IncludeEvent, IncludeRequest, IncludeWalk, IncludedResources, JsonScalar, Operation,
    Operations, Registry, RelationshipMeta,
};
use pingcrm::string_map::TextMap;

fn rel(name: &str, target: &str, local: Option<&str>) -> RelationshipMeta {
    RelationshipMeta {
        name: name.to_string(),
        target_type: target.to_string(),
        cardinality: Cardinality::ToOne,
        local_field: local.map(|s| s.to_string()),
    }
}

fn message(e: &ApiError) -> String {
    match e {
        ApiError::BadRequest(m)
        | ApiError::NotFound(m)
        | ApiError::MethodNotAllowed(m)
        | ApiError::AuthenticationFailed(m)
        | ApiError::AuthorizationFailed(m) => m.clone(),
        ApiError::NotImplemented => String::new(),
    }
}

#[test]
fn refused_operations_name_the_operation_and_resource() {
    let ops = Operations { index: true, show: true, create: false, update: true, delete: false };
    assert!(check_operation(&ops, Operation::Index, "contacts").is_ok());
    let e = check_operation(&ops, Operation::Delete, "contacts").unwrap_err();
    assert!(matches!(e, ApiError::MethodNotAllowed(_)));
    assert_eq!(message(&e), "Delete operation not allowed for resource 'contacts'");
    let c = check_operation(&ops, Operation::Create, "users").unwrap_err();
    assert_eq!(message(&c), "Create operation not allowed for resource 'users'");
}

#[test]
fn missing_resources_and_links() {
    assert_eq!(message(&not_found("organizations", 42)), "organizations 42 not found");
    assert_eq!(message(&not_found("users", -1)), "users -1 not found");
    assert_eq!(collection_path("products"), "/api/v1/products");
    assert_eq!(item_path("products", 7), "/api/v1/products/7");
}

#[test]
fn relationships_are_found_by_name() {
    let rels = vec![rel("account", "accounts", Some("account_id")), rel("organization", "organizations", None)];
    assert_eq!(relationship_names(&rels), vec!["account".to_string(), "organization".to_string()]);
    assert!(is_include_allowed(&rels, "organization"));
    assert!(!is_include_allowed(&rels, "orders"));
    assert_eq!(requested_relationship(&rels, "organization", "contacts").unwrap(), 1);
    let e = requested_relationship(&rels, "owner", "contacts").unwrap_err();
    assert!(matches!(e, ApiError::BadRequest(_)));
    assert_eq!(message(&e), "Relationship 'owner' does not exist on resource 'contacts'");
}

#[test]
fn registry_lookups() {
    let mut handlers: TextMap<u32> = TextMap::new();
    handlers.insert("contacts".to_string(), 1);
    handlers.insert("users".to_string(), 2);
    let mut entities: TextMap<EntityConfig> = TextMap::new();
    entities.insert(
        "contacts".to_string(),
        EntityConfig {
            filterable_fields: vec!["email".to_string()],
            sortable_fields: vec![],
            relationships: vec![rel("organization", "organizations", None)],
        },
    );
    let reg = Registry::from_config(handlers, entities);
    assert_eq!(*reg.get("users").unwrap(), 2);
    assert!(reg.has("contacts"));
    assert!(!reg.has("orders"));
    assert_eq!(message(&reg.get("orders").unwrap_err()), "Resource 'orders' not found");
    let mut names = reg.resources();
    names.sort();
    assert_eq!(names, vec!["contacts".to_string(), "users".to_string()]);
    assert_eq!(reg.entity_config("contacts").unwrap().filterable_fields, vec!["email".to_string()]);
    assert!(reg.entity_config("users").is_none());
    assert_eq!(reg.get_relationship("contacts", "organization").unwrap().target_type, "organizations");
    assert_eq!(
        message(&reg.get_relationship("contacts", "account").unwrap_err()),
        "Relationship 'account' does not exist on resource 'contacts'"
    );
    assert_eq!(
        message(&reg.get_relationship("users", "account").unwrap_err()),
        "Resource 'users' not found"
    );
}

#[test]
fn included_resources_are_kept_once_in_first_seen_order() {
    let mut inc: IncludedResources<&str> = IncludedResources::new();
    assert!(inc.add("organizations", Some("1"), "first"));
    assert!(inc.add("accounts", Some("1"), "account"));
    assert!(!inc.add("organizations", Some("1"), "again"));
    assert!(inc.add("organizations", None, "no id"));
    assert!(!inc.add("organizations", Some(""), "empty id"));
    assert!(inc.contains("organizations:1"));
    assert!(inc.contains("organizations:"));
    assert_eq!(inc.len(), 3);
    assert_eq!(inc.into_items(), vec!["first", "account", "no id"]);
}

#[test]
fn related_ids_come_from_the_attribute_or_the_identifier() {
    let by_attribute = rel("account", "accounts", Some("account_id"));
    let by_identifier = rel("organization", "organizations", None);
    assert_eq!(related_target_id(&by_attribute, Some(JsonScalar::Int(12)), None), Some(12));
    assert_eq!(related_target_id(&by_attribute, Some(JsonScalar::Text("12".to_string())), None), None);
    assert_eq!(related_target_id(&by_attribute, None, Some(JsonScalar::Int(3))), None);
    assert_eq!(related_target_id(&by_attribute, Some(JsonScalar::Int(4_294_967_297)), None), Some(1));
    assert_eq!(related_target_id(&by_identifier, None, Some(JsonScalar::Text("34".to_string()))), Some(34));
    assert_eq!(related_target_id(&by_identifier, None, Some(JsonScalar::Int(35))), Some(35));
    assert_eq!(related_target_id(&by_identifier, None, Some(JsonScalar::Text("x".to_string()))), None);
    assert_eq!(related_target_id(&by_identifier, None, Some(JsonScalar::Other)), None);
}

#[test]
fn include_loading_policies() {
    assert_eq!(index_include_step(BatchOutcome::Loaded), IncludeStep::UseBatch);
    assert_eq!(index_include_step(BatchOutcome::NotImplemented), IncludeStep::LoadEachItem);
    assert_eq!(index_include_step(BatchOutcome::Failed), IncludeStep::Skip);
    assert!(show_include_error(ApiError::NotImplemented).is_none());
    assert!(show_include_error(ApiError::NotFound("x".to_string())).is_some());
    assert_eq!(item_id_or_zero("17"), 17);
    assert_eq!(item_id_or_zero("abc"), 0);
}

#[test]
fn listing_includes_are_walked_batch_first_then_item_by_item() {
    let rels = vec![rel("organization", "organizations", None), rel("account", "accounts", Some("account_id"))];
    let includes = vec!["organization".to_string(), "bogus".to_string(), "account".to_string()];
    let (mut walk, first) = IncludeWalk::start(includes, rels, 2);
    assert_eq!(first, IncludeRequest::LoadBatch { rel: 0 });
    let next = walk.step(IncludeEvent::Loaded(vec![
        ("organizations".to_string(), Some("1".to_string()), "o1"),
        ("organizations".to_string(), Some("1".to_string()), "duplicate"),
    ]));
    assert_eq!(next, IncludeRequest::LoadBatch { rel: 1 });
    assert_eq!(walk.step(IncludeEvent::NotImplemented), IncludeRequest::LoadItem { rel: 1, item: 0 });
    let next = walk.step(IncludeEvent::Loaded(vec![("accounts".to_string(), Some("9".to_string()), "a9")]));
    assert_eq!(next, IncludeRequest::LoadItem { rel: 1, item: 1 });
    assert!(!walk.finished());
    assert_eq!(walk.step(IncludeEvent::Failed), IncludeRequest::Finish);
    assert!(walk.finished());
    assert_eq!(walk.into_included(), vec!["o1", "a9"]);
}

#[test]
fn a_failed_batch_includes_nothing_and_no_items_means_no_item_loads() {
    let rels = vec![rel("organization", "organizations", None)];
    let (mut walk, first) = IncludeWalk::<u8>::start(vec!["organization".to_string()], rels.clone(), 0);
    assert_eq!(first, IncludeRequest::LoadBatch { rel: 0 });
    assert_eq!(walk.step(IncludeEvent::NotImplemented), IncludeRequest::Finish);
    let (mut other, _) = IncludeWalk::<u8>::start(vec!["organization".to_string()], rels, 3);
    assert_eq!(other.step(IncludeEvent::Failed), IncludeRequest::Finish);
    assert!(other.into_included().is_empty());
    let (none, request) = IncludeWalk::<u8>::start(vec!["nothing".to_string()], vec![], 3);
    assert_eq!(request, IncludeRequest::Finish);
    assert!(none.finished());
}

#[test]
fn fixed_errors() {
    assert!(matches!(api_not_configured(), ApiError::NotFound(_)));
    assert_eq!(message(&api_not_configured()), "V1 API not configured");
    assert!(matches!(not_authenticated(), ApiError::AuthorizationFailed(_)));
    assert_eq!(message(&not_authenticated()), "Not authenticated");
}
