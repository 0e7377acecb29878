use pingcrm::parse::{parse_bool, parse_i32};
use pingcrm::query::{
    account_listing_plan, filter_to_predicate, is_foreign_key, listing_plan, order_for,
    search_pattern, user_audit_plan, Comparison, FilterCondition, FilterOperator, Operand,
    PageParams, QueryParams, Resource, SortDirection,
};

fn cond(field: &str, operator: FilterOperator, value: Option<&str>) -> FilterCondition {
    FilterCondition {
        field: field.to_string(),
        operator,
        value: value.map(|v| v.to_string()),
    }
}

fn params(filters: Vec<FilterCondition>, sort: Vec<(&str, SortDirection)>, number: i64, size: i64) -> QueryParams {
    QueryParams {
        filters,
        sort: sort.into_iter().map(|(f, d)| (f.to_string(), d)).collect(),
        page: PageParams { number, size },
        includes: vec![],
    }
}

fn text(p: &pingcrm::query::Predicate) -> Option<&str> {
    match &p.operand {
        Operand::Text(s) => Some(s.as_str()),
        _ => None,
    }
}

#[test]
fn integers_read_like_str_parse() {
    assert_eq!(parse_i32("42"), Some(42));
    assert_eq!(parse_i32("+7"), Some(7));
    assert_eq!(parse_i32("-2147483648"), Some(i32::MIN));
    assert_eq!(parse_i32("2147483647"), Some(i32::MAX));
    assert_eq!(parse_i32("2147483648"), None);
    assert_eq!(parse_i32("-2147483649"), None);
    assert_eq!(parse_i32("99999999999999999999"), None);
    assert_eq!(parse_i32(""), None);
    assert_eq!(parse_i32("-"), None);
    assert_eq!(parse_i32(" 1"), None);
    assert_eq!(parse_i32("1a"), None);
    assert_eq!(parse_i32("007"), Some(7));
    for s in ["0", "-0", "123", "-456", "+1", "12x", "", "2147483648", "-2147483648"] {
        assert_eq!(parse_i32(s), s.parse::<i32>().ok(), "{}", s);
    }
}

#[test]
fn booleans_read_like_str_parse() {
    assert_eq!(parse_bool("true"), Some(true));
    assert_eq!(parse_bool("false"), Some(false));
    assert_eq!(parse_bool("True"), None);
    assert_eq!(parse_bool("1"), None);
}

#[test]
fn product_name_like_matches_anywhere() {
    let p = filter_to_predicate(Resource::Product, &cond("name", FilterOperator::Like, Some("desk"))).unwrap();
    assert_eq!(p.column, "name");
    assert_eq!(p.comparison, Comparison::Like);
    assert_eq!(text(&p), Some("%desk%"));
}

#[test]
fn user_like_uses_the_pattern_as_given() {
    let p = filter_to_predicate(Resource::User, &cond("email", FilterOperator::Like, Some("%@acme.com"))).unwrap();
    assert_eq!(text(&p), Some("%@acme.com"));
}

#[test]
fn product_status_filters_the_stock_status_column() {
    let p = filter_to_predicate(Resource::Product, &cond("status", FilterOperator::Neq, Some("out"))).unwrap();
    assert_eq!(p.column, "stock_status");
    assert_eq!(p.comparison, Comparison::Ne);
    assert!(filter_to_predicate(Resource::Product, &cond("status", FilterOperator::Like, Some("o"))).is_none());
}

#[test]
fn typed_fields_drop_values_that_do_not_read() {
    let p = filter_to_predicate(Resource::Product, &cond("is_visible", FilterOperator::Eq, Some("true"))).unwrap();
    assert!(matches!(p.operand, Operand::Flag(true)));
    assert!(filter_to_predicate(Resource::Product, &cond("is_visible", FilterOperator::Eq, Some("yes"))).is_none());
    let q = filter_to_predicate(Resource::Product, &cond("brand_id", FilterOperator::Eq, Some("12"))).unwrap();
    assert!(matches!(q.operand, Operand::Id(12)));
    assert!(filter_to_predicate(Resource::Product, &cond("brand_id", FilterOperator::Eq, Some("x"))).is_none());
}

#[test]
fn only_organization_ids_take_ranges() {
    let p = filter_to_predicate(Resource::Organization, &cond("id", FilterOperator::Gte, Some("5"))).unwrap();
    assert_eq!(p.comparison, Comparison::Ge);
    assert!(filter_to_predicate(Resource::Organization, &cond("account_id", FilterOperator::Gt, Some("5"))).is_none());
    assert!(filter_to_predicate(Resource::Product, &cond("brand_id", FilterOperator::Lt, Some("5"))).is_none());
}

#[test]
fn null_checks_need_no_value_and_only_some_fields_take_them() {
    let p = filter_to_predicate(Resource::Media, &cond("uploaded_by", FilterOperator::Null, None)).unwrap();
    assert_eq!(p.column, "uploaded_by");
    assert_eq!(p.comparison, Comparison::IsNull);
    let q = filter_to_predicate(Resource::AuditLog, &cond("user_id", FilterOperator::NotNull, None)).unwrap();
    assert_eq!(q.comparison, Comparison::IsNotNull);
    assert!(filter_to_predicate(Resource::Organization, &cond("name", FilterOperator::Null, None)).is_none());
    assert!(filter_to_predicate(Resource::Media, &cond("uploaded_by", FilterOperator::Null, Some("3"))).is_none());
}

#[test]
fn unknown_fields_and_unfiltered_resources_add_nothing() {
    assert!(filter_to_predicate(Resource::User, &cond("password", FilterOperator::Eq, Some("x"))).is_none());
    assert!(filter_to_predicate(Resource::Brand, &cond("name", FilterOperator::Eq, Some("x"))).is_none());
}

#[test]
fn product_orders_by_the_last_known_sort_only() {
    let sorts = vec![
        ("name".to_string(), SortDirection::Ascending),
        ("price".to_string(), SortDirection::Descending),
        ("color".to_string(), SortDirection::Ascending),
    ];
    assert_eq!(
        order_for(Resource::Product, &sorts),
        vec![("price".to_string(), SortDirection::Descending)]
    );
    assert_eq!(
        order_for(Resource::Product, &[]),
        vec![("created_at".to_string(), SortDirection::Descending)]
    );
    let unknown = vec![("color".to_string(), SortDirection::Ascending)];
    assert!(order_for(Resource::Product, &unknown).is_empty());
}

#[test]
fn other_resources_order_by_every_known_sort() {
    let sorts = vec![
        ("last_name".to_string(), SortDirection::Ascending),
        ("bogus".to_string(), SortDirection::Ascending),
        ("email".to_string(), SortDirection::Descending),
    ];
    assert_eq!(
        order_for(Resource::User, &sorts),
        vec![
            ("last_name".to_string(), SortDirection::Ascending),
            ("email".to_string(), SortDirection::Descending)
        ]
    );
    assert!(order_for(Resource::User, &[]).is_empty());
    assert_eq!(
        order_for(Resource::Brand, &[]),
        vec![("name".to_string(), SortDirection::Ascending)]
    );
}

#[test]
fn listings_cover_the_requested_page() {
    let p = listing_plan(
        Resource::Product,
        &params(vec![cond("name", FilterOperator::Eq, Some("Desk"))], vec![], 3, 25),
    );
    assert_eq!(p.offset, 50);
    assert_eq!(p.limit, 25);
    assert!(p.exclude_deleted);
    assert_eq!(p.predicates.len(), 1);

    let b = listing_plan(Resource::Brand, &params(vec![cond("name", FilterOperator::Eq, Some("x"))], vec![("name", SortDirection::Ascending)], 1, 10));
    assert_eq!(b.offset, 0);
    assert!(b.predicates.is_empty());
    assert_eq!(b.order, vec![("created_at".to_string(), SortDirection::Descending)]);
    assert_eq!(
        listing_plan(Resource::OrderItem, &params(vec![], vec![], 1, 10)).order,
        vec![("id".to_string(), SortDirection::Ascending)]
    );
    assert!(listing_plan(Resource::Account, &params(vec![], vec![], 1, 10)).order.is_empty());
}

#[test]
fn account_listings_search_their_columns() {
    let p = account_listing_plan(Resource::Customer, 4, Some("ann"), &params(vec![], vec![], 2, 5));
    assert_eq!(p.search_pattern, Some("%ann%".to_string()));
    assert_eq!(p.search_columns, vec!["name", "email"]);
    assert_eq!(p.offset, 5);
    assert!(matches!(p.predicates[0].operand, Operand::Id(4)));
    assert_eq!(search_pattern(Some("")), None);
    assert_eq!(search_pattern(None), None);
}

#[test]
fn a_users_audit_log_adds_the_user_first() {
    let p = user_audit_plan(8, &params(vec![cond("entity", FilterOperator::Eq, Some("User"))], vec![], 1, 20));
    assert_eq!(p.predicates.len(), 2);
    assert_eq!(p.predicates[0].column, "user_id");
    assert_eq!(p.predicates[1].column, "entity");
}

#[test]
fn batch_loads_accept_only_known_foreign_keys() {
    assert!(is_foreign_key(Resource::Product, "brand_id"));
    assert!(!is_foreign_key(Resource::Product, "customer_id"));
    assert!(is_foreign_key(Resource::OrderItem, "product_id"));
    assert!(!is_foreign_key(Resource::Account, "account_id"));
}

#[test]
fn consecutive_pages_follow_each_other() {
    let p = |n: i64| listing_plan(Resource::User, &params(vec![], vec![], n, 15));
    assert_eq!(p(1).offset, 0);
    assert_eq!(p(2).offset, p(1).offset + 15);
    assert_eq!(p(7).offset, p(6).offset + 15);
}
