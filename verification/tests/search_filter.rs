use pingcrm::search_filter::SearchFilter;
use pingcrm::string_map::StringMap;

fn params(pairs: &[(&str, &str)]) -> StringMap {
    let mut m = StringMap::new();
    for (k, v) in pairs {
        m.insert(k.to_string(), v.to_string());
    }
    m
}

#[test]
fn test_empty_filter() {
    let filter = SearchFilter::from_query_params(StringMap::new());

    assert_eq!(filter.search, None);
    assert_eq!(filter.role, None);
    assert_eq!(filter.trashed, None);
    assert!(!filter.has_filters());
}

#[test]
fn test_search_filter() {
    let filter = SearchFilter::from_query_params(params(&[("search", "john doe  ")]));

    assert_eq!(filter.search, Some("john doe".to_string()));
    assert!(filter.has_filters());
}

#[test]
fn test_empty_search_is_none() {
    let filter = SearchFilter::from_query_params(params(&[("search", " ")]));

    assert_eq!(filter.search, None);
}

#[test]
fn test_valid_roles() {
    for role in ["admin", "editor", "user"] {
        let filter = SearchFilter::from_query_params(params(&[("role", role)]));

        assert_eq!(filter.role, Some(role.to_string()));
        assert!(filter.has_filters());
    }
}

#[test]
fn test_invalid_role() {
    let filter = SearchFilter::from_query_params(params(&[("role", "invalid")]));

    assert_eq!(filter.role, None);
}

#[test]
fn test_valid_trashed() {
    for trashed in ["only", "with"] {
        let filter = SearchFilter::from_query_params(params(&[("trashed", trashed)]));

        assert_eq!(filter.trashed, Some(trashed.to_string()));
        assert!(filter.has_filters());
    }
}

#[test]
fn test_invalid_trashed() {
    let filter = SearchFilter::from_query_params(params(&[("trashed", "invalid")]));

    assert_eq!(filter.trashed, None);
}

#[test]
fn test_combined_filters() {
    let filter = SearchFilter::from_query_params(params(&[
        ("search", "john"),
        ("role", "admin"),
        ("trashed", "with"),
    ]));

    assert_eq!(filter.search, Some("john".to_string()));
    assert_eq!(filter.role, Some("admin".to_string()));
    assert_eq!(filter.trashed, Some("with".to_string()));
    assert!(filter.has_filters());
}

#[test]
fn search_is_trimmed_on_both_sides_including_tabs_and_newlines() {
    let filter = SearchFilter::from_query_params(params(&[("search", "\t  acme corp \n")]));
    assert_eq!(filter.search, Some("acme corp".to_string()));
}

#[test]
fn role_matching_is_case_sensitive() {
    let filter = SearchFilter::from_query_params(params(&[("role", "Admin")]));
    assert_eq!(filter.role, None);
    assert!(!filter.has_filters());
}

#[test]
fn unknown_parameters_are_ignored() {
    let filter = SearchFilter::from_query_params(params(&[("page", "2"), ("sort", "name")]));
    assert!(!filter.has_filters());
}

#[test]
fn a_later_value_for_a_parameter_replaces_the_earlier_one() {
    let mut m = StringMap::new();
    m.insert("role".to_string(), "invalid".to_string());
    m.insert("role".to_string(), "editor".to_string());
    let filter = SearchFilter::from_query_params(m);
    assert_eq!(filter.role, Some("editor".to_string()));
}

#[test]
fn normalizing_a_normalized_search_changes_nothing() {
    let once = SearchFilter::normalize_search(Some("  two  words \t".to_string()));
    assert_eq!(once, Some("two  words".to_string()));
    let twice = SearchFilter::normalize_search(once.clone());
    assert_eq!(twice, once);
    assert_eq!(SearchFilter::normalize_search(Some("\u{3000}".to_string())), None);
}
