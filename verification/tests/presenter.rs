use pingcrm::presenter::Presenter;

struct Initials;

impl Presenter<(String, String), String> for Initials {
    fn present(&self, entity: &(String, String)) -> String {
        format!("{}.{}.", &entity.0[..1], &entity.1[..1])
    }
}

#[test]
fn a_collection_is_presented_item_by_item_in_order() {
    let people = vec![
        ("John".to_string(), "Doe".to_string()),
        ("Ada".to_string(), "Lovelace".to_string()),
    ];
    assert_eq!(Initials.present_collection(&people), vec!["J.D.".to_string(), "A.L.".to_string()]);
    assert!(Initials.present_collection(&[]).is_empty());
}
