use job_hunter::extraction::split_company_from_title;

#[test]
fn company_follows_the_dash_separator() {
    assert_eq!(
        split_company_from_title("Senior Backend Engineer - Acme Corp"),
        Some("Acme Corp".to_string())
    );
}

#[test]
fn separators_are_tried_in_order() {
    assert_eq!(split_company_from_title("Dev | Foo - Bar"), Some("Bar".to_string()));
    assert_eq!(split_company_from_title("Dev | Foo @ Bar"), Some("Foo @ Bar".to_string()));
    assert_eq!(split_company_from_title("Dev @ Foo"), Some("Foo".to_string()));
    assert_eq!(split_company_from_title("Dev at Foo"), None);
}

#[test]
fn last_segment_is_taken_and_trimmed() {
    assert_eq!(split_company_from_title("A - B -  C \t"), Some("C".to_string()));
    assert_eq!(split_company_from_title("a - - b"), Some("- b".to_string()));
    assert_eq!(split_company_from_title("Title - "), Some(String::new()));
}
