use dune_client::filter::QueryResultsFilter;

#[test]
fn empty_collection_serializes_to_nothing() {
    assert_eq!(QueryResultsFilter::new().to_option_string(), None);
}

#[test]
fn one_filter_serializes_verbatim() {
    let f = QueryResultsFilter::new()
        .add_filter("block_time >= '2024-09-01 00:00:00'".to_string());
    assert_eq!(
        f.to_option_string(),
        Some("block_time >= '2024-09-01 00:00:00'".to_string())
    );
}

#[test]
fn two_filters_join_with_and() {
    let f = QueryResultsFilter::new()
        .add_filter("a > 1".to_string())
        .add_filter("b < 2".to_string());
    assert_eq!(f.to_option_string(), Some("a > 1 AND b < 2".to_string()));
}

#[test]
fn three_filters_keep_insertion_order() {
    let f = QueryResultsFilter::new()
        .add_filter("c = 3".to_string())
        .add_filter("a > 1".to_string())
        .add_filter("b < 2".to_string());
    assert_eq!(
        f.to_option_string(),
        Some("c = 3 AND a > 1 AND b < 2".to_string())
    );
}
