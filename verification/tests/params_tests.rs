use dune_client::filter::QueryResultsFilter;
use dune_client::params::ResultTarget;
use dune_client::params::ResultsParams;
use dune_client::params::execute_query_path;
use dune_client::params::execution_status_path;
use dune_client::params::results_path;

#[test]
fn numeric_identifier_routes_to_query_endpoint() {
    let target = ResultTarget::from_id("4011227");
    assert!(matches!(target, ResultTarget::QueryTarget(4011227)));
    assert_eq!(results_path(&target), "v1/query/4011227/results");
}

#[test]
fn non_numeric_identifier_routes_to_execution_endpoint() {
    let target = ResultTarget::from_id("01J5ZMD33P6J413G1KQM6QTE4S");
    match &target {
        ResultTarget::ExecutionTarget(e) => assert_eq!(e, "01J5ZMD33P6J413G1KQM6QTE4S"),
        _ => panic!("expected an execution target"),
    }
    assert_eq!(
        results_path(&target),
        "v1/execution/01J5ZMD33P6J413G1KQM6QTE4S/results"
    );
}

#[test]
fn request_paths_are_exact() {
    assert_eq!(execute_query_path(4011227), "v1/query/4011227/execute");
    assert_eq!(
        execution_status_path("01J5ZV5R55K2MA1943RFX994B3"),
        "v1/execution/01J5ZV5R55K2MA1943RFX994B3/status"
    );
}

#[test]
fn offset_is_the_only_moving_part() {
    let mut params =
        ResultsParams::new_query(9, false, 0, 1000, None, QueryResultsFilter::new());
    assert_eq!(params.get_offset(), 0);
    params.update_offset(2000);
    assert_eq!(params.get_offset(), 2000);
    assert_eq!(
        params.url_encode().unwrap(),
        "query_id=9&offset=2000&limit=1000&ignore_max_datapoints_per_request=false"
    );
}

#[test]
fn query_params_encode_without_filters() {
    let params =
        ResultsParams::new_query(123, false, 0, 1000, None, QueryResultsFilter::new());
    assert_eq!(
        params.url_encode().unwrap(),
        "query_id=123&offset=0&limit=1000&ignore_max_datapoints_per_request=false"
    );
}

#[test]
fn execution_params_encode_filters_percent_escaped() {
    let filters = QueryResultsFilter::new().add_filter("amount > 10".to_string());
    let params = ResultsParams::new_execution("abc", true, 0, 10, None, filters);
    assert_eq!(
        params.url_encode().unwrap(),
        "execution_id=abc&offset=0&limit=10&ignore_max_datapoints_per_request=true&filters=amount+%3E+10"
    );
}

#[test]
fn two_filters_encode_with_literal_and() {
    let filters = QueryResultsFilter::new()
        .add_filter("a > 1".to_string())
        .add_filter("b < 2".to_string());
    let params = ResultsParams::new_query(5, false, 0, 10, None, filters);
    assert_eq!(
        params.url_encode().unwrap(),
        "query_id=5&offset=0&limit=10&ignore_max_datapoints_per_request=false&filters=a+%3E+1+AND+b+%3C+2"
    );
}

#[test]
fn column_projection_encodes_comma_joined() {
    let columns = Some(vec!["address".to_string(), "balance".to_string()]);
    let params =
        ResultsParams::new_query(5, false, 0, 10, columns, QueryResultsFilter::new());
    assert_eq!(
        params.url_encode().unwrap(),
        "columns=address%2Cbalance&query_id=5&offset=0&limit=10&ignore_max_datapoints_per_request=false"
    );
}
