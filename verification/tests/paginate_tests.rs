use dune_client::error::DuneError;
use dune_client::filter::QueryResultsFilter;
use dune_client::paginate::Paginator;
use dune_client::types::QueryResult;
use dune_client::types::QueryResultMetadata;
use dune_client::types::QueryResultsResponse;
use dune_client::types::Row;

fn make_page(
    finished: bool,
    next_offset: Option<u64>,
    n_rows: usize,
    total_row_count: u128,
) -> QueryResultsResponse {
    QueryResultsResponse {
        state: "QUERY_STATE_COMPLETED".to_string(),
        execution_id: "01J5ZMD33P6J413G1KQM6QTE4S".to_string(),
        is_execution_finished: finished,
        next_offset,
        query_id: 4011227,
        result: QueryResult {
            metadata: QueryResultMetadata {
                column_names: vec!["address".to_string()],
                column_types: vec!["varbinary".to_string()],
                datapoint_count: n_rows as u128,
                total_row_count,
                row_count: n_rows as u128,
            },
            rows: vec![Row::Unstructured; n_rows],
        },
    }
}

#[test]
fn unfinished_execution_fails_without_fetching_rows() {
    let mut pag = Paginator::new(
        "01J5ZMD33P6J413G1KQM6QTE4S",
        false,
        QueryResultsFilter::new(),
    );
    let r = pag.apply_page(make_page(false, None, 5, 5));
    assert_eq!(r, Err(DuneError::QueryNotFinished));
    assert!(pag.rows.is_empty());
    assert!(pag.metadata.is_none());
    assert!(!pag.is_done());
}

#[test]
fn full_run_concatenates_pages_and_counts_match_total() {
    let mut pag = Paginator::new("4011227", false, QueryResultsFilter::new());
    assert_eq!(pag.url_path(), "v1/query/4011227/results");
    assert_eq!(
        pag.next_query_string().unwrap(),
        "query_id=4011227&offset=0&limit=1000&ignore_max_datapoints_per_request=false"
    );
    assert_eq!(pag.apply_page(make_page(true, Some(1000), 1000, 1003)), Ok(true));
    assert_eq!(
        pag.next_query_string().unwrap(),
        "query_id=4011227&offset=1000&limit=1000&ignore_max_datapoints_per_request=false"
    );
    assert_eq!(pag.apply_page(make_page(true, None, 3, 1003)), Ok(false));
    assert!(pag.is_done());
    let result = pag.into_result();
    assert_eq!(result.rows.len(), 1003);
    assert_eq!(result.metadata.total_row_count, 1003);
    // metadata comes from the first page
    assert_eq!(result.metadata.datapoint_count, 1000);
}

#[test]
fn empty_result_set_is_not_an_error() {
    let mut pag = Paginator::new("4011227", false, QueryResultsFilter::new());
    assert_eq!(pag.apply_page(make_page(true, None, 0, 0)), Ok(false));
    let result = pag.into_result();
    assert!(result.rows.is_empty());
    assert_eq!(result.metadata.total_row_count, 0);
}

#[test]
fn peek_stops_after_the_first_page() {
    let mut pag = Paginator::new("4011227", true, QueryResultsFilter::new());
    assert_eq!(
        pag.next_query_string().unwrap(),
        "query_id=4011227&offset=0&limit=10&ignore_max_datapoints_per_request=false"
    );
    // the server offers more pages; peek ignores that
    assert_eq!(pag.apply_page(make_page(true, Some(10), 10, 1000000)), Ok(false));
    assert!(pag.is_done());
    let result = pag.into_result();
    assert_eq!(result.rows.len(), 10);
}

#[test]
fn non_advancing_next_offset_is_a_protocol_error() {
    let mut pag = Paginator::new("4011227", false, QueryResultsFilter::new());
    assert_eq!(pag.apply_page(make_page(true, Some(1000), 1000, 2000)), Ok(true));
    // the cursor stands at 1000; a next-offset of 1000 would loop forever
    assert_eq!(
        pag.apply_page(make_page(true, Some(1000), 1000, 2000)),
        Err(DuneError::ParseError)
    );
}

#[test]
fn refetching_the_same_page_is_identical() {
    let mut first = Paginator::new("4011227", false, QueryResultsFilter::new());
    let mut second = Paginator::new("4011227", false, QueryResultsFilter::new());
    assert_eq!(
        first.next_query_string().unwrap(),
        second.next_query_string().unwrap()
    );
    assert_eq!(first.url_path(), second.url_path());
    let r1 = first.apply_page(make_page(true, None, 4, 4));
    let r2 = second.apply_page(make_page(true, None, 4, 4));
    assert_eq!(r1, r2);
    assert_eq!(first.rows.len(), second.rows.len());
    assert!(first.is_done() && second.is_done());
}
