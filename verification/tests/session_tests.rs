use dune_client::error::DuneError;
use dune_client::filter::QueryResultsFilter;
use dune_client::session::Session;
use dune_client::session::SessionAction;
use dune_client::session::SessionEvent;
use dune_client::status::ExecutionStatus;
use dune_client::status::decode_status;
use dune_client::types::EngineSize;
use dune_client::types::ExecuteQueryResponse;
use dune_client::types::ExecutionStatusResponse;
use dune_client::types::QueryResult;
use dune_client::types::QueryResultMetadata;
use dune_client::types::QueryResultsResponse;
use dune_client::types::Row;

fn status_response(execution_id: &str, token: &str, finished: bool) -> ExecutionStatusResponse {
    ExecutionStatusResponse {
        execution_id: execution_id.to_string(),
        query_id: 4011227,
        is_execution_finished: finished,
        result_metadata: None,
        status: decode_status(token).unwrap(),
    }
}

fn results_page(
    finished: bool,
    next_offset: Option<u64>,
    n_rows: usize,
    total_row_count: u128,
) -> QueryResultsResponse {
    QueryResultsResponse {
        state: "QUERY_STATE_COMPLETED".to_string(),
        execution_id: "01J5ZMD33P6J413G1KQM6QTE4S".to_string(),
        is_execution_finished: finished,
        next_offset,
        query_id: 4011227,
        result: QueryResult {
            metadata: QueryResultMetadata {
                column_names: vec!["address".to_string()],
                column_types: vec!["varbinary".to_string()],
                datapoint_count: n_rows as u128,
                total_row_count,
                row_count: n_rows as u128,
            },
            rows: vec![Row::Unstructured; n_rows],
        },
    }
}

#[test]
fn submit_poll_paginate_full_run() {
    let execution_id = "01J5ZMD33P6J413G1KQM6QTE4S";
    let (mut session, action) = Session::submit_and_await(
        4011227,
        EngineSize::Medium,
        Some(1),
        false,
        QueryResultsFilter::new(),
    );
    assert_eq!(
        action,
        SessionAction::SubmitQuery {
            query_id: 4011227,
            performance: EngineSize::Medium,
        }
    );

    let action = session.step(SessionEvent::Submitted {
        response: Ok(ExecuteQueryResponse {
            execution_id: execution_id.to_string(),
            status: ExecutionStatus::QueryStatePending,
        }),
    });
    assert_eq!(
        action,
        SessionAction::PollStatus {
            delay_secs: 1,
            execution_id: execution_id.to_string(),
        }
    );

    // still executing: the poller waits the same interval and asks again
    let action = session.step(SessionEvent::StatusChecked {
        response: Ok(status_response(execution_id, "QUERY_STATE_EXECUTING", false)),
    });
    assert_eq!(
        action,
        SessionAction::PollStatus {
            delay_secs: 1,
            execution_id: execution_id.to_string(),
        }
    );

    // completed: hand off to pagination against the execution id
    let action = session.step(SessionEvent::StatusChecked {
        response: Ok(status_response(execution_id, "QUERY_STATE_COMPLETED", true)),
    });
    assert_eq!(
        action,
        SessionAction::FetchPage {
            path: format!("v1/execution/{}/results", execution_id),
            query: format!(
                "execution_id={}&offset=0&limit=1000&ignore_max_datapoints_per_request=false",
                execution_id
            ),
        }
    );

    let action = session.step(SessionEvent::PageFetched {
        response: Ok(results_page(true, Some(1000), 1000, 1002)),
    });
    assert_eq!(
        action,
        SessionAction::FetchPage {
            path: format!("v1/execution/{}/results", execution_id),
            query: format!(
                "execution_id={}&offset=1000&limit=1000&ignore_max_datapoints_per_request=false",
                execution_id
            ),
        }
    );

    let action = session.step(SessionEvent::PageFetched {
        response: Ok(results_page(true, None, 2, 1002)),
    });
    assert_eq!(action, SessionAction::Stop);
    assert!(session.is_terminal());

    let result = session.take_outcome().unwrap();
    // the reported total equals the sum of the page row counts
    assert_eq!(result.rows.len(), 1002);
    assert_eq!(result.metadata.total_row_count, 1002);
}

#[test]
fn direct_failure_never_reaches_pagination() {
    let execution_id = "01J5ZV5R55K2MA1943RFX994B3";
    let (mut session, action) =
        Session::await_existing(execution_id, Some(1), false, QueryResultsFilter::new());
    assert_eq!(
        action,
        SessionAction::PollStatus {
            delay_secs: 1,
            execution_id: execution_id.to_string(),
        }
    );

    let action = session.step(SessionEvent::StatusChecked {
        response: Ok(status_response(execution_id, "QUERY_STATE_FAILED", true)),
    });
    // the very next action is Stop: no page was ever requested
    assert_eq!(action, SessionAction::Stop);
    assert!(session.is_terminal());
    assert_eq!(
        session.take_outcome().unwrap_err(),
        DuneError::QueryStatusError(ExecutionStatus::QueryStateFailed)
    );
}

#[test]
fn unfinished_page_fails_the_session() {
    let execution_id = "01J5ZMD33P6J413G1KQM6QTE4S";
    let (mut session, _action) =
        Session::await_existing(execution_id, Some(1), false, QueryResultsFilter::new());
    let action = session.step(SessionEvent::StatusChecked {
        response: Ok(status_response(execution_id, "QUERY_STATE_COMPLETED", true)),
    });
    assert!(matches!(action, SessionAction::FetchPage { .. }));
    let action = session.step(SessionEvent::PageFetched {
        response: Ok(results_page(false, None, 0, 0)),
    });
    assert_eq!(action, SessionAction::Stop);
    assert_eq!(session.take_outcome().unwrap_err(), DuneError::QueryNotFinished);
}

#[test]
fn submission_error_stops_the_session() {
    let (mut session, _action) = Session::submit_and_await(
        4011227,
        EngineSize::Large,
        None,
        false,
        QueryResultsFilter::new(),
    );
    let action = session.step(SessionEvent::Submitted {
        response: Err(DuneError::RequestError),
    });
    assert_eq!(action, SessionAction::Stop);
    assert_eq!(session.take_outcome().unwrap_err(), DuneError::RequestError);
}

#[test]
fn transport_error_while_polling_propagates() {
    let (mut session, _action) = Session::await_existing(
        "01J5ZV5R55K2MA1943RFX994B3",
        None,
        true,
        QueryResultsFilter::new(),
    );
    let action = session.step(SessionEvent::StatusChecked {
        response: Err(DuneError::ParseError),
    });
    assert_eq!(action, SessionAction::Stop);
    assert_eq!(session.take_outcome().unwrap_err(), DuneError::ParseError);
}

#[test]
fn peek_session_truncates_after_one_page() {
    let execution_id = "01J5ZMD33P6J413G1KQM6QTE4S";
    let (mut session, _action) =
        Session::await_existing(execution_id, Some(1), true, QueryResultsFilter::new());
    let action = session.step(SessionEvent::StatusChecked {
        response: Ok(status_response(execution_id, "QUERY_STATE_COMPLETED", true)),
    });
    assert_eq!(
        action,
        SessionAction::FetchPage {
            path: format!("v1/execution/{}/results", execution_id),
            query: format!(
                "execution_id={}&offset=0&limit=10&ignore_max_datapoints_per_request=false",
                execution_id
            ),
        }
    );
    // a next-offset is offered; a peek run ignores it and finishes
    let action = session.step(SessionEvent::PageFetched {
        response: Ok(results_page(true, Some(10), 10, 1000000)),
    });
    assert_eq!(action, SessionAction::Stop);
    let result = session.take_outcome().unwrap();
    assert_eq!(result.rows.len(), 10);
}
