//! The execution poller and the orchestrator, as an explicit state machine.
//!
//! One `Session` tracks a remote execution from submission (or from a known
//! execution id) to a terminal outcome. The machine itself performs no I/O
//! and never sleeps: each `step` consumes the outcome of the one outside
//! action it last asked for and answers with the next action — submit,
//! sleep-then-poll, fetch a page, or stop. A driver that owns the transport
//! runs the loop; it may abandon the session at any step, which is the
//! cancellation point the fixed-interval wait otherwise lacks.
//!
//! Polling has no attempt bound and no backoff: every non-terminal status
//! asks for the same fixed delay again. Transport or decode errors end the
//! session at once.

use vstd::prelude::*;

use crate::error::DuneError;
use crate::filter::QueryResultsFilter;
use crate::paginate::Paginator;
use crate::paginate::spec_fresh_run;
use crate::status::ExecutionStatus;
use crate::types::EngineSize;
use crate::types::ExecuteQueryResponse;
use crate::types::ExecutionStatusResponse;
use crate::types::QueryResult;
use crate::types::QueryResultsResponse;

verus! {

/// How long a driver waits between status polls when the caller does not
/// choose an interval, in seconds.
pub const DEFAULT_POLL_INTERVAL_SECS: u64 = 60;

/// A client handle: the credential every request of this client carries in
/// its key header.
pub struct DuneClient {
    pub api_key: String,
}

impl DuneClient {
    pub fn new(api_key: String) -> (r: Self)
        ensures
            r.api_key == api_key,
    {
        Self { api_key }
    }
}

/// What the poller does with one observed status.
#[derive(Debug, Clone, Copy, PartialEq, Eq, Structural)]
pub enum PollDecision {
    /// Non-terminal: wait one interval and ask again.
    KeepPolling,
    /// Terminal success: hand off to the pagination engine.
    ResultsReady,
    /// Terminal failure: surface the status to the caller.
    TerminalFailure(ExecutionStatus),
}

/// The poller's transition rule: only pending and executing keep the loop
/// alive, only the two completed states allow pagination, and the three
/// failure states end the run with that status.
pub open spec fn spec_poll_decision(s: ExecutionStatus) -> PollDecision {
    match s {
        ExecutionStatus::QueryStatePending => PollDecision::KeepPolling,
        ExecutionStatus::QueryStateExecuting => PollDecision::KeepPolling,
        ExecutionStatus::QueryStateCompleted => PollDecision::ResultsReady,
        ExecutionStatus::QueryStateCompletedPartial => PollDecision::ResultsReady,
        ExecutionStatus::QueryStateFailed => PollDecision::TerminalFailure(s),
        ExecutionStatus::QueryStateCancelled => PollDecision::TerminalFailure(s),
        ExecutionStatus::QueryStateExpired => PollDecision::TerminalFailure(s),
    }
}

/// Decide what one observed status means for the poll loop.
pub fn poll_decision(status: ExecutionStatus) -> (d: PollDecision)
    ensures
        d == spec_poll_decision(status),
{
    match status {
        ExecutionStatus::QueryStatePending => PollDecision::KeepPolling,
        ExecutionStatus::QueryStateExecuting => PollDecision::KeepPolling,
        ExecutionStatus::QueryStateCompleted => PollDecision::ResultsReady,
        ExecutionStatus::QueryStateCompletedPartial => PollDecision::ResultsReady,
        _ => PollDecision::TerminalFailure(status),
    }
}

/// The chosen poll interval: the caller's, or the default.
pub open spec fn spec_poll_interval(chosen: Option<u64>) -> u64 {
    match chosen {
        Some(i) => i,
        None => DEFAULT_POLL_INTERVAL_SECS,
    }
}

/// Where a session stands.
pub enum SessionState {
    /// The query was handed to the driver for submission.
    Submitting { query_id: u64, performance: EngineSize },
    /// The execution is being polled until a terminal status.
    Polling { execution_id: String },
    /// The execution succeeded and its pages are being fetched.
    Paginating { paginator: Paginator },
    /// The full result is assembled.
    Finished { result: QueryResult },
    /// The run failed; nothing further happens.
    Failed { error: DuneError },
}

/// The outcome of the one outside action the session last asked for.
pub enum SessionEvent {
    Submitted { response: Result<ExecuteQueryResponse, DuneError> },
    StatusChecked { response: Result<ExecutionStatusResponse, DuneError> },
    PageFetched { response: Result<QueryResultsResponse, DuneError> },
}

/// What the driver must do next.
#[derive(Debug, PartialEq)]
pub enum SessionAction {
    /// Submit the query for execution on the given tier and report back.
    SubmitQuery { query_id: u64, performance: EngineSize },
    /// Sleep the given number of seconds, then fetch the execution's status
    /// and report back.
    PollStatus { delay_secs: u64, execution_id: String },
    /// Fetch one results page from the given endpoint path with the given
    /// query string and report back.
    FetchPage { path: String, query: String },
    /// The session is terminal; collect the outcome.
    Stop,
}

/// One poll/fetch run, from submission (or a known execution id) to a
/// terminal outcome.
pub struct Session {
    pub state: SessionState,
    pub poll_interval: u64,
    pub peek: bool,
    pub filters: QueryResultsFilter,
}

impl Session {
    /// The machine's internal consistency: while paginating, the engine is
    /// live and well-formed.
    pub open spec fn wf(self) -> bool {
        match self.state {
            SessionState::Paginating { paginator } => paginator.wf() && !paginator.done,
            _ => true,
        }
    }

    /// Whether this event is the answer to the action the session last asked
    /// for. Terminal sessions expect nothing.
    pub open spec fn spec_expects(self, event: SessionEvent) -> bool {
        match (self.state, event) {
            (SessionState::Submitting { .. }, SessionEvent::Submitted { .. }) => true,
            (SessionState::Polling { .. }, SessionEvent::StatusChecked { .. }) => true,
            (SessionState::Paginating { .. }, SessionEvent::PageFetched { .. }) => true,
            _ => false,
        }
    }

    /// Start the submit-and-await flow: the driver is first asked to submit
    /// the query.
    pub fn submit_and_await(
        query_id: u64,
        performance: EngineSize,
        poll_interval: Option<u64>,
        peek: bool,
        filters: QueryResultsFilter,
    ) -> (r: (Session, SessionAction))
        ensures
            r.0.wf(),
            r.0.state == (SessionState::Submitting { query_id, performance }),
            r.0.poll_interval == spec_poll_interval(poll_interval),
            r.0.peek == peek,
            r.0.filters == filters,
            r.1 == (SessionAction::SubmitQuery { query_id, performance }),
    {
        let interval: u64 = match poll_interval {
            Some(i) => i,
            None => DEFAULT_POLL_INTERVAL_SECS,
        };
        let session = Session {
            state: SessionState::Submitting { query_id, performance },
            poll_interval: interval,
            peek,
            filters,
        };
        (session, SessionAction::SubmitQuery { query_id, performance })
    }

    /// Start the await-existing flow: submission is skipped and the given
    /// execution is polled directly, waiting one interval first.
    pub fn await_existing(
        execution_id: &str,
        poll_interval: Option<u64>,
        peek: bool,
        filters: QueryResultsFilter,
    ) -> (r: (Session, SessionAction))
        ensures
            r.0.wf(),
            r.0.state matches SessionState::Polling { execution_id: e } && e@ == execution_id@,
            r.0.poll_interval == spec_poll_interval(poll_interval),
            r.0.peek == peek,
            r.0.filters == filters,
            r.1 matches SessionAction::PollStatus { delay_secs, execution_id: e } && delay_secs
                == spec_poll_interval(poll_interval) && e@ == execution_id@,
    {
        let interval: u64 = match poll_interval {
            Some(i) => i,
            None => DEFAULT_POLL_INTERVAL_SECS,
        };
        let session = Session {
            state: SessionState::Polling { execution_id: execution_id.to_owned() },
            poll_interval: interval,
            peek,
            filters,
        };
        let action = SessionAction::PollStatus {
            delay_secs: interval,
            execution_id: execution_id.to_owned(),
        };
        (session, action)
    }

    /// Whether the session has reached a terminal outcome.
    pub fn is_terminal(&self) -> (r: bool)
        ensures
            r == (self.state matches SessionState::Finished { .. } || self.state
                matches SessionState::Failed { .. }),
    {
        match &self.state {
            SessionState::Finished { .. } => true,
            SessionState::Failed { .. } => true,
            _ => false,
        }
    }

    /// Collect the terminal outcome.
    pub fn take_outcome(self) -> (r: Result<QueryResult, DuneError>)
        requires
            self.state matches SessionState::Finished { .. } || self.state
                matches SessionState::Failed { .. },
        ensures
            self.state matches SessionState::Finished { result } ==> r == Ok::<
                QueryResult,
                DuneError,
            >(result),
            self.state matches SessionState::Failed { error } ==> r == Err::<
                QueryResult,
                DuneError,
            >(error),
    {
        match self.state {
            SessionState::Finished { result } => Ok(result),
            SessionState::Failed { error } => Err(error),
            _ => vstd::pervasive::unreached(),
        }
    }

    /// Feed back the outcome of the last action and get the next one.
    ///
    /// Submission errors, transport or decode errors while polling, a
    /// terminal-failure status, and every pagination error end the session
    /// at once with that error; nothing is retried. A terminal-success
    /// status hands off to a fresh pagination run against the polled
    /// execution id. Only a page that is the run's last produces a result.
    pub fn step(&mut self, event: SessionEvent) -> (action: SessionAction)
        requires
            old(self).wf(),
            old(self).spec_expects(event),
        ensures
            final(self).wf(),
            final(self).poll_interval == old(self).poll_interval,
            final(self).peek == old(self).peek,
            ({
                let s = *old(self);
                match (s.state, event) {
                    (
                        SessionState::Submitting { .. },
                        SessionEvent::Submitted { response },
                    ) => match response {
                        Ok(resp) => {
                            &&& final(self).state == (SessionState::Polling {
                                execution_id: resp.execution_id,
                            })
                            &&& action matches SessionAction::PollStatus {
                                delay_secs,
                                execution_id,
                            } && delay_secs == s.poll_interval && execution_id@
                                == resp.execution_id@
                            &&& final(self).filters == s.filters
                        },
                        Err(e) => final(self).state == (SessionState::Failed { error: e })
                            && action == SessionAction::Stop,
                    },
                    (
                        SessionState::Polling { execution_id },
                        SessionEvent::StatusChecked { response },
                    ) => match response {
                        Ok(st) => match spec_poll_decision(st.status) {
                            PollDecision::KeepPolling => {
                                &&& final(self).state == (SessionState::Polling { execution_id })
                                &&& action matches SessionAction::PollStatus {
                                    delay_secs,
                                    execution_id: eid,
                                } && delay_secs == s.poll_interval && eid@ == execution_id@
                                &&& final(self).filters == s.filters
                            },
                            PollDecision::ResultsReady => match final(self).state {
                                SessionState::Paginating { paginator } => {
                                    &&& spec_fresh_run(
                                        paginator,
                                        execution_id@,
                                        s.peek,
                                        s.filters@,
                                    )
                                    &&& action matches SessionAction::FetchPage { path, query }
                                        && path@ == paginator.path@ && query@
                                        == paginator.params.spec_encoded()
                                },
                                _ => false,
                            },
                            PollDecision::TerminalFailure(t) => final(self).state == (
                            SessionState::Failed { error: DuneError::QueryStatusError(t) })
                                && action == SessionAction::Stop,
                        },
                        Err(e) => final(self).state == (SessionState::Failed { error: e })
                            && action == SessionAction::Stop,
                    },
                    (
                        SessionState::Paginating { paginator },
                        SessionEvent::PageFetched { response },
                    ) => match response {
                        Ok(page) => {
                            if !paginator.spec_accepts(page) {
                                &&& final(self).state == (SessionState::Failed {
                                    error: if !page.is_execution_finished {
                                        DuneError::QueryNotFinished
                                    } else {
                                        DuneError::ParseError
                                    },
                                })
                                &&& action == SessionAction::Stop
                            } else if paginator.spec_done_after(page) {
                                match final(self).state {
                                    SessionState::Finished { result } => {
                                        &&& result.rows@ == paginator.rows@ + page.result.rows@
                                        &&& Some(result.metadata) == (if paginator.started {
                                            paginator.metadata
                                        } else {
                                            Some(page.result.metadata)
                                        })
                                        &&& action == SessionAction::Stop
                                    },
                                    _ => false,
                                }
                            } else {
                                match final(self).state {
                                    SessionState::Paginating { paginator: advanced } => {
                                        &&& advanced.rows@ == paginator.rows@ + page.result.rows@
                                        &&& advanced.page_rows@ == paginator.page_rows@.push(
                                            page.result.rows@,
                                        )
                                        &&& advanced.params == paginator.spec_params_after(page)
                                        &&& advanced.path == paginator.path
                                        &&& advanced.peek == paginator.peek
                                        &&& advanced.metadata == (if paginator.started {
                                            paginator.metadata
                                        } else {
                                            Some(page.result.metadata)
                                        })
                                        &&& action matches SessionAction::FetchPage { path, query }
                                            && path@ == advanced.path@ && query@
                                            == advanced.params.spec_encoded()
                                    },
                                    _ => false,
                                }
                            }
                        },
                        Err(e) => final(self).state == (SessionState::Failed { error: e })
                            && action == SessionAction::Stop,
                    },
                    _ => false,
                }
            }),
    {
        let mut prev = SessionState::Failed { error: DuneError::RequestError };
        core::mem::swap(&mut prev, &mut self.state);
        match (prev, event) {
            (SessionState::Submitting { .. }, SessionEvent::Submitted { response }) => {
                match response {
                    Ok(resp) => {
                        let action = SessionAction::PollStatus {
                            delay_secs: self.poll_interval,
                            execution_id: resp.execution_id.clone(),
                        };
                        self.state = SessionState::Polling { execution_id: resp.execution_id };
                        action
                    },
                    Err(e) => {
                        self.state = SessionState::Failed { error: e };
                        SessionAction::Stop
                    },
                }
            },
            (SessionState::Polling { execution_id }, SessionEvent::StatusChecked { response }) => {
                match response {
                    Ok(st) => {
                        match poll_decision(st.status) {
                            PollDecision::KeepPolling => {
                                let action = SessionAction::PollStatus {
                                    delay_secs: self.poll_interval,
                                    execution_id: execution_id.clone(),
                                };
                                self.state = SessionState::Polling { execution_id };
                                action
                            },
                            PollDecision::ResultsReady => {
                                let mut taken = QueryResultsFilter::new();
                                core::mem::swap(&mut taken, &mut self.filters);
                                let paginator = Paginator::new(
                                    execution_id.as_str(),
                                    self.peek,
                                    taken,
                                );
                                match paginator.next_query_string() {
                                    Ok(query) => {
                                        let path = paginator.path.clone();
                                        self.state = SessionState::Paginating { paginator };
                                        SessionAction::FetchPage { path, query }
                                    },
                                    Err(_) => {
                                        self.state = SessionState::Failed {
                                            error: DuneError::EncodingError,
                                        };
                                        SessionAction::Stop
                                    },
                                }
                            },
                            PollDecision::TerminalFailure(t) => {
                                self.state = SessionState::Failed {
                                    error: DuneError::QueryStatusError(t),
                                };
                                SessionAction::Stop
                            },
                        }
                    },
                    Err(e) => {
                        self.state = SessionState::Failed { error: e };
                        SessionAction::Stop
                    },
                }
            },
            (
                SessionState::Paginating { paginator: mut paginator },
                SessionEvent::PageFetched { response },
            ) => {
                match response {
                    Ok(page) => {
                        match paginator.apply_page(page) {
                            Err(e) => {
                                self.state = SessionState::Failed { error: e };
                                SessionAction::Stop
                            },
                            Ok(true) => {
                                match paginator.next_query_string() {
                                    Ok(query) => {
                                        let path = paginator.path.clone();
                                        self.state = SessionState::Paginating { paginator };
                                        SessionAction::FetchPage { path, query }
                                    },
                                    Err(_) => {
                                        self.state = SessionState::Failed {
                                            error: DuneError::EncodingError,
                                        };
                                        SessionAction::Stop
                                    },
                                }
                            },
                            Ok(false) => {
                                let result = paginator.into_result();
                                self.state = SessionState::Finished { result };
                                SessionAction::Stop
                            },
                        }
                    },
                    Err(e) => {
                        self.state = SessionState::Failed { error: e };
                        SessionAction::Stop
                    },
                }
            },
            _ => vstd::pervasive::unreached(),
        }
    }
}

/// Law: a terminal session expects no further event, so a run that has
/// failed (in particular with a terminal-failure status) never goes on to
/// fetch a page, and a finished one never polls again.
pub proof fn lemma_terminal_states_halt(s: Session, event: SessionEvent)
    requires
        s.state matches SessionState::Finished { .. } || s.state matches SessionState::Failed {
            ..
        },
    ensures
        !s.spec_expects(event),
{
}

} // verus!
