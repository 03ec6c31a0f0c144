//! The pagination engine: reassembling a complete result set from a
//! sequence of offset-based page fetches.
//!
//! A `Paginator` owns the cursor state of one run. The caller (or the
//! session driver) fetches the page each encoded request names and feeds the
//! decoded response back in; the engine decides whether the run continues,
//! finishes, or fails. It never waits for completion: a response for an
//! unfinished execution is an immediate `QueryNotFinished`. A next-offset
//! that does not advance the cursor is treated as a protocol error rather
//! than risking an endless loop. Peek mode stops after the first page by
//! design: an explicit truncation, not an error.

use vstd::prelude::*;

use crate::error::DuneError;
use crate::filter::QueryResultsFilter;
use crate::params::ResultTarget;
use crate::params::ResultsParams;
use crate::params::results_path;
use crate::params::spec_results_path;
use crate::decimal::spec_parses_as_u64;
use crate::decimal::spec_u64_value;
use crate::types::QueryResult;
use crate::types::QueryResultMetadata;
use crate::types::QueryResultsResponse;
use crate::types::Row;

verus! {

/// Page size of a quick single-page inspection.
pub const PEEK_LIMIT: u64 = 10;

/// Page size of a full retrieval.
pub const FULL_LIMIT: u64 = 1000;

/// The total number of rows in a sequence of page row batches.
pub open spec fn spec_sum_lens(pages: Seq<Seq<Row>>) -> int
    decreases pages.len(),
{
    if pages.len() == 0 {
        0
    } else {
        spec_sum_lens(pages.drop_last()) + pages.last().len()
    }
}

proof fn lemma_flatten_len_is_sum(pages: Seq<Seq<Row>>)
    ensures
        pages.flatten().len() == spec_sum_lens(pages),
    decreases pages.len(),
{
    broadcast use Seq::lemma_flatten_push;

    if pages.len() > 0 {
        lemma_flatten_len_is_sum(pages.drop_last());
        assert(pages.drop_last().push(pages.last()) =~= pages);
    }
}

/// What a freshly started run looks like: nothing fetched, the cursor at
/// offset zero, the page-size preset of its mode, and the target dispatched
/// from the identifier by the unsigned-integer parsing heuristic, with the
/// filters serialized up front.
pub open spec fn spec_fresh_run(
    p: Paginator,
    id: Seq<char>,
    peek: bool,
    filters: Seq<Seq<char>>,
) -> bool {
    &&& p.wf()
    &&& !p.started
    &&& !p.done
    &&& p.peek == peek
    &&& p.rows@ == Seq::<Row>::empty()
    &&& p.page_rows@ == Seq::<Seq<Row>>::empty()
    &&& p.metadata is None
    &&& p.params.spec_offset() == 0
    &&& (spec_parses_as_u64(id) ==> (p.params matches ResultsParams::Query(q) && q.query_id
        == spec_u64_value(id) as u64 && q.limit == (if peek {
        PEEK_LIMIT
    } else {
        FULL_LIMIT
    }) && q.columns is None && !q.ignore_max_datapoints_per_request && p.path@
        == spec_results_path(ResultTarget::QueryTarget(spec_u64_value(id) as u64))))
    &&& (!spec_parses_as_u64(id) ==> (p.params matches ResultsParams::Execution(e)
        && e.execution_id@ == id && e.limit == (if peek {
        PEEK_LIMIT
    } else {
        FULL_LIMIT
    }) && e.columns is None && !e.ignore_max_datapoints_per_request && p.path@
        == "v1/execution/"@ + id + "/results"@))
    &&& (filters.len() == 0 ==> (match p.params {
        ResultsParams::Query(q) => q.filters is None,
        ResultsParams::Execution(e) => e.filters is None,
    }))
    &&& (filters.len() > 0 ==> (match p.params {
        ResultsParams::Query(q) => q.filters matches Some(f) && f@
            == crate::filter::spec_join_and(filters),
        ResultsParams::Execution(e) => e.filters matches Some(f) && f@
            == crate::filter::spec_join_and(filters),
    }))
}

/// The cursor state of one pagination run.
pub struct Paginator {
    /// The fixed request parameters; only the offset moves.
    pub params: ResultsParams,
    /// The endpoint path of every request of this run.
    pub path: String,
    /// Whether this run truncates after the first page.
    pub peek: bool,
    /// Every row fetched so far, in page order.
    pub rows: Vec<Row>,
    /// Metadata captured from the first page.
    pub metadata: Option<QueryResultMetadata>,
    /// Whether the run has ended (last page applied, or peek satisfied).
    pub done: bool,
    /// Whether at least one page has been applied.
    pub started: bool,
    /// The row batch of each applied page, in fetch order.
    pub page_rows: Ghost<Seq<Seq<Row>>>,
}

impl Paginator {
    /// The engine's internal consistency: the collected rows are exactly the
    /// concatenation of the applied pages' batches, metadata comes with the
    /// first page, and a peek run never holds more than one page.
    pub open spec fn wf(self) -> bool {
        &&& self.rows@ == self.page_rows@.flatten()
        &&& (self.started <==> self.page_rows@.len() > 0)
        &&& (!self.started ==> !self.done)
        &&& (self.started <==> self.metadata is Some)
        &&& (self.peek ==> self.page_rows@.len() <= 1)
        &&& (self.peek && self.started ==> self.done)
    }

    /// Whether the engine accepts this response for the current cursor: the
    /// execution must be finished, and outside peek mode a present
    /// next-offset must advance the cursor.
    pub open spec fn spec_accepts(self, page: QueryResultsResponse) -> bool {
        &&& page.is_execution_finished
        &&& (self.peek || (match page.next_offset {
            Some(o) => o > self.params.spec_offset(),
            None => true,
        }))
    }

    /// Whether this response is the last of the run: a peek run stops after
    /// any page, a full run stops when no next-offset is given.
    pub open spec fn spec_done_after(self, page: QueryResultsResponse) -> bool {
        self.peek || page.next_offset is None
    }

    /// The cursor after this response: moved to the next offset when the run
    /// continues, untouched when it ends.
    pub open spec fn spec_params_after(self, page: QueryResultsResponse) -> ResultsParams {
        if self.spec_done_after(page) {
            self.params
        } else {
            match page.next_offset {
                Some(o) => self.params.spec_with_offset(o),
                None => self.params,
            }
        }
    }

    /// Start a run: dispatch the identifier to a target, take the page-size
    /// preset for the mode, and place the cursor at offset zero.
    pub fn new(id: &str, peek: bool, filters: QueryResultsFilter) -> (r: Self)
        ensures
            spec_fresh_run(r, id@, peek, filters@),
    {
        let limit: u64 = if peek {
            PEEK_LIMIT
        } else {
            FULL_LIMIT
        };
        let target = ResultTarget::from_id(id);
        let path = results_path(&target);
        let params = match target {
            ResultTarget::QueryTarget(query_id) => ResultsParams::new_query(
                query_id,
                false,
                0,
                limit,
                None,
                filters,
            ),
            ResultTarget::ExecutionTarget(execution_id) => ResultsParams::new_execution(
                execution_id.as_str(),
                false,
                0,
                limit,
                None,
                filters,
            ),
        };
        Paginator {
            params,
            path,
            peek,
            rows: Vec::new(),
            metadata: None,
            done: false,
            started: false,
            page_rows: Ghost(Seq::empty()),
        }
    }

    /// The endpoint path of every request of this run.
    pub fn url_path(&self) -> (r: &String)
        ensures
            r == self.path,
    {
        &self.path
    }

    /// Whether the run has ended.
    pub fn is_done(&self) -> (r: bool)
        ensures
            r == self.done,
    {
        self.done
    }

    /// Encode the request for the page the cursor points at. Requesting is
    /// only meaningful while the run is live, and a finished run never asks
    /// for another page.
    pub fn next_query_string(&self) -> (r: Result<String, DuneError>)
        requires
            !self.done,
        ensures
            r matches Ok(s) && s@ == self.params.spec_encoded(),
    {
        self.params.url_encode()
    }

    /// Apply one decoded page response to the run.
    ///
    /// An unfinished execution fails the run with `QueryNotFinished` and
    /// leaves the cursor untouched; polling, not pagination, is how callers
    /// wait. A next-offset that does not advance the cursor is a protocol
    /// error (`ParseError`), refusing the endless loop a server regression
    /// would otherwise cause. An accepted page appends its rows, captures
    /// metadata if it is the first, and either moves the cursor or ends the
    /// run; `Ok(true)` means another page is owed.
    pub fn apply_page(&mut self, page: QueryResultsResponse) -> (r: Result<bool, DuneError>)
        requires
            old(self).wf(),
            !old(self).done,
        ensures
            final(self).wf(),
            !page.is_execution_finished ==> r == Err::<bool, DuneError>(DuneError::QueryNotFinished)
                && *final(self) == *old(self),
            page.is_execution_finished && !old(self).spec_accepts(page) ==> r == Err::<
                bool,
                DuneError,
            >(DuneError::ParseError) && *final(self) == *old(self),
            old(self).spec_accepts(page) ==> {
                &&& r == Ok::<bool, DuneError>(!old(self).spec_done_after(page))
                &&& final(self).done == old(self).spec_done_after(page)
                &&& final(self).rows@ == old(self).rows@ + page.result.rows@
                &&& final(self).page_rows@ == old(self).page_rows@.push(page.result.rows@)
                &&& final(self).metadata == (if old(self).started {
                    old(self).metadata
                } else {
                    Some(page.result.metadata)
                })
                &&& final(self).started
                &&& final(self).params == old(self).spec_params_after(page)
                &&& final(self).peek == old(self).peek
                &&& final(self).path == old(self).path
            },
    {
        broadcast use Seq::lemma_flatten_push;

        if !page.is_execution_finished {
            return Err(DuneError::QueryNotFinished);
        }
        let next: Option<u64> = page.next_offset;
        let mut more: bool = false;
        if !self.peek {
            match next {
                Some(o) => {
                    if o <= self.params.get_offset() {
                        return Err(DuneError::ParseError);
                    }
                    more = true;
                },
                None => {},
            }
        }
        let ghost batch = page.result.rows@;
        let QueryResult { metadata, mut rows } = page.result;
        if !self.started {
            self.metadata = Some(metadata);
            self.started = true;
        }
        self.rows.append(&mut rows);
        self.page_rows = Ghost(self.page_rows@.push(batch));
        if more {
            match next {
                Some(o) => self.params.update_offset(o),
                None => {},
            }
            self.done = false;
        } else {
            self.done = true;
        }
        Ok(more)
    }

    /// Hand out the assembled result: metadata from the first page plus the
    /// concatenation of every page's rows, in fetch order.
    pub fn into_result(self) -> (r: QueryResult)
        requires
            self.wf(),
            self.done,
        ensures
            r.rows == self.rows,
            Some(r.metadata) == self.metadata,
    {
        match self.metadata {
            Some(metadata) => QueryResult { metadata, rows: self.rows },
            None => vstd::pervasive::unreached(),
        }
    }
}

/// Law: for every run, the collected rows are the concatenation of the
/// fetched pages in offset order, so their count is the sum of the page row
/// counts.
pub proof fn lemma_pagination_row_count(p: Paginator)
    requires
        p.wf(),
    ensures
        p.rows@ == p.page_rows@.flatten(),
        p.rows@.len() == spec_sum_lens(p.page_rows@),
{
    lemma_flatten_len_is_sum(p.page_rows@);
}

/// Law: when the server's reported total row count equals the number of rows
/// it actually paged out (no truncation, no regression), the assembled
/// result's row count equals the reported total.
pub proof fn lemma_row_count_matches_reported_total(p: Paginator, m: QueryResultMetadata)
    requires
        p.wf(),
        p.metadata == Some(m),
        spec_sum_lens(p.page_rows@) == m.total_row_count as int,
    ensures
        p.rows@.len() == m.total_row_count as int,
{
    lemma_flatten_len_is_sum(p.page_rows@);
}

/// Law: a peek run holds at most one page, is finished as soon as it holds
/// one, and therefore never issues a second page request (a finished run
/// requests nothing).
pub proof fn lemma_peek_at_most_one_page(p: Paginator)
    requires
        p.wf(),
        p.peek,
    ensures
        p.page_rows@.len() <= 1,
        p.page_rows@.len() == 1 ==> p.done && p.rows@ == p.page_rows@[0],
        p.page_rows@.len() == 0 ==> p.rows@ == Seq::<Row>::empty(),
{
    if p.page_rows@.len() == 1 {
        p.page_rows@.lemma_flatten_one_element();
    } else {
        assert(p.rows@ =~= Seq::<Row>::empty());
    }
}

/// Law: the page request is a function of the cursor alone, so re-fetching
/// with the same target, offset and limit (an unchanged cursor) issues a
/// byte-identical request; against an unchanged remote state the same page
/// comes back, and applying it appends exactly its rows.
pub proof fn lemma_refetch_request_identical(a: Paginator, b: Paginator)
    requires
        a.params == b.params,
        a.path == b.path,
    ensures
        a.path@ == b.path@,
        a.params.spec_encoded() == b.params.spec_encoded(),
{
}

} // verus!
