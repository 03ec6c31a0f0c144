//! Page-request construction and query-string encoding.
//!
//! A pagination run fixes a target (query id or execution id), a page size,
//! an optional column projection and an optional filter expression; the
//! offset is the only field that moves. The parameters are laid out as an
//! ordered list of key/value string pairs, and the percent-encoding of that
//! list is delegated to an outside form-urlencoding serializer behind a
//! trusted wrapper.

use vstd::prelude::*;
use vstd::string::StringExecFns;

use crate::decimal::spec_parses_as_u64;
use crate::decimal::spec_u64_digits;
use crate::decimal::spec_u64_value;
use crate::decimal::parse_u64;
use crate::decimal::u64_to_string;
use crate::error::DuneError;
use crate::filter::QueryResultsFilter;

verus! {

/// The comma-join of a column projection.
pub open spec fn spec_join_comma(fs: Seq<Seq<char>>) -> Seq<char>
    decreases fs.len(),
{
    if fs.len() == 0 {
        Seq::empty()
    } else if fs.len() == 1 {
        fs[0]
    } else {
        spec_join_comma(fs.drop_last()) + ","@ + fs.last()
    }
}

/// The lowercase rendering of a flag value.
pub open spec fn spec_bool_str(b: bool) -> Seq<char> {
    if b {
        "true"@
    } else {
        "false"@
    }
}

/// The character-level view of a list of key/value string pairs.
pub open spec fn spec_pairs_view(pairs: Seq<(String, String)>) -> Seq<(Seq<char>, Seq<char>)> {
    pairs.map_values(|p: (String, String)| (p.0@, p.1@))
}

/// What the form-urlencoding serializer returns for a list of key/value
/// pairs: each key and value percent-encoded, joined as `k=v` with `&`
/// between pairs. The exact octet sequence is the serializer's own; it is a
/// function of the pairs alone.
pub uninterp spec fn urlencoded_of(pairs: Seq<(Seq<char>, Seq<char>)>) -> Seq<char>;

/// Relies on `serde_urlencoded::to_string`: a slice of string pairs is
/// serialized by percent-encoding each key and each value and appending them
/// as `k=v` joined with `&`, and its serializer accepts every string pair,
/// so it never reports an error for this input shape.
#[verifier::external_body]
fn urlencode_string_pairs(pairs: &Vec<(String, String)>) -> (r: Result<
    String,
    serde_urlencoded::ser::Error,
>)
    ensures
        r is Ok,
        r matches Ok(s) ==> s@ == urlencoded_of(spec_pairs_view(pairs@)),
{
    serde_urlencoded::to_string(pairs.as_slice())
}

/// The error type of the outside form-urlencoding serializer.
#[verifier::external_type_specification]
#[verifier::external_body]
pub struct ExUrlencodedError(serde_urlencoded::ser::Error);

fn bool_string(b: bool) -> (r: String)
    ensures
        r@ == spec_bool_str(b),
{
    if b {
        "true".to_owned()
    } else {
        "false".to_owned()
    }
}

fn join_comma(parts: &Vec<String>) -> (r: String)
    ensures
        r@ == spec_join_comma(parts@.map_values(|s: String| s@)),
{
    let ghost view = parts@.map_values(|s: String| s@);
    if parts.len() == 0 {
        proof {
            assert(view.len() == 0);
        }
        return String::new();
    }
    let mut s: String = parts[0].clone();
    let mut i: usize = 1;
    proof {
        assert(view.subrange(0, 1) =~= seq![view[0]]);
    }
    while i < parts.len()
        invariant
            1 <= i <= parts.len(),
            parts.len() == view.len(),
            view == parts@.map_values(|s: String| s@),
            s@ == spec_join_comma(view.subrange(0, i as int)),
        decreases parts.len() - i,
    {
        let ghost prev = view.subrange(0, i as int);
        let ghost next = view.subrange(0, i + 1 as int);
        s.append(",");
        s.append(parts[i].as_str());
        proof {
            assert(next.drop_last() =~= prev);
            assert(next.last() == view[i as int]);
        }
        i = i + 1;
    }
    proof {
        assert(view.subrange(0, view.len() as int) =~= view);
    }
    s
}

/// Parameters of a results fetch keyed by query id (latest execution).
#[derive(Debug, Clone)]
pub struct QueryResultsParams {
    pub columns: Option<Vec<String>>,
    pub query_id: u64,
    pub offset: u64,
    pub limit: u64,
    pub ignore_max_datapoints_per_request: bool,
    pub filters: Option<String>,
}

/// Parameters of a results fetch keyed by execution id.
#[derive(Debug, Clone)]
pub struct ExecutionResultsParams {
    pub columns: Option<Vec<String>>,
    pub execution_id: String,
    pub offset: u64,
    pub limit: u64,
    pub ignore_max_datapoints_per_request: bool,
    pub filters: Option<String>,
}

/// The ordered key/value pairs shared by both parameter shapes, after the
/// identifying key.
pub open spec fn spec_tail_pairs(
    offset: u64,
    limit: u64,
    ignore_max: bool,
    filters: Option<String>,
) -> Seq<(Seq<char>, Seq<char>)> {
    seq![
        ("offset"@, spec_u64_digits(offset as nat)),
        ("limit"@, spec_u64_digits(limit as nat)),
        ("ignore_max_datapoints_per_request"@, spec_bool_str(ignore_max)),
    ] + (match filters {
        Some(f) => seq![("filters"@, f@)],
        None => Seq::empty(),
    })
}

/// The optional leading column-projection pair.
pub open spec fn spec_columns_pairs(columns: Option<Vec<String>>) -> Seq<(Seq<char>, Seq<char>)> {
    match columns {
        Some(cols) => seq![("columns"@, spec_join_comma(cols@.map_values(|s: String| s@)))],
        None => Seq::empty(),
    }
}

impl QueryResultsParams {
    /// The ordered pair list this parameter set encodes as.
    pub open spec fn spec_pairs(self) -> Seq<(Seq<char>, Seq<char>)> {
        spec_columns_pairs(self.columns) + seq![
            ("query_id"@, spec_u64_digits(self.query_id as nat)),
        ] + spec_tail_pairs(self.offset, self.limit, self.ignore_max_datapoints_per_request, self.filters)
    }

    fn pairs(&self) -> (r: Vec<(String, String)>)
        ensures
            spec_pairs_view(r@) == self.spec_pairs(),
    {
        let mut v: Vec<(String, String)> = Vec::new();
        match &self.columns {
            Some(cols) => {
                v.push(("columns".to_owned(), join_comma(cols)));
            },
            None => {},
        }
        v.push(("query_id".to_owned(), u64_to_string(self.query_id)));
        v.push(("offset".to_owned(), u64_to_string(self.offset)));
        v.push(("limit".to_owned(), u64_to_string(self.limit)));
        v.push((
            "ignore_max_datapoints_per_request".to_owned(),
            bool_string(self.ignore_max_datapoints_per_request),
        ));
        match &self.filters {
            Some(f) => {
                v.push(("filters".to_owned(), f.clone()));
            },
            None => {},
        }
        proof {
            assert(spec_pairs_view(v@) =~= self.spec_pairs());
        }
        v
    }
}

impl ExecutionResultsParams {
    /// The ordered pair list this parameter set encodes as.
    pub open spec fn spec_pairs(self) -> Seq<(Seq<char>, Seq<char>)> {
        spec_columns_pairs(self.columns) + seq![("execution_id"@, self.execution_id@)]
            + spec_tail_pairs(
            self.offset,
            self.limit,
            self.ignore_max_datapoints_per_request,
            self.filters,
        )
    }

    fn pairs(&self) -> (r: Vec<(String, String)>)
        ensures
            spec_pairs_view(r@) == self.spec_pairs(),
    {
        let mut v: Vec<(String, String)> = Vec::new();
        match &self.columns {
            Some(cols) => {
                v.push(("columns".to_owned(), join_comma(cols)));
            },
            None => {},
        }
        v.push(("execution_id".to_owned(), self.execution_id.clone()));
        v.push(("offset".to_owned(), u64_to_string(self.offset)));
        v.push(("limit".to_owned(), u64_to_string(self.limit)));
        v.push((
            "ignore_max_datapoints_per_request".to_owned(),
            bool_string(self.ignore_max_datapoints_per_request),
        ));
        match &self.filters {
            Some(f) => {
                v.push(("filters".to_owned(), f.clone()));
            },
            None => {},
        }
        proof {
            assert(spec_pairs_view(v@) =~= self.spec_pairs());
        }
        v
    }
}

/// A page-request parameter set: one of the two shapes, sharing an identical
/// cursor contract.
#[derive(Debug, Clone)]
pub enum ResultsParams {
    Query(QueryResultsParams),
    Execution(ExecutionResultsParams),
}

impl ResultsParams {
    /// Parameters for a query-id fetch, offset as given, filters serialized
    /// up front.
    pub fn new_query(
        id: u64,
        ignore_max: bool,
        offset: u64,
        limit: u64,
        columns: Option<Vec<String>>,
        filters: QueryResultsFilter,
    ) -> (r: Self)
        ensures
            r matches ResultsParams::Query(q) && q.query_id == id
                && q.ignore_max_datapoints_per_request == ignore_max && q.offset == offset
                && q.limit == limit && q.columns == columns && (filters@.len() == 0 ==> q.filters
                is None) && (filters@.len() > 0 ==> (q.filters matches Some(f) && f@
                == crate::filter::spec_join_and(filters@))),
    {
        ResultsParams::Query(
            QueryResultsParams {
                query_id: id,
                ignore_max_datapoints_per_request: ignore_max,
                columns,
                offset,
                limit,
                filters: filters.to_option_string(),
            },
        )
    }

    /// Parameters for an execution-id fetch, offset as given, filters
    /// serialized up front.
    pub fn new_execution(
        id: &str,
        ignore_max: bool,
        offset: u64,
        limit: u64,
        columns: Option<Vec<String>>,
        filters: QueryResultsFilter,
    ) -> (r: Self)
        ensures
            r matches ResultsParams::Execution(e) && e.execution_id@ == id@
                && e.ignore_max_datapoints_per_request == ignore_max && e.offset == offset
                && e.limit == limit && e.columns == columns && (filters@.len() == 0 ==> e.filters
                is None) && (filters@.len() > 0 ==> (e.filters matches Some(f) && f@
                == crate::filter::spec_join_and(filters@))),
    {
        ResultsParams::Execution(
            ExecutionResultsParams {
                execution_id: id.to_owned(),
                ignore_max_datapoints_per_request: ignore_max,
                columns,
                offset,
                limit,
                filters: filters.to_option_string(),
            },
        )
    }

    /// The current offset cursor.
    pub open spec fn spec_offset(self) -> u64 {
        match self {
            ResultsParams::Query(q) => q.offset,
            ResultsParams::Execution(e) => e.offset,
        }
    }

    /// The same parameter set with the offset cursor moved.
    pub open spec fn spec_with_offset(self, new_offset: u64) -> Self {
        match self {
            ResultsParams::Query(q) => ResultsParams::Query(
                QueryResultsParams { offset: new_offset, ..q },
            ),
            ResultsParams::Execution(e) => ResultsParams::Execution(
                ExecutionResultsParams { offset: new_offset, ..e },
            ),
        }
    }

    /// Move the offset cursor; every other field is fixed for the run.
    pub fn update_offset(&mut self, new_offset: u64)
        ensures
            *final(self) == old(self).spec_with_offset(new_offset),
    {
        match self {
            ResultsParams::Query(ref mut query_params) => {
                query_params.offset = new_offset;
            },
            ResultsParams::Execution(ref mut execution_params) => {
                execution_params.offset = new_offset;
            },
        }
    }

    /// Read the offset cursor.
    pub fn get_offset(&self) -> (r: u64)
        ensures
            r == self.spec_offset(),
    {
        match self {
            ResultsParams::Query(query_params) => query_params.offset,
            ResultsParams::Execution(execution_params) => execution_params.offset,
        }
    }

    /// The ordered pair list this parameter set encodes as.
    pub open spec fn spec_pairs(self) -> Seq<(Seq<char>, Seq<char>)> {
        match self {
            ResultsParams::Query(q) => q.spec_pairs(),
            ResultsParams::Execution(e) => e.spec_pairs(),
        }
    }

    /// The query string this parameter set encodes to.
    pub open spec fn spec_encoded(self) -> Seq<char> {
        urlencoded_of(self.spec_pairs())
    }

    /// Encode the parameters as a form-urlencoded query string.
    pub fn url_encode(&self) -> (r: Result<String, DuneError>)
        ensures
            r matches Ok(s) && s@ == self.spec_encoded(),
    {
        let pairs: Vec<(String, String)> = match self {
            ResultsParams::Query(query_params) => query_params.pairs(),
            ResultsParams::Execution(execution_params) => execution_params.pairs(),
        };
        match urlencode_string_pairs(&pairs) {
            Ok(s) => Ok(s),
            Err(_) => Err(DuneError::EncodingError),
        }
    }
}

/// Where a results fetch is aimed: a stored query's latest execution, or one
/// specific execution.
#[derive(Debug, Clone)]
pub enum ResultTarget {
    QueryTarget(u64),
    ExecutionTarget(String),
}

impl ResultTarget {
    /// Decide the target from a caller-supplied identifier: an identifier
    /// that parses as an unsigned integer is a query id, anything else is
    /// taken as an execution id. This is a parsing heuristic, not a
    /// validated distinction: an execution id that happens to be all digits
    /// would be misrouted, so callers that know the kind should construct
    /// the variant directly.
    pub fn from_id(id: &str) -> (r: Self)
        ensures
            spec_parses_as_u64(id@) ==> r == ResultTarget::QueryTarget(
                spec_u64_value(id@) as u64,
            ),
            !spec_parses_as_u64(id@) ==> (r matches ResultTarget::ExecutionTarget(e) && e@
                == id@),
    {
        match parse_u64(id) {
            Some(query_id) => ResultTarget::QueryTarget(query_id),
            None => ResultTarget::ExecutionTarget(id.to_owned()),
        }
    }
}

/// The endpoint path of a results fetch for a target.
pub open spec fn spec_results_path(t: ResultTarget) -> Seq<char> {
    match t {
        ResultTarget::QueryTarget(id) => "v1/query/"@ + spec_u64_digits(id as nat) + "/results"@,
        ResultTarget::ExecutionTarget(e) => "v1/execution/"@ + e@ + "/results"@,
    }
}

/// Build the endpoint path of a results fetch.
pub fn results_path(t: &ResultTarget) -> (r: String)
    ensures
        r@ == spec_results_path(*t),
{
    match t {
        ResultTarget::QueryTarget(id) => {
            let mut s: String = "v1/query/".to_owned();
            s.append(u64_to_string(*id).as_str());
            s.append("/results");
            s
        },
        ResultTarget::ExecutionTarget(e) => {
            let mut s: String = "v1/execution/".to_owned();
            s.append(e.as_str());
            s.append("/results");
            s
        },
    }
}

/// The endpoint path that submits a query for execution.
pub fn execute_query_path(query_id: u64) -> (r: String)
    ensures
        r@ == "v1/query/"@ + spec_u64_digits(query_id as nat) + "/execute"@,
{
    let mut s: String = "v1/query/".to_owned();
    s.append(u64_to_string(query_id).as_str());
    s.append("/execute");
    s
}

/// The endpoint path that reports an execution's status.
pub fn execution_status_path(execution_id: &str) -> (r: String)
    ensures
        r@ == "v1/execution/"@ + execution_id@ + "/status"@,
{
    let mut s: String = "v1/execution/".to_owned();
    s.append(execution_id);
    s.append("/status");
    s
}

} // verus!
