//! The typed response model and the row representation.
//!
//! These are the in-memory shapes of the four API payloads: the
//! execute-response, the status-response, the paginated-results-response and
//! its embedded result page. Result rows are structured records whose values
//! are held in their primitive rendered forms, so that everything downstream
//! of the transport works on plain data.

use vstd::prelude::*;

use crate::status::ExecutionStatus;

verus! {

/// The remote compute tier a query runs on.
#[derive(Debug, Clone, Copy, PartialEq, Eq, Structural)]
pub enum EngineSize {
    Large,
    Medium,
}

impl EngineSize {
    /// The lowercase token this tier serializes to.
    pub fn as_str(&self) -> (r: &'static str)
        ensures
            *self == EngineSize::Large ==> r@ == "large"@,
            *self == EngineSize::Medium ==> r@ == "medium"@,
    {
        match self {
            EngineSize::Large => "large",
            EngineSize::Medium => "medium",
        }
    }
}

/// The supported chains, by their lowercase wire names.
#[derive(Debug, Clone, Copy, PartialEq, Eq, Structural)]
pub enum Blockchain {
    Ethereum,
    Arbitrum,
    Optimism,
    Base,
    Polygon,
}

/// The wire name of each chain.
pub open spec fn spec_blockchain_str(b: Blockchain) -> Seq<char> {
    match b {
        Blockchain::Ethereum => "ethereum"@,
        Blockchain::Arbitrum => "arbitrum"@,
        Blockchain::Optimism => "optimism"@,
        Blockchain::Base => "base"@,
        Blockchain::Polygon => "polygon"@,
    }
}

impl Blockchain {
    /// The lowercase token this chain serializes to.
    pub fn as_str(&self) -> (r: &'static str)
        ensures
            r@ == spec_blockchain_str(*self),
    {
        match self {
            Blockchain::Ethereum => "ethereum",
            Blockchain::Arbitrum => "arbitrum",
            Blockchain::Optimism => "optimism",
            Blockchain::Base => "base",
            Blockchain::Polygon => "polygon",
        }
    }
}

/// One primitive cell of a result row, already rendered to plain data:
/// strings stay themselves, numbers keep their decimal text, booleans and
/// nulls are tagged, and nested structures are noted without their contents.
#[derive(Debug, Clone)]
pub enum CellValue {
    Text(String),
    Number(String),
    Boolean(bool),
    Null,
    Nested,
}

/// One result row: a structured record of key/value entries in the order the
/// server sent them, or an unstructured value (which carries no columns).
#[derive(Debug, Clone)]
pub enum Row {
    Record(Vec<(String, CellValue)>),
    Unstructured,
}

/// What a submit call returns: the new execution's identifier and the status
/// reported at submission time.
#[derive(Debug, Clone)]
pub struct ExecuteQueryResponse {
    pub execution_id: String,
    pub status: ExecutionStatus,
}

/// Result metadata as reported by the status endpoint.
#[derive(Debug, Clone)]
pub struct StatusResultMetadata {
    pub column_names: Vec<String>,
    pub column_types: Vec<String>,
    pub datapoint_count: u64,
    pub total_row_count: u64,
}

/// What the status endpoint returns for one execution.
#[derive(Debug, Clone)]
pub struct ExecutionStatusResponse {
    pub execution_id: String,
    pub query_id: u64,
    pub is_execution_finished: bool,
    pub result_metadata: Option<StatusResultMetadata>,
    pub status: ExecutionStatus,
}

/// Result metadata as reported by the results endpoints.
#[derive(Debug, Clone)]
pub struct QueryResultMetadata {
    pub column_names: Vec<String>,
    pub column_types: Vec<String>,
    pub datapoint_count: u128,
    pub total_row_count: u128,
    pub row_count: u128,
}

/// One page of results: the fully assembled output is the metadata of the
/// first page plus the concatenation of every page's rows.
#[derive(Debug, Clone)]
pub struct QueryResult {
    pub metadata: QueryResultMetadata,
    pub rows: Vec<Row>,
}

/// What the results endpoints return for one page request. A present
/// `next_offset` means more pages follow.
#[derive(Debug, Clone)]
pub struct QueryResultsResponse {
    pub state: String,
    pub execution_id: String,
    pub is_execution_finished: bool,
    pub next_offset: Option<u64>,
    pub query_id: u64,
    pub result: QueryResult,
}

} // verus!
