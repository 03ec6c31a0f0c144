//! Client-side core of an asynchronous analytical-query execution API:
//! typed response model, execution-status codec, request encoding,
//! offset-based pagination, and the poll/fetch orchestration state machine.

pub mod decimal;
pub mod error;
pub mod filter;
pub mod paginate;
pub mod params;
pub mod session;
pub mod sink;
pub mod status;
pub mod types;
