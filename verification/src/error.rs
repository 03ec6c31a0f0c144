//! The flat error space of the client.
//!
//! Every failure surfaces to the caller as one of these kinds; nothing in the
//! core retries, and nothing panics.

use vstd::prelude::*;

use crate::status::ExecutionStatus;

verus! {

/// Why a client operation failed.
#[derive(Debug, Clone, Copy, PartialEq, Eq, Structural)]
pub enum DuneError {
    /// The transport could not complete the request.
    RequestError,
    /// A response body did not decode into the expected shape, including an
    /// unknown status token or a page offset that did not advance.
    ParseError,
    /// Outbound parameter serialization failed.
    EncodingError,
    /// Results were requested before the server reported the execution
    /// finished; the caller must poll first.
    QueryNotFinished,
    /// The polled execution reached a terminal failure status.
    QueryStatusError(ExecutionStatus),
}

} // verus!
