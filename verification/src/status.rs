//! The execution-status state space and its wire codec.
//!
//! A remote execution reports one of seven states, carried on the wire as an
//! upper-snake-case token (for example `QUERY_STATE_COMPLETED`). The mapping
//! is closed: any token outside the seven is a decode failure, never a
//! default.

use vstd::prelude::*;

use crate::error::DuneError;

verus! {

/// The states a remote query execution can report.
#[derive(Debug, Clone, Copy, PartialEq, Eq, Structural)]
pub enum ExecutionStatus {
    QueryStatePending,
    QueryStateExecuting,
    QueryStateFailed,
    QueryStateCompleted,
    QueryStateCancelled,
    QueryStateExpired,
    QueryStateCompletedPartial,
}

/// The wire token of each status.
pub open spec fn spec_status_token(s: ExecutionStatus) -> Seq<char> {
    match s {
        ExecutionStatus::QueryStatePending => "QUERY_STATE_PENDING"@,
        ExecutionStatus::QueryStateExecuting => "QUERY_STATE_EXECUTING"@,
        ExecutionStatus::QueryStateFailed => "QUERY_STATE_FAILED"@,
        ExecutionStatus::QueryStateCompleted => "QUERY_STATE_COMPLETED"@,
        ExecutionStatus::QueryStateCancelled => "QUERY_STATE_CANCELLED"@,
        ExecutionStatus::QueryStateExpired => "QUERY_STATE_EXPIRED"@,
        ExecutionStatus::QueryStateCompletedPartial => "QUERY_STATE_COMPLETED_PARTIAL"@,
    }
}

/// The closed decoding map: the status of a wire token, or `None` for any
/// token outside the seven.
pub open spec fn spec_status_of_token(t: Seq<char>) -> Option<ExecutionStatus> {
    if t == "QUERY_STATE_PENDING"@ {
        Some(ExecutionStatus::QueryStatePending)
    } else if t == "QUERY_STATE_EXECUTING"@ {
        Some(ExecutionStatus::QueryStateExecuting)
    } else if t == "QUERY_STATE_FAILED"@ {
        Some(ExecutionStatus::QueryStateFailed)
    } else if t == "QUERY_STATE_COMPLETED"@ {
        Some(ExecutionStatus::QueryStateCompleted)
    } else if t == "QUERY_STATE_CANCELLED"@ {
        Some(ExecutionStatus::QueryStateCancelled)
    } else if t == "QUERY_STATE_EXPIRED"@ {
        Some(ExecutionStatus::QueryStateExpired)
    } else if t == "QUERY_STATE_COMPLETED_PARTIAL"@ {
        Some(ExecutionStatus::QueryStateCompletedPartial)
    } else {
        None
    }
}

/// String equality, specified over the character views.
fn str_eq(a: &str, b: &str) -> (r: bool)
    ensures
        r == (a@ == b@),
{
    let sa: String = a.to_owned();
    let sb: String = b.to_owned();
    sa == sb
}

impl ExecutionStatus {
    /// The wire token this status is carried as.
    pub fn as_str(&self) -> (r: &'static str)
        ensures
            r@ == spec_status_token(*self),
    {
        match self {
            ExecutionStatus::QueryStatePending => "QUERY_STATE_PENDING",
            ExecutionStatus::QueryStateExecuting => "QUERY_STATE_EXECUTING",
            ExecutionStatus::QueryStateFailed => "QUERY_STATE_FAILED",
            ExecutionStatus::QueryStateCompleted => "QUERY_STATE_COMPLETED",
            ExecutionStatus::QueryStateCancelled => "QUERY_STATE_CANCELLED",
            ExecutionStatus::QueryStateExpired => "QUERY_STATE_EXPIRED",
            ExecutionStatus::QueryStateCompletedPartial => "QUERY_STATE_COMPLETED_PARTIAL",
        }
    }
}

/// Decode a wire token into a status. Exactly the seven documented tokens
/// decode; every other token is a `ParseError`.
pub fn decode_status(token: &str) -> (r: Result<ExecutionStatus, DuneError>)
    ensures
        spec_status_of_token(token@) matches Some(s) ==> r == Ok::<
            ExecutionStatus,
            DuneError,
        >(s),
        spec_status_of_token(token@) is None ==> r == Err::<
            ExecutionStatus,
            DuneError,
        >(DuneError::ParseError),
{
    if str_eq(token, "QUERY_STATE_PENDING") {
        Ok(ExecutionStatus::QueryStatePending)
    } else if str_eq(token, "QUERY_STATE_EXECUTING") {
        Ok(ExecutionStatus::QueryStateExecuting)
    } else if str_eq(token, "QUERY_STATE_FAILED") {
        Ok(ExecutionStatus::QueryStateFailed)
    } else if str_eq(token, "QUERY_STATE_COMPLETED") {
        Ok(ExecutionStatus::QueryStateCompleted)
    } else if str_eq(token, "QUERY_STATE_CANCELLED") {
        Ok(ExecutionStatus::QueryStateCancelled)
    } else if str_eq(token, "QUERY_STATE_EXPIRED") {
        Ok(ExecutionStatus::QueryStateExpired)
    } else if str_eq(token, "QUERY_STATE_COMPLETED_PARTIAL") {
        Ok(ExecutionStatus::QueryStateCompletedPartial)
    } else {
        Err(DuneError::ParseError)
    }
}

/// Law: decoding a status's own token gives back exactly that status, for
/// every status in the closed set.
pub proof fn lemma_status_token_round_trip(s: ExecutionStatus)
    ensures
        spec_status_of_token(spec_status_token(s)) == Some(s),
{
    reveal_strlit("QUERY_STATE_PENDING");
    reveal_strlit("QUERY_STATE_EXECUTING");
    reveal_strlit("QUERY_STATE_FAILED");
    reveal_strlit("QUERY_STATE_COMPLETED");
    reveal_strlit("QUERY_STATE_CANCELLED");
    reveal_strlit("QUERY_STATE_EXPIRED");
    reveal_strlit("QUERY_STATE_COMPLETED_PARTIAL");
    assert("QUERY_STATE_PENDING"@.len() == 19);
    assert("QUERY_STATE_EXECUTING"@.len() == 21);
    assert("QUERY_STATE_FAILED"@.len() == 18);
    assert("QUERY_STATE_COMPLETED"@.len() == 21);
    assert("QUERY_STATE_CANCELLED"@.len() == 21);
    assert("QUERY_STATE_EXPIRED"@.len() == 19);
    assert("QUERY_STATE_COMPLETED_PARTIAL"@.len() == 29);
    assert("QUERY_STATE_PENDING"@[12] == 'P');
    assert("QUERY_STATE_EXPIRED"@[12] == 'E');
    assert("QUERY_STATE_EXECUTING"@[12] == 'E');
    assert("QUERY_STATE_COMPLETED"@[12] == 'C');
    assert("QUERY_STATE_CANCELLED"@[12] == 'C');
    assert("QUERY_STATE_COMPLETED"@[13] == 'O');
    assert("QUERY_STATE_CANCELLED"@[13] == 'A');
    match s {
        ExecutionStatus::QueryStatePending => {
            assert(spec_status_of_token("QUERY_STATE_PENDING"@) == Some(s));
        },
        ExecutionStatus::QueryStateExecuting => {
            assert(spec_status_of_token("QUERY_STATE_EXECUTING"@) == Some(s));
        },
        ExecutionStatus::QueryStateFailed => {
            assert(spec_status_of_token("QUERY_STATE_FAILED"@) == Some(s));
        },
        ExecutionStatus::QueryStateCompleted => {
            assert(spec_status_of_token("QUERY_STATE_COMPLETED"@) == Some(s));
        },
        ExecutionStatus::QueryStateCancelled => {
            assert(spec_status_of_token("QUERY_STATE_CANCELLED"@) == Some(s));
        },
        ExecutionStatus::QueryStateExpired => {
            assert(spec_status_of_token("QUERY_STATE_EXPIRED"@) == Some(s));
        },
        ExecutionStatus::QueryStateCompletedPartial => {
            assert(spec_status_of_token("QUERY_STATE_COMPLETED_PARTIAL"@) == Some(s));
        },
    }
}

/// Law: a token that decodes at all decodes to the status whose token it is;
/// together with the round trip this makes the codec a bijection between the
/// seven statuses and the seven tokens.
pub proof fn lemma_token_of_decoded(t: Seq<char>, s: ExecutionStatus)
    requires
        spec_status_of_token(t) == Some(s),
    ensures
        spec_status_token(s) == t,
{
}

} // verus!
