//! Error taxonomy of the export pipeline. A primary-query failure is fatal
//! for the run; a script-fetch failure is scoped to its one task and
//! collected at the end of the fan-out phase.
use vstd::prelude::*;

verus! {

/// Why decoding the primary query's response failed: the body was not valid
/// JSON, or it was JSON of an unexpected shape.
#[derive(Debug, Clone, Copy, PartialEq, Eq, Structural)]
pub enum QueryError {
    BadJson,
    BadShape,
}

impl QueryError {
    /// A short description, for reporting the failed run.
    pub fn message(&self) -> (r: &'static str)
        ensures
            *self == QueryError::BadJson ==> r@ == "response body is not valid JSON"@,
            *self == QueryError::BadShape ==> r@ == "response shape does not match the query"@,
    {
        match self {
            QueryError::BadJson => "response body is not valid JSON",
            QueryError::BadShape => "response shape does not match the query",
        }
    }
}

/// Why one script-fetch task failed: its transport call failed, its response
/// body was not valid JSON, the unwrapped terminal value was not a string,
/// or the script file could not be written.
#[derive(Debug, Clone, Copy, PartialEq, Eq, Structural)]
pub enum FetchError {
    Transport,
    BadJson,
    InvalidShape,
    FileWrite,
}

impl FetchError {
    /// A short description, for reporting the failed task.
    pub fn message(&self) -> (r: &'static str)
        ensures
            *self == FetchError::Transport ==> r@ == "script query transport failed"@,
            *self == FetchError::BadJson ==> r@ == "script response body is not valid JSON"@,
            *self == FetchError::InvalidShape ==> r@ == "invalid script query response"@,
            *self == FetchError::FileWrite ==> r@ == "script file write failed"@,
    {
        match self {
            FetchError::Transport => "script query transport failed",
            FetchError::BadJson => "script response body is not valid JSON",
            FetchError::InvalidShape => "invalid script query response",
            FetchError::FileWrite => "script file write failed",
        }
    }
}

} // verus!
