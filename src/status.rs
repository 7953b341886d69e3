//! Envelopes for data and error responses.

use vstd::prelude::*;

verus! {

#[derive(Clone, Debug, Default)]
pub struct DataResponse<T: Clone + Default> {
    pub data: T,
}

impl<T: Clone + Default> DataResponse<T> {
    pub fn builder(data: T) -> (r: DataResponse<T>)
        ensures
            r.data == data,
    {
        DataResponse { data }
    }
}

#[derive(Clone, Debug, Default)]
pub struct ErrorResponse {
    pub error: String,
    pub error_description: Option<String>,
    pub state: Option<String>,
}

impl ErrorResponse {
    /// An error response with the given code and nothing else.
    pub fn builder(error: &str) -> (r: ErrorResponse)
        ensures
            r.error@ == error@,
            r.error_description is None,
            r.state is None,
    {
        ErrorResponse { error: error.to_owned(), error_description: None, state: None }
    }

    pub fn with_error_description(self, description: &str) -> (r: ErrorResponse)
        ensures
            r.error == self.error,
            r.error_description matches Some(d) && d@ == description@,
            r.state == self.state,
    {
        ErrorResponse { error: self.error, error_description: Some(description.to_owned()), state: self.state }
    }

    pub fn not_found() -> (r: ErrorResponse)
        ensures
            r.error@ == "not_found"@,
            r.error_description is None,
    {
        ErrorResponse::builder("not_found")
    }

    pub fn invalid_request() -> (r: ErrorResponse)
        ensures
            r.error@ == "invalid_request"@,
            r.error_description is None,
    {
        ErrorResponse::builder("invalid_request")
    }

    pub fn server_error() -> (r: ErrorResponse)
        ensures
            r.error@ == "server_error"@,
            r.error_description is None,
    {
        ErrorResponse::builder("server_error")
    }

    pub fn conflict() -> (r: ErrorResponse)
        ensures
            r.error@ == "conflict"@,
            r.error_description is None,
    {
        ErrorResponse::builder("conflict")
    }
}

#[derive(Clone, Debug, Default)]
pub struct StatusRequest {
    pub chain_id: Option<String>,
    pub asset_id: Option<Vec<String>>,
}

/// Extrinsic counts by outcome.
#[derive(Clone, Copy, Debug, Default)]
pub struct StatusResponse {
    pub pending: u64,
    pub finalized: u64,
    pub dropped: u64,
}

impl StatusResponse {
    pub fn builder(pending: u64, finalized: u64, dropped: u64) -> (r: StatusResponse)
        ensures
            r.pending == pending,
            r.finalized == finalized,
            r.dropped == dropped,
    {
        StatusResponse { pending, finalized, dropped }
    }
}

} // verus!
