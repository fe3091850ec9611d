//! The error type of the client.

use vstd::prelude::*;

verus! {

/// Errors of the client.
#[derive(Debug)]
pub enum OpenAIError {
    /// An argument or configuration value was rejected.
    InvalidArgument(String),
    /// The API answered with an error status.
    ApiError { status: u16, message: String, type_: Option<String>, code: Option<String> },
    /// The request could not be sent or its answer could not be read.
    RequestError(String),
    /// A body could not be encoded or decoded as JSON.
    JsonError(String),
}

/// Whether a result is an `InvalidArgument` error with the given message.
pub open spec fn is_invalid_argument<T>(r: Result<T, OpenAIError>, message: Seq<char>) -> bool {
    r matches Err(OpenAIError::InvalidArgument(m)) && m@ == message
}

/// The `error` object of an API error body: its message, type and code.
#[derive(Debug, Clone, PartialEq, Eq)]
pub struct ErrorDetail {
    pub message: String,
    pub type_: Option<String>,
    pub code: Option<String>,
}

/// An API error body: `{"error": {...}}`.
#[derive(Debug, Clone, PartialEq, Eq)]
pub struct ErrorResponse {
    pub error: ErrorDetail,
}

/// Whether an HTTP status is a success (2xx).
pub fn status_is_success(status: u16) -> (r: bool)
    ensures
        r == (200 <= status && status < 300),
{
    200 <= status && status < 300
}

/// The error for a failed request, from its status and body: the message,
/// type and code of the body's error object where the body is one (`parsed`
/// is what reading the body as an error object gave), else the whole body
/// as the message.
pub fn api_error_from_body(status: u16, body: String, parsed: Option<ErrorResponse>) -> (e:
    OpenAIError)
    ensures
        match parsed {
            Some(p) => e == OpenAIError::ApiError {
                status,
                message: p.error.message,
                type_: p.error.type_,
                code: p.error.code,
            },
            None => e == OpenAIError::ApiError { status, message: body, type_: None, code: None },
        },
{
    match parsed {
        Some(p) => OpenAIError::ApiError {
            status,
            message: p.error.message,
            type_: p.error.type_,
            code: p.error.code,
        },
        None => OpenAIError::ApiError { status, message: body, type_: None, code: None },
    }
}

} // verus!
