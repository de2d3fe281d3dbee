//! The errors that a request can end with.

use vstd::prelude::*;

verus! {

/// An error that the API reported in its response: a code to act on and a
/// message to show.
#[derive(Debug, Clone, PartialEq, Eq)]
pub struct APIError {
    pub code: String,
    pub message: String,
}

impl APIError {
    /// An error made of its two parts.
    pub fn from_raw(code: String, message: String) -> (error: APIError)
        ensures
            error.code == code,
            error.message == message,
    {
        Self { code, message }
    }

    /// The error's code.
    pub fn code(&self) -> (code: &String)
        ensures
            *code == self.code,
    {
        &self.code
    }

    /// The error's message.
    pub fn message(&self) -> (message: &String)
        ensures
            *message == self.message,
    {
        &self.message
    }
}

/// What is wrong with a rejection that gives no usable wait.
#[derive(Clone, Copy, Debug, PartialEq, Eq, Structural)]
pub enum ProtocolViolation {
    /// The rejection carries no `Retry-After` header.
    MissingRetryAfter,
    /// The `Retry-After` header does not hold a count of seconds.
    MalformedRetryAfter,
}

/// A failure on this side of the wire: the request ends with it and is not
/// sent again.
#[derive(Clone, Copy, Debug, PartialEq, Eq, Structural)]
pub enum LocalError {
    /// The transport could not deliver the request or the response.
    Transport,
    /// The server rejected the request for its rate without saying how long to wait.
    Protocol(ProtocolViolation),
    /// The body of a response with a status of success is not an envelope of the expected shape.
    DecodeOnSuccess,
    /// The body of a response with a status of failure is not an envelope of the expected shape.
    DecodeOnError,
    /// The envelope reports success and holds no data.
    MissingData,
    /// The envelope reports an error and holds none.
    MissingError,
    /// The server rejected the request for its rate more often than the caller allows.
    RejectedTooOften,
    /// The executor was handed an event that its phase does not wait for.
    OutOfTurn,
    /// The sort options could not be written as a query string. The encoder
    /// in use has no error for them, so this does not arise.
    Query,
}

/// How a request can fail: with an error that the API reported, or with a
/// failure on this side.
#[derive(Debug, Clone, PartialEq, Eq)]
pub enum RequestError {
    Api(APIError),
    Local(LocalError),
}

} // verus!
