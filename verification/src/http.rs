//! One request, from the first check of the rate limits to the result: the
//! response envelope, what a response means for the rate limits, and the
//! steps of a request that is sent again for as long as the server rejects it
//! for its rate.

use crate::error::APIError;
use crate::error::LocalError;
use crate::error::ProtocolViolation;
use crate::error::RequestError;
use crate::text::parse_u64;
use crate::text::parsed_u64;
use crate::text::str_eq;
use crate::throttler::Outcome;
use crate::throttler::RateLimitStore;
use crate::throttler::RequestType;
use crate::throttler::StoreState;
use crate::throttler::unix_timestamp;
use reqwest::header::HeaderValue;
use reqwest::Response;
use vstd::prelude::*;

verus! {

/// A parsed response from the API: `result` says whether `data` or `error`
/// is the one to read.
#[derive(Debug, Clone, PartialEq, Eq)]
pub struct APIResponse<D> {
    pub result: String,
    pub data: Option<D>,
    pub error: Option<APIError>,
}

impl<D> APIResponse<D> {
    /// What `as_result` makes of the envelope: its data where it reports
    /// success, its error where it does not, and a local error where the part
    /// to read is missing.
    pub open spec fn outcome(self) -> Result<D, RequestError> {
        if self.result@ == "success"@ {
            match self.data {
                Some(data) => Ok(data),
                None => Err(RequestError::Local(LocalError::MissingData)),
            }
        } else {
            match self.error {
                Some(error) => Err(RequestError::Api(error)),
                None => Err(RequestError::Local(LocalError::MissingError)),
            }
        }
    }

    /// Returns whether or not the response was successful.
    pub fn is_success(&self) -> (yes: bool)
        ensures
            yes == (self.result@ == "success"@),
    {
        str_eq(self.result.as_str(), "success")
    }

    /// Returns whether or not the response was errored.
    pub fn is_error(&self) -> (yes: bool)
        ensures
            yes == (self.result@ == "error"@),
    {
        str_eq(self.result.as_str(), "error")
    }

    /// Returns the data within the response, which must be there.
    pub fn data(self) -> (data: D)
        requires
            self.data is Some,
        ensures
            Some(data) == self.data,
    {
        self.data.unwrap()
    }

    /// Returns a reference to the data within the response, which must be there.
    pub fn data_ref(&self) -> (data: &D)
        requires
            self.data is Some,
        ensures
            Some(*data) == self.data,
    {
        self.data.as_ref().unwrap()
    }

    /// Returns the error within the response, which must be there.
    pub fn error(self) -> (error: APIError)
        requires
            self.error is Some,
        ensures
            Some(error) == self.error,
    {
        self.error.unwrap()
    }

    /// Returns a reference to the error within the response, which must be there.
    pub fn error_ref(&self) -> (error: &APIError)
        requires
            self.error is Some,
        ensures
            Some(*error) == self.error,
    {
        self.error.as_ref().unwrap()
    }

    /// Turns the envelope into the caller's result. An error that the API
    /// reported is handed on as it is; an envelope that lacks the part it
    /// announces is a local error.
    pub fn as_result(self) -> (result: Result<D, RequestError>)
        ensures
            result == self.outcome(),
    {
        if self.is_success() {
            match self.data {
                Some(data) => Ok(data),
                None => Err(RequestError::Local(LocalError::MissingData)),
            }
        } else {
            match self.error {
                Some(error) => Err(RequestError::Api(error)),
                None => Err(RequestError::Local(LocalError::MissingError)),
            }
        }
    }
}

/// The HTTP status with which the server rejects a request for its rate.
pub const TOO_MANY_REQUESTS: u16 = 429;

/// The name of the header that says how many seconds to wait after a rejection.
pub const RETRY_AFTER: &'static str = "Retry-After";

/// What a response holds under `Retry-After`.
#[derive(Debug, Clone, PartialEq, Eq)]
pub enum RetryAfter {
    /// No such header.
    Absent,
    /// A header whose value is no text.
    Unreadable,
    /// The header's value.
    Text(String),
}

/// What a response means for the rate limits.
#[derive(Clone, Copy, Debug, PartialEq, Eq, Structural)]
pub enum Verdict {
    /// The request was not rejected for its rate.
    Accepted,
    /// The request was rejected; the server asks for a wait of so many milliseconds.
    Limited(u64),
    /// The request was rejected and the wait cannot be told.
    Violation(ProtocolViolation),
}

/// `seconds` in milliseconds, or the longest wait there is where that does
/// not fit.
pub open spec fn millis_of_seconds(seconds: u64) -> u64 {
    if seconds * 1000 <= u64::MAX {
        (seconds * 1000) as u64
    } else {
        u64::MAX
    }
}

/// What a response with `status` and `retry_after` means for the rate
/// limits. Only the status 429 is a rejection; its header must then hold a
/// count of seconds.
pub open spec fn verdict_of(status: u16, retry_after: RetryAfter) -> Verdict {
    if status != TOO_MANY_REQUESTS {
        Verdict::Accepted
    } else {
        match retry_after {
            RetryAfter::Absent => Verdict::Violation(ProtocolViolation::MissingRetryAfter),
            RetryAfter::Unreadable => Verdict::Violation(ProtocolViolation::MalformedRetryAfter),
            RetryAfter::Text(text) => match parsed_u64(text@) {
                Some(seconds) => Verdict::Limited(millis_of_seconds(seconds)),
                None => Verdict::Violation(ProtocolViolation::MalformedRetryAfter),
            },
        }
    }
}

/// Converts a wait in seconds to milliseconds, stopping at the longest wait there is.
pub fn retry_after_millis(seconds: u64) -> (millis: u64)
    ensures
        millis == millis_of_seconds(seconds),
{
    if seconds > u64::MAX / 1000 {
        u64::MAX
    } else {
        seconds * 1000
    }
}

/// Tells what a response with `status` and `retry_after` means for the rate limits.
pub fn classify(status: u16, retry_after: &RetryAfter) -> (verdict: Verdict)
    ensures
        verdict == verdict_of(status, *retry_after),
{
    if status != TOO_MANY_REQUESTS {
        return Verdict::Accepted;
    }
    match retry_after {
        RetryAfter::Absent => Verdict::Violation(ProtocolViolation::MissingRetryAfter),
        RetryAfter::Unreadable => Verdict::Violation(ProtocolViolation::MalformedRetryAfter),
        RetryAfter::Text(text) => match parse_u64(text.as_str()) {
            Some(seconds) => Verdict::Limited(retry_after_millis(seconds)),
            None => Verdict::Violation(ProtocolViolation::MalformedRetryAfter),
        },
    }
}

/// The store after a response with `verdict` was noted for `request_type` at
/// `now`: an accepted response is recorded as a success, a rejection as the
/// cool-down it asks for, and a rejection without a usable wait leaves the
/// store as it was.
pub open spec fn noted(store: StoreState, request_type: RequestType, verdict: Verdict, now: u64) -> StoreState {
    match verdict {
        Verdict::Accepted => store.recorded(request_type, Outcome::Accepted, now),
        Verdict::Limited(millis) => store.recorded(request_type, Outcome::Limited(millis), now),
        Verdict::Violation(_) => store,
    }
}

/// Whether a response with `verdict` hit the rate limit, or the violation that it is.
pub open spec fn hit_limit(verdict: Verdict) -> Result<bool, ProtocolViolation> {
    match verdict {
        Verdict::Accepted => Ok(false),
        Verdict::Limited(_) => Ok(true),
        Verdict::Violation(violation) => Err(violation),
    }
}

/// Notes in `store`, at `now`, a response with `status` and `retry_after` to
/// a request of `request_type`, and tells whether the request hit the rate
/// limit and has to be sent again.
pub fn note_response(
    store: &mut RateLimitStore,
    request_type: RequestType,
    status: u16,
    retry_after: &RetryAfter,
    now: u64,
) -> (hit: Result<bool, ProtocolViolation>)
    ensures
        hit == hit_limit(verdict_of(status, *retry_after)),
        final(store)@ == noted(old(store)@, request_type, verdict_of(status, *retry_after), now),
{
    match classify(status, retry_after) {
        Verdict::Accepted => {
            store.on_response(request_type, Outcome::Accepted, now);
            Ok(false)
        },
        Verdict::Limited(millis) => {
            store.on_response(request_type, Outcome::Limited(millis), now);
            Ok(true)
        },
        Verdict::Violation(violation) => Err(violation),
    }
}

/// The status of `response`, as the number that `StatusCode::as_u16` gives
/// for what `reqwest::Response::status` returns.
pub uninterp spec fn status_of(response: Response) -> u16;

/// The first value that `response` holds under the header `name`, if it
/// holds one: what `HeaderMap::get` finds in `reqwest::Response::headers`.
pub uninterp spec fn header_of(response: Response, name: Seq<char>) -> Option<HeaderValue>;

/// The text of `value`, if it is text: what `HeaderValue::to_str` yields.
pub uninterp spec fn text_of(value: HeaderValue) -> Option<Seq<char>>;

/// `retry_after` is what `response` holds under `Retry-After`: `Absent` for
/// no such header, `Unreadable` for a header whose first value is no text,
/// else that value's text.
pub open spec fn reads_as(response: Response, retry_after: RetryAfter) -> bool {
    match header_of(response, RETRY_AFTER@) {
        None => retry_after is Absent,
        Some(value) => match text_of(value) {
            None => retry_after is Unreadable,
            Some(text) => retry_after matches RetryAfter::Text(read) && read@ == text,
        },
    }
}

/// Reads what `response` holds under `Retry-After`; `classify` says what each
/// reading means.
pub fn retry_after_of(response: &Response) -> (retry_after: RetryAfter)
    ensures
        reads_as(*response, retry_after),
{
    match header_value(response, RETRY_AFTER) {
        None => RetryAfter::Absent,
        Some(value) => match header_text(value) {
            None => RetryAfter::Unreadable,
            Some(text) => RetryAfter::Text(text),
        },
    }
}

/// Notes in `store`, at the clock's time, the response to a request of
/// `request_type`, and tells whether the request hit the rate limit and has
/// to be sent again.
///
/// The result and the store are those of `note_response` for the status and
/// the `Retry-After` header of `response`, and for the time that the clock
/// showed.
pub fn did_hit_limit(store: &mut RateLimitStore, response: &Response, request_type: RequestType) -> (hit:
    Result<bool, ProtocolViolation>)
    ensures
        exists|retry_after: RetryAfter, now: u64|
            reads_as(*response, retry_after) && hit == hit_limit(
                verdict_of(status_of(*response), retry_after),
            ) && final(store)@ == #[trigger] noted(
                old(store)@,
                request_type,
                verdict_of(status_of(*response), retry_after),
                now,
            ),
{
    let status = status_code(response);
    let retry_after = retry_after_of(response);
    let now = unix_timestamp();
    note_response(store, request_type, status, &retry_after, now)
}

/// `reqwest::Response`: a response as the transport hands it over. Its
/// inside is read through the wrappers below only.
#[verifier::external_type_specification]
#[verifier::external_body]
pub struct ExResponse(Response);

/// `reqwest::header::HeaderValue`: the value of one header, carried from
/// `header_value` to `header_text`.
#[verifier::external_type_specification]
#[verifier::external_body]
pub struct ExHeaderValue(HeaderValue);

/// `reqwest::Response::status`, as the number that `StatusCode::as_u16`
/// gives for it: the status of the response, which is the same however often
/// it is read.
#[verifier::external_body]
pub(crate) fn status_code(response: &Response) -> (code: u16)
    ensures
        code == status_of(*response),
{
    response.status().as_u16()
}

/// `HeaderMap::get` on `reqwest::Response::headers`: the first value that the
/// response holds under the header `name`, if it holds one; the same however
/// often it is looked up.
#[verifier::external_body]
fn header_value<'a>(response: &'a Response, name: &str) -> (found: Option<&'a HeaderValue>)
    ensures
        match found {
            Some(value) => header_of(*response, name@) == Some(*value),
            None => header_of(*response, name@) is None,
        },
{
    response.headers().get(name)
}

/// `HeaderValue::to_str`: the value as text, or `None` where it holds a byte
/// that is no visible ASCII character; the same however often it is read.
#[verifier::external_body]
fn header_text(value: &HeaderValue) -> (text: Option<String>)
    ensures
        match text {
            Some(read) => text_of(*value) == Some(read@),
            None => text_of(*value) is None,
        },
{
    value.to_str().ok().map(String::from)
}

} // verus!
