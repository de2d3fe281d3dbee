//! A client-side request governor for MC-Market's HTTP API.
//!
//! The crate tracks, per request class, how many requests went out in each
//! rolling window and which cool-down the server imposed last, computes how
//! long the next request has to wait, and decides each step of a request that
//! is repeated until the server stops rejecting it.

pub mod data;
pub mod endpoints;
pub mod error;
pub mod executor;
pub mod http;
pub mod sort;
pub mod structs;
pub mod text;
pub mod throttler;
pub mod throttler_laws;

use crate::error::APIError;
use crate::error::LocalError;
use crate::sort::SortOptions;
use crate::text::str_eq;
use vstd::prelude::*;
use vstd::string::StringExecFns;

verus! {

/// The base API URL and version which is prepended to all endpoints.
pub const BASE_URL: &'static str = "https://api.mc-market.org/v1";

/// The two kinds of API token.
#[derive(Debug, Clone, PartialEq, Eq)]
pub enum APIToken {
    Private(String),
    Shared(String),
}

impl APIToken {
    /// Returns the token as the value of the `Authorization` header: the
    /// token's kind, a space, and the token.
    pub fn as_header(&self) -> (header: String)
        ensures
            header@ == match *self {
                APIToken::Private(value) => "Private "@ + value@,
                APIToken::Shared(value) => "Shared "@ + value@,
            },
    {
        match self {
            APIToken::Private(value) => String::from_str("Private ").concat(value.as_str()),
            APIToken::Shared(value) => String::from_str("Shared ").concat(value.as_str()),
        }
    }
}

/// `endpoint` with the query string `query` behind a `?`.
pub fn with_query(endpoint: &str, query: &str) -> (url: String)
    ensures
        url@ == endpoint@ + "?"@ + query@,
{
    String::from_str(endpoint).concat("?").concat(query)
}

/// The URL that `endpoint` has with `sort`.
pub open spec fn sorted_url(endpoint: Seq<char>, sort: Option<&SortOptions<'_>>) -> Seq<char> {
    match sort {
        None => endpoint,
        Some(options) => endpoint + "?"@ + options.query(),
    }
}

/// Returns the URL to ask for `endpoint` sorted by `sort`: the endpoint itself
/// where there are no options, else the endpoint, a `?` and the options'
/// query string.
pub fn sorted_endpoint(endpoint: &str, sort: Option<&SortOptions<'_>>) -> (url: Result<String, LocalError>)
    ensures
        url matches Ok(text) && text@ == sorted_url(endpoint@, sort),
{
    match sort {
        None => Ok(String::from_str(endpoint)),
        Some(options) => match options.to_query_string() {
            Ok(query) => Ok(with_query(endpoint, query.as_str())),
            Err(error) => Err(error),
        },
    }
}

/// The code of the error that `check_health` reports.
pub const HEALTH_ERROR_CODE: &'static str = "HealthEndpointError";

/// Judges what the `health` endpoint answered: `ok` is health, anything else
/// an error that quotes the answer.
pub fn check_health(data: &str) -> (health: Result<(), APIError>)
    ensures
        data@ == "ok"@ ==> health is Ok,
        data@ != "ok"@ ==> (health matches Err(error) && error.code@ == HEALTH_ERROR_CODE@
            && error.message@ == data@ + " != \"ok\""@),
{
    if str_eq(data, "ok") {
        Ok(())
    } else {
        Err(
            APIError::from_raw(
                String::from_str(HEALTH_ERROR_CODE),
                String::from_str(data).concat(" != \"ok\""),
            ),
        )
    }
}

} // verus!
