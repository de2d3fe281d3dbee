use mcm_api_wrapper::error::APIError;
use mcm_api_wrapper::error::LocalError;
use mcm_api_wrapper::error::ProtocolViolation;
use mcm_api_wrapper::error::RequestError;
use mcm_api_wrapper::http::classify;
use mcm_api_wrapper::http::did_hit_limit;
use mcm_api_wrapper::http::note_response;
use mcm_api_wrapper::http::retry_after_millis;
use mcm_api_wrapper::http::APIResponse;
use mcm_api_wrapper::http::RetryAfter;
use mcm_api_wrapper::http::Verdict;
use mcm_api_wrapper::http::RETRY_AFTER;
use mcm_api_wrapper::http::TOO_MANY_REQUESTS;
use mcm_api_wrapper::throttler::stall_for;
use mcm_api_wrapper::throttler::Cooldown;
use mcm_api_wrapper::throttler::RateLimitStore;
use mcm_api_wrapper::throttler::RequestType;
use mcm_api_wrapper::throttler::WindowCounter;

fn text(value: &str) -> RetryAfter {
    RetryAfter::Text(value.to_string())
}

fn response(status: u16, retry_after: Option<&[u8]>) -> reqwest::Response {
    let mut builder = http::Response::builder().status(status);
    if let Some(value) = retry_after {
        builder = builder.header("retry-after", http::HeaderValue::from_bytes(value).unwrap());
    }
    reqwest::Response::from(builder.body("").unwrap())
}

#[test]
fn constants_are_those_of_http() {
    assert_eq!(TOO_MANY_REQUESTS, 429);
    assert_eq!(TOO_MANY_REQUESTS, reqwest::StatusCode::TOO_MANY_REQUESTS.as_u16());
    assert_eq!(RETRY_AFTER, "Retry-After");
    assert!(RETRY_AFTER.eq_ignore_ascii_case(reqwest::header::RETRY_AFTER.as_str()));
}

#[test]
fn seconds_become_milliseconds() {
    assert_eq!(retry_after_millis(0), 0);
    assert_eq!(retry_after_millis(2), 2000);
    assert_eq!(retry_after_millis(18_446_744_073_709_551), 18_446_744_073_709_551_000);
}

#[test]
fn seconds_that_do_not_fit_become_the_longest_wait() {
    assert_eq!(retry_after_millis(18_446_744_073_709_552), u64::MAX);
    assert_eq!(retry_after_millis(u64::MAX), u64::MAX);
}

#[test]
fn any_status_but_429_is_accepted() {
    assert_eq!(classify(200, &RetryAfter::Absent), Verdict::Accepted);
    assert_eq!(classify(404, &RetryAfter::Absent), Verdict::Accepted);
    assert_eq!(classify(500, &text("3")), Verdict::Accepted);
    assert_eq!(classify(428, &text("3")), Verdict::Accepted);
    assert_eq!(classify(430, &RetryAfter::Unreadable), Verdict::Accepted);
}

#[test]
fn rejection_with_seconds_is_limited() {
    assert_eq!(classify(429, &text("2")), Verdict::Limited(2000));
    assert_eq!(classify(429, &text("0")), Verdict::Limited(0));
    assert_eq!(classify(429, &text("+15")), Verdict::Limited(15_000));
    assert_eq!(classify(429, &text("18446744073709551615")), Verdict::Limited(u64::MAX));
}

#[test]
fn rejection_without_header_is_a_violation() {
    assert_eq!(classify(429, &RetryAfter::Absent), Verdict::Violation(ProtocolViolation::MissingRetryAfter));
}

#[test]
fn rejection_with_unusable_header_is_a_violation() {
    let malformed = Verdict::Violation(ProtocolViolation::MalformedRetryAfter);
    assert_eq!(classify(429, &RetryAfter::Unreadable), malformed);
    assert_eq!(classify(429, &text("")), malformed);
    assert_eq!(classify(429, &text("soon")), malformed);
    assert_eq!(classify(429, &text("-1")), malformed);
    assert_eq!(classify(429, &text("1.5")), malformed);
    assert_eq!(classify(429, &text("18446744073709551616")), malformed);
    assert_eq!(classify(429, &text("Wed, 21 Oct 2015 07:28:00 GMT")), malformed);
}

#[test]
fn note_response_records_an_accepted_response() {
    let mut store = RateLimitStore::with_windows(vec![WindowCounter::new(5, 1000, 0)], Vec::new(), 0);
    store.store_read(9999);
    assert_eq!(note_response(&mut store, RequestType::READ, 200, &RetryAfter::Absent, 10), Ok(false));
    assert_eq!(store.tracker(RequestType::READ).windows()[0].count, 1);
    assert_eq!(store.tracker(RequestType::READ).cooldown(), Cooldown { retry_after: 0, recorded_at: 10 });
}

#[test]
fn note_response_records_a_rejection() {
    let mut store = RateLimitStore::with_windows(vec![WindowCounter::new(5, 1000, 0)], Vec::new(), 0);
    assert_eq!(note_response(&mut store, RequestType::READ, 429, &text("2"), 10), Ok(true));
    assert_eq!(store.tracker(RequestType::READ).windows()[0].count, 0);
    assert_eq!(store.tracker(RequestType::READ).cooldown(), Cooldown { retry_after: 2000, recorded_at: 10 });
    assert_eq!(store.tracker(RequestType::WRITE).cooldown(), Cooldown { retry_after: 0, recorded_at: 0 });
}

#[test]
fn note_response_leaves_the_store_on_a_violation() {
    let mut store = RateLimitStore::with_windows(vec![WindowCounter::new(5, 1000, 0)], Vec::new(), 0);
    assert_eq!(
        note_response(&mut store, RequestType::READ, 429, &RetryAfter::Absent, 10),
        Err(ProtocolViolation::MissingRetryAfter)
    );
    assert_eq!(
        note_response(&mut store, RequestType::READ, 429, &text("x"), 10),
        Err(ProtocolViolation::MalformedRetryAfter)
    );
    assert_eq!(store.tracker(RequestType::READ).windows()[0].count, 0);
    assert_eq!(store.tracker(RequestType::READ).cooldown(), Cooldown { retry_after: 0, recorded_at: 0 });
}

#[test]
fn did_hit_limit_reads_an_accepted_response() {
    let mut store = RateLimitStore::new();
    store.store_write(3_600_000);
    assert_eq!(did_hit_limit(&mut store, &response(200, None), RequestType::WRITE), Ok(false));
    assert_eq!(stall_for(&mut store, RequestType::WRITE), 0);
}

#[test]
fn did_hit_limit_reads_status_and_header_of_a_rejection() {
    let mut store = RateLimitStore::new();
    assert_eq!(did_hit_limit(&mut store, &response(429, Some(b"3600")), RequestType::READ), Ok(true));
    assert_eq!(store.tracker(RequestType::READ).cooldown().retry_after, 3_600_000);
    let wait = stall_for(&mut store, RequestType::READ);
    assert!(wait > 3_000_000 && wait <= 3_600_000);
    assert_eq!(stall_for(&mut store, RequestType::WRITE), 0);
}

#[test]
fn did_hit_limit_ignores_the_header_of_an_accepted_response() {
    let mut store = RateLimitStore::new();
    assert_eq!(did_hit_limit(&mut store, &response(503, Some(b"120")), RequestType::READ), Ok(false));
    assert_eq!(stall_for(&mut store, RequestType::READ), 0);
}

#[test]
fn did_hit_limit_reports_a_missing_header() {
    let mut store = RateLimitStore::new();
    assert_eq!(
        did_hit_limit(&mut store, &response(429, None), RequestType::READ),
        Err(ProtocolViolation::MissingRetryAfter)
    );
    assert_eq!(stall_for(&mut store, RequestType::READ), 0);
}

#[test]
fn did_hit_limit_reports_a_header_that_is_no_text() {
    let mut store = RateLimitStore::new();
    assert_eq!(
        did_hit_limit(&mut store, &response(429, Some(&[0xff, 0xfe])), RequestType::READ),
        Err(ProtocolViolation::MalformedRetryAfter)
    );
}

#[test]
fn did_hit_limit_reports_a_header_that_is_no_number() {
    let mut store = RateLimitStore::new();
    assert_eq!(
        did_hit_limit(&mut store, &response(429, Some(b"later")), RequestType::WRITE),
        Err(ProtocolViolation::MalformedRetryAfter)
    );
}

fn envelope(result: &str, data: Option<u64>, error: Option<APIError>) -> APIResponse<u64> {
    APIResponse { result: result.to_string(), data, error }
}

fn not_found() -> APIError {
    APIError::from_raw("ContentNotFoundError".to_string(), "no such content".to_string())
}

#[test]
fn envelope_tells_success_from_error() {
    assert!(envelope("success", Some(1), None).is_success());
    assert!(!envelope("success", Some(1), None).is_error());
    assert!(envelope("error", None, Some(not_found())).is_error());
    assert!(!envelope("error", None, Some(not_found())).is_success());
    assert!(!envelope("Success", Some(1), None).is_success());
    assert!(!envelope("", None, None).is_success());
    assert!(!envelope("", None, None).is_error());
}

#[test]
fn envelope_hands_out_its_parts() {
    assert_eq!(envelope("success", Some(5), None).data(), 5);
    assert_eq!(*envelope("success", Some(5), None).data_ref(), 5);
    assert_eq!(envelope("error", None, Some(not_found())).error(), not_found());
    assert_eq!(*envelope("error", None, Some(not_found())).error_ref(), not_found());
}

#[test]
fn successful_envelope_gives_its_data() {
    assert_eq!(envelope("success", Some(16682), None).as_result(), Ok(16682));
    assert_eq!(envelope("success", Some(16682), Some(not_found())).as_result(), Ok(16682));
}

#[test]
fn api_error_is_returned_as_data() {
    let result = envelope("error", None, Some(not_found())).as_result();
    match result {
        Err(RequestError::Api(error)) => {
            assert_eq!(error.code(), "ContentNotFoundError");
            assert_eq!(error.message(), "no such content");
        },
        _ => panic!("expected the error that the API reported"),
    }
}

#[test]
fn inconsistent_envelopes_are_local_errors() {
    assert_eq!(envelope("success", None, None).as_result(), Err(RequestError::Local(LocalError::MissingData)));
    assert_eq!(
        envelope("success", None, Some(not_found())).as_result(),
        Err(RequestError::Local(LocalError::MissingData))
    );
    assert_eq!(envelope("error", None, None).as_result(), Err(RequestError::Local(LocalError::MissingError)));
    assert_eq!(envelope("error", Some(1), None).as_result(), Err(RequestError::Local(LocalError::MissingError)));
    assert_eq!(envelope("other", Some(1), None).as_result(), Err(RequestError::Local(LocalError::MissingError)));
}

#[test]
fn api_error_keeps_its_parts() {
    let error = APIError::from_raw("Code".to_string(), "Message".to_string());
    assert_eq!(error.code(), "Code");
    assert_eq!(error.message(), "Message");
}

#[test]
fn retry_after_of_takes_the_first_value() {
    let twice = http::Response::builder()
        .status(429)
        .header("Retry-After", "3")
        .header("Retry-After", "9")
        .body("")
        .unwrap();
    assert_eq!(mcm_api_wrapper::http::retry_after_of(&reqwest::Response::from(twice)), text("3"));
    assert_eq!(mcm_api_wrapper::http::retry_after_of(&response(200, None)), RetryAfter::Absent);
}
