//! The steps of one request: wait until the rate limits allow it, send it,
//! and send it again for as long as the server rejects it for its rate.
//!
//! The executor decides; whoever drives it sleeps, sends and decodes, and
//! reports back what happened.

use crate::error::LocalError;
use crate::http::RetryAfter;
use crate::http::Verdict;
use crate::http::classify;
use crate::http::reads_as;
use crate::http::retry_after_of;
use crate::http::status_code;
use crate::http::status_of;
use crate::http::verdict_of;
use crate::throttler::Outcome;
use crate::throttler::RateLimitStore;
use crate::throttler::RequestType;
use crate::throttler::StoreState;
use reqwest::Response;
use vstd::prelude::*;

verus! {

/// The HTTP methods that the API takes.
#[derive(Clone, Copy, Debug, PartialEq, Eq, Structural)]
pub enum Method {
    GET,
    POST,
    PATCH,
    DELETE,
}

impl Method {
    /// The class whose budget a request with this method draws on: reads for
    /// `GET`, writes for all others.
    pub open spec fn class(self) -> RequestType {
        match self {
            Method::GET => RequestType::READ,
            _ => RequestType::WRITE,
        }
    }

    /// Returns the class whose budget a request with this method draws on.
    pub fn request_type(self) -> (request_type: RequestType)
        ensures
            request_type == self.class(),
    {
        match self {
            Method::GET => RequestType::READ,
            Method::POST => RequestType::WRITE,
            Method::PATCH => RequestType::WRITE,
            Method::DELETE => RequestType::WRITE,
        }
    }
}

/// Where a request stands.
#[derive(Clone, Copy, Debug, PartialEq, Eq, Structural)]
pub enum Phase {
    /// Waiting for the rate limits to allow the request.
    Stalling,
    /// Sent, waiting for the response.
    Sending,
    /// Answered; what is left is to decode the body.
    Done,
    /// Ended with a failure.
    Failed,
}

/// What the driver reports to the executor.
#[derive(Debug, Clone, PartialEq, Eq)]
pub enum Event {
    /// The request was started, or the wait that the executor asked for is over.
    Woke,
    /// The transport failed to deliver the request or the response.
    TransportFailed,
    /// The server answered with this status and this `Retry-After` header.
    Responded { status: u16, retry_after: RetryAfter },
}

/// What the executor asks the driver to do next.
#[derive(Clone, Copy, Debug, PartialEq, Eq, Structural)]
pub enum Action {
    /// Sleep for so many milliseconds, then report `Woke`.
    Sleep(u64),
    /// Send the request, then report `Responded` or `TransportFailed`.
    Send,
    /// Decode the body of the response, which came with this status, and
    /// return what it holds.
    Decode(u16),
    /// Return this failure.
    Fail(LocalError),
}

/// Where the request stands once the driver was asked for `action`.
pub open spec fn phase_of(action: Action) -> Phase {
    match action {
        Action::Sleep(_) => Phase::Stalling,
        Action::Send => Phase::Sending,
        Action::Decode(_) => Phase::Done,
        Action::Fail(_) => Phase::Failed,
    }
}

/// The check of the rate limits at `now`: a sleep for as long as the store
/// asks, or the go-ahead where it asks for none. With the go-ahead the
/// request is counted, in the same step.
pub open spec fn checked(store: StoreState, request_type: RequestType, now: u64) -> (StoreState, Action) {
    let wait = store.stall(request_type, now);
    (
        store.acquired(request_type, now),
        if wait > 0 {
            Action::Sleep(wait as u64)
        } else {
            Action::Send
        },
    )
}

/// The store after the response with `verdict` to a request of
/// `request_type`, which was counted when it was sent, was noted at `now`: an
/// accepted response clears the cool-down, a rejection sets it, and a
/// rejection without a usable wait leaves the store as it was. The windows
/// stay as they are.
pub open spec fn settled(store: StoreState, request_type: RequestType, verdict: Verdict, now: u64) -> StoreState {
    match verdict {
        Verdict::Accepted => store.answered(request_type, now),
        Verdict::Limited(millis) => store.recorded(request_type, Outcome::Limited(millis), now),
        Verdict::Violation(_) => store,
    }
}

/// The classification of a response with `status` and `retry_after` at
/// `now`. A rejection for the rate is noted and leads back to the check of
/// the rate limits; one without a usable wait ends the request; every other
/// response is noted as accepted and goes to decoding. The request was
/// counted when it was sent, and no response counts it again.
pub open spec fn answered(
    store: StoreState,
    request_type: RequestType,
    status: u16,
    retry_after: RetryAfter,
    now: u64,
) -> (StoreState, Action) {
    let verdict = verdict_of(status, retry_after);
    let noted = settled(store, request_type, verdict, now);
    match verdict {
        Verdict::Accepted => (noted, Action::Decode(status)),
        Verdict::Limited(_) => checked(noted, request_type, now),
        Verdict::Violation(violation) => (noted, Action::Fail(LocalError::Protocol(violation))),
    }
}

/// What the executor makes of `event` in `phase` at `now`: the store
/// afterwards and the next action. A request that waits takes `Woke`; one
/// that was sent takes the transport's failure or the server's response. Any
/// other event ends the request and leaves the store as it is.
pub open spec fn stepped(
    store: StoreState,
    request_type: RequestType,
    phase: Phase,
    event: Event,
    now: u64,
) -> (StoreState, Action) {
    match (phase, event) {
        (Phase::Stalling, Event::Woke) => checked(store, request_type, now),
        (Phase::Sending, Event::TransportFailed) => (store, Action::Fail(LocalError::Transport)),
        (Phase::Sending, Event::Responded { status, retry_after }) => answered(
            store,
            request_type,
            status,
            retry_after,
            now,
        ),
        _ => (store, Action::Fail(LocalError::OutOfTurn)),
    }
}

/// Returns where the request stands once the driver was asked for `action`.
pub fn phase_after(action: Action) -> (phase: Phase)
    ensures
        phase == phase_of(action),
{
    match action {
        Action::Sleep(_) => Phase::Stalling,
        Action::Send => Phase::Sending,
        Action::Decode(_) => Phase::Done,
        Action::Fail(_) => Phase::Failed,
    }
}

/// Checks the rate limits for a request of `request_type` at `now`, and
/// counts the request where it may go out.
pub fn check(store: &mut RateLimitStore, request_type: RequestType, now: u64) -> (action: Action)
    ensures
        (final(store)@, action) == checked(old(store)@, request_type, now),
{
    let wait = store.acquire(request_type, now);
    if wait > 0 {
        Action::Sleep(wait)
    } else {
        Action::Send
    }
}

/// Notes in `store`, at `now`, the response with `verdict` to a request of
/// `request_type` that was counted when it was sent.
pub fn settle(store: &mut RateLimitStore, request_type: RequestType, verdict: Verdict, now: u64)
    ensures
        final(store)@ == settled(old(store)@, request_type, verdict, now),
{
    match verdict {
        Verdict::Accepted => store.record_answer(request_type, now),
        Verdict::Limited(millis) => store.on_response(request_type, Outcome::Limited(millis), now),
        Verdict::Violation(_) => {},
    }
}

/// Classifies, at `now`, the response to a request of `request_type`.
pub fn answer(
    store: &mut RateLimitStore,
    request_type: RequestType,
    status: u16,
    retry_after: &RetryAfter,
    now: u64,
) -> (action: Action)
    ensures
        (final(store)@, action) == answered(old(store)@, request_type, status, *retry_after, now),
{
    let verdict = classify(status, retry_after);
    settle(store, request_type, verdict, now);
    match verdict {
        Verdict::Accepted => Action::Decode(status),
        Verdict::Limited(_) => check(store, request_type, now),
        Verdict::Violation(violation) => Action::Fail(LocalError::Protocol(violation)),
    }
}

/// Takes the request of `request_type` one step further: makes of `event`,
/// reported in `phase` at `now`, the next phase and the next action.
pub fn step(
    store: &mut RateLimitStore,
    request_type: RequestType,
    phase: Phase,
    event: &Event,
    now: u64,
) -> (next: (Phase, Action))
    ensures
        (final(store)@, next.1) == stepped(old(store)@, request_type, phase, *event, now),
        next.0 == phase_of(next.1),
{
    let action = match phase {
        Phase::Stalling => match event {
            Event::Woke => check(store, request_type, now),
            _ => Action::Fail(LocalError::OutOfTurn),
        },
        Phase::Sending => match event {
            Event::TransportFailed => Action::Fail(LocalError::Transport),
            Event::Responded { status, retry_after } => answer(
                store,
                request_type,
                *status,
                retry_after,
                now,
            ),
            Event::Woke => Action::Fail(LocalError::OutOfTurn),
        },
        _ => Action::Fail(LocalError::OutOfTurn),
    };
    (phase_after(action), action)
}

/// One request on its way: its class, where it stands, how often the server
/// has rejected it for its rate, and how many such rejections the caller
/// allows before the request is given up.
#[derive(Clone, Copy, Debug, PartialEq, Eq, Structural)]
pub struct Executor {
    pub request_type: RequestType,
    pub phase: Phase,
    pub rejections: u64,
    pub ceiling: Option<u64>,
}

impl Executor {
    /// `event` is the response to this request, and a rejection for its rate
    /// with a usable wait.
    pub open spec fn rejected_by(self, event: Event) -> bool {
        self.phase == Phase::Sending && match event {
            Event::Responded { status, retry_after } => verdict_of(status, retry_after) is Limited,
            _ => false,
        }
    }

    /// `event` is a rejection that the caller no longer allows.
    pub open spec fn gives_up_on(self, event: Event) -> bool {
        self.rejected_by(event) && match self.ceiling {
            Some(ceiling) => self.rejections >= ceiling,
            None => false,
        }
    }

    /// What `advance` makes of `event` at `now`: the request, the store and
    /// the action afterwards. They are those of the step, but for a rejection
    /// that the caller no longer allows: it is noted like any other, the
    /// request fails, and the rate limits are not checked for a request that
    /// will not go out.
    pub open spec fn advanced(self, store: StoreState, event: Event, now: u64) -> (Executor, StoreState, Action) {
        let (after, action) = if self.gives_up_on(event) {
            match event {
                Event::Responded { status, retry_after } => (
                    settled(store, self.request_type, verdict_of(status, retry_after), now),
                    Action::Fail(LocalError::RejectedTooOften),
                ),
                _ => stepped(store, self.request_type, self.phase, event, now),
            }
        } else {
            stepped(store, self.request_type, self.phase, event, now)
        };
        let rejections = if self.rejected_by(event) && self.rejections < u64::MAX {
            (self.rejections + 1) as u64
        } else {
            self.rejections
        };
        (
            Executor {
                request_type: self.request_type,
                phase: phase_of(action),
                rejections,
                ceiling: self.ceiling,
            },
            after,
            action,
        )
    }

    /// A request with `method` that has not yet checked the rate limits. With
    /// a `ceiling` the request fails once the server has rejected it more
    /// often than that; without one it is sent again for as long as the server
    /// rejects it.
    pub fn new(method: Method, ceiling: Option<u64>) -> (executor: Executor)
        ensures
            executor == (Executor {
                request_type: method.class(),
                phase: Phase::Stalling,
                rejections: 0,
                ceiling,
            }),
    {
        Executor { request_type: method.request_type(), phase: Phase::Stalling, rejections: 0, ceiling }
    }

    /// Takes the request one step further: makes of `event`, reported at
    /// `now`, the next action, and notes where the request then stands.
    pub fn advance(&mut self, store: &mut RateLimitStore, event: &Event, now: u64) -> (action: Action)
        ensures
            (*final(self), final(store)@, action) == old(self).advanced(old(store)@, *event, now),
    {
        let rejection: Option<Verdict> = match self.phase {
            Phase::Sending => match event {
                Event::Responded { status, retry_after } => match classify(*status, retry_after) {
                    Verdict::Limited(millis) => Some(Verdict::Limited(millis)),
                    _ => None,
                },
                _ => None,
            },
            _ => None,
        };
        let action = match rejection {
            Some(verdict) => {
                let gives_up = match self.ceiling {
                    Some(ceiling) => self.rejections >= ceiling,
                    None => false,
                };
                if self.rejections < u64::MAX {
                    self.rejections = self.rejections + 1;
                }
                if gives_up {
                    settle(store, self.request_type, verdict, now);
                    Action::Fail(LocalError::RejectedTooOften)
                } else {
                    step(store, self.request_type, self.phase, event, now).1
                }
            },
            None => step(store, self.request_type, self.phase, event, now).1,
        };
        self.phase = phase_after(action);
        action
    }
}

/// Reads from `response` the event to report: that the server answered, with
/// the status and the `Retry-After` header of the response.
pub fn responded(response: &Response) -> (event: Event)
    ensures
        event matches Event::Responded { status, retry_after } && status == status_of(*response)
            && reads_as(*response, retry_after),
{
    Event::Responded { status: status_code(response), retry_after: retry_after_of(response) }
}

/// The failure for a body that could not be decoded, by the status that it
/// came with: the statuses 200 to 299 report success.
pub fn decode_failure(status: u16) -> (failure: LocalError)
    ensures
        failure == if 200 <= status < 300 {
            LocalError::DecodeOnSuccess
        } else {
            LocalError::DecodeOnError
        },
{
    if status >= 200 && status < 300 {
        LocalError::DecodeOnSuccess
    } else {
        LocalError::DecodeOnError
    }
}

/// A request that waits does not end: woken, it is told to sleep for the
/// positive wait that the store asks for, or to send where the store asks for
/// none. The check and the count are one step of the store: a request that is
/// told to send is counted before any other request is answered.
pub proof fn law_waiting_leads_to_sending(store: StoreState, request_type: RequestType, now: u64)
    ensures
        ({
            let next = stepped(store, request_type, Phase::Stalling, Event::Woke, now);
            &&& next.0 == store.acquired(request_type, now)
            &&& if store.stall(request_type, now) > 0 {
                next.1 == Action::Sleep(store.stall(request_type, now) as u64)
            } else {
                next.1 == Action::Send
            }
        }),
{
}

/// Only a rejection for the rate leads back to waiting: the response to a
/// request that was sent is followed by a sleep or another send exactly if it
/// has the status 429 and a `Retry-After` header that holds a count of
/// seconds. Every response with another status goes to decoding, and clears
/// the cool-down.
pub proof fn law_only_a_rejection_repeats(
    store: StoreState,
    request_type: RequestType,
    status: u16,
    retry_after: RetryAfter,
    now: u64,
)
    ensures
        ({
            let event = Event::Responded { status, retry_after };
            let next = stepped(store, request_type, Phase::Sending, event, now);
            &&& (phase_of(next.1) == Phase::Stalling || phase_of(next.1) == Phase::Sending)
                <==> verdict_of(status, retry_after) is Limited
            &&& status != 429 ==> next.1 == Action::Decode(status) && next.0 == store.answered(
                request_type,
                now,
            )
            &&& verdict_of(status, retry_after) is Violation ==> phase_of(next.1) == Phase::Failed
                && next.0 == store
        }),
{
}

/// Whatever a request of one class goes through, the tracker of the other
/// class stays as it was.
pub proof fn law_step_keeps_the_other_class(
    store: StoreState,
    request_type: RequestType,
    other: RequestType,
    phase: Phase,
    event: Event,
    now: u64,
)
    requires
        request_type != other,
    ensures
        stepped(store, request_type, phase, event, now).0.tracker(other) == store.tracker(other),
{
}

} // verus!
