//! Rate-limit bookkeeping: rolling windows, the server's cool-down, and the
//! store that holds one tracker per request class.

use std::time::Duration;
use std::time::SystemTime;
use vstd::prelude::*;

verus! {

/// The two classes of request; each has a budget of its own.
#[derive(Clone, Copy, Debug, PartialEq, Eq, Structural)]
pub enum RequestType {
    READ,
    WRITE,
}

/// Time that has passed between `since` and `now`. A clock that stepped back
/// behind `since` counts as no time passed.
pub open spec fn elapsed(since: u64, now: u64) -> int {
    if now >= since {
        now - since
    } else {
        0
    }
}

/// A cap on the number of requests inside one rolling window.
///
/// `count` is meaningful for the interval `[window_start, window_start + duration)`
/// only; a counter read after that interval is rolled over first.
#[derive(Clone, Copy, Debug, PartialEq, Eq, Structural)]
pub struct WindowCounter {
    pub count: u64,
    pub window_start: u64,
    pub limit: u64,
    pub duration: u64,
}

impl WindowCounter {
    /// The window's interval is over at `now`.
    pub open spec fn expired(self, now: u64) -> bool {
        elapsed(self.window_start, now) >= self.duration
    }

    /// The counter as it is consulted at `now`: unchanged inside its window,
    /// empty and started at `now` once the window is over.
    pub open spec fn rolled(self, now: u64) -> WindowCounter {
        if self.expired(now) {
            WindowCounter { count: 0, window_start: now, limit: self.limit, duration: self.duration }
        } else {
            self
        }
    }

    /// Time left at `now` until the window is over.
    pub open spec fn remaining(self, now: u64) -> int {
        self.duration - elapsed(self.window_start, now)
    }

    /// The wait that this window asks for at `now`: none while there is budget
    /// left, else the rest of the window.
    pub open spec fn stall(self, now: u64) -> int {
        let w = self.rolled(now);
        if w.count < w.limit {
            0
        } else {
            w.remaining(now)
        }
    }

    /// The counter after one more request was counted at `now`.
    pub open spec fn counted(self, now: u64) -> WindowCounter {
        let w = self.rolled(now);
        WindowCounter {
            count: if w.count < u64::MAX { (w.count + 1) as u64 } else { w.count },
            window_start: w.window_start,
            limit: w.limit,
            duration: w.duration,
        }
    }

    /// An empty window of `duration` that starts at `now` and admits `limit` requests.
    pub fn new(limit: u64, duration: u64, now: u64) -> (w: WindowCounter)
        ensures
            w == (WindowCounter { count: 0, window_start: now, limit, duration }),
    {
        WindowCounter { count: 0, window_start: now, limit, duration }
    }

    /// Rolls the window over if its interval has passed at `now`.
    pub fn roll(&mut self, now: u64)
        ensures
            *final(self) == old(self).rolled(now),
    {
        let passed: u64 = if now >= self.window_start { now - self.window_start } else { 0 };
        if passed >= self.duration {
            self.count = 0;
            self.window_start = now;
        }
    }

    /// Rolls the window over if need be and returns the wait it asks for.
    pub fn compute_stall(&mut self, now: u64) -> (wait: u64)
        ensures
            *final(self) == old(self).rolled(now),
            wait == old(self).stall(now),
    {
        self.roll(now);
        if self.count < self.limit {
            0
        } else {
            let passed: u64 = if now >= self.window_start { now - self.window_start } else { 0 };
            self.duration - passed
        }
    }

    /// Rolls the window over if need be and counts one request.
    pub fn record(&mut self, now: u64)
        ensures
            *final(self) == old(self).counted(now),
    {
        self.roll(now);
        if self.count < u64::MAX {
            self.count = self.count + 1;
        }
    }
}

/// A minimum wait that the server imposed with a rejection.
///
/// `retry_after == 0` means that no cool-down is in force.
#[derive(Clone, Copy, Debug, PartialEq, Eq, Structural)]
pub struct Cooldown {
    pub retry_after: u64,
    pub recorded_at: u64,
}

impl Cooldown {
    /// The cool-down is still in force at `now`.
    pub open spec fn active(self, now: u64) -> bool {
        self.retry_after > 0 && elapsed(self.recorded_at, now) < self.retry_after
    }

    /// The wait that the cool-down asks for at `now`.
    pub open spec fn remaining(self, now: u64) -> int {
        if self.active(now) {
            self.retry_after - elapsed(self.recorded_at, now)
        } else {
            0
        }
    }

    /// The cool-down as it is consulted at `now`: unchanged while in force,
    /// cleared once it is spent.
    pub open spec fn settled(self, now: u64) -> Cooldown {
        if self.active(now) {
            self
        } else {
            Cooldown { retry_after: 0, recorded_at: self.recorded_at }
        }
    }

    /// No cool-down, noted at `now`.
    pub fn cleared(now: u64) -> (c: Cooldown)
        ensures
            c == (Cooldown { retry_after: 0, recorded_at: now }),
    {
        Cooldown { retry_after: 0, recorded_at: now }
    }

    /// Clears the cool-down if it is spent at `now` and returns the wait it asks for.
    pub fn compute_stall(&mut self, now: u64) -> (wait: u64)
        ensures
            *final(self) == old(self).settled(now),
            wait == old(self).remaining(now),
    {
        let wait = stall_for_helper(self.retry_after, self.recorded_at, now);
        if wait == 0 {
            self.retry_after = 0;
        }
        wait
    }
}

/// The wait that a cool-down of `last_retry`, imposed at `last_request`, still
/// asks for at `time`.
pub fn stall_for_helper(last_retry: u64, last_request: u64, time: u64) -> (stall_for: u64)
    ensures
        stall_for == (Cooldown { retry_after: last_retry, recorded_at: last_request }).remaining(time),
{
    let passed: u64 = if time >= last_request { time - last_request } else { 0 };
    if last_retry > 0 && passed < last_retry {
        last_retry - passed
    } else {
        0
    }
}

/// The longest wait that any window of `windows` asks for at `now`; none for
/// no window.
pub open spec fn windows_stall(windows: Seq<WindowCounter>, now: u64) -> int
    decreases windows.len(),
{
    if windows.len() == 0 {
        0
    } else {
        let rest = windows_stall(windows.drop_last(), now);
        let last = windows.last().stall(now);
        if last >= rest {
            last
        } else {
            rest
        }
    }
}

/// What a tracker holds: its windows in order, and the server's cool-down.
pub struct TrackerState {
    pub windows: Seq<WindowCounter>,
    pub cooldown: Cooldown,
}

impl TrackerState {
    /// The wait before the next request of this class may go out at `now`: the
    /// longest of what the windows and the cool-down ask for.
    pub open spec fn stall(self, now: u64) -> int {
        let by_windows = windows_stall(self.windows, now);
        let by_cooldown = self.cooldown.remaining(now);
        if by_windows >= by_cooldown {
            by_windows
        } else {
            by_cooldown
        }
    }

    /// The state as it is consulted at `now`: windows that are over rolled, a
    /// spent cool-down cleared.
    pub open spec fn rolled(self, now: u64) -> TrackerState {
        TrackerState {
            windows: Seq::new(self.windows.len(), |i: int| self.windows[i].rolled(now)),
            cooldown: self.cooldown.settled(now),
        }
    }

    /// The state after a request that was not rejected was recorded at `now`:
    /// one more request in every window, no cool-down.
    pub open spec fn succeeded(self, now: u64) -> TrackerState {
        TrackerState {
            windows: Seq::new(self.windows.len(), |i: int| self.windows[i].counted(now)),
            cooldown: Cooldown { retry_after: 0, recorded_at: now },
        }
    }

    /// The state after it was recorded at `now` that a request which had
    /// already been counted was answered without a rejection: the windows as
    /// they were, no cool-down.
    pub open spec fn answered(self, now: u64) -> TrackerState {
        TrackerState { windows: self.windows, cooldown: Cooldown { retry_after: 0, recorded_at: now } }
    }

    /// The state after a rejection with `retry_after` was recorded at `now`:
    /// the windows as they were, the cool-down set.
    pub open spec fn limited(self, now: u64, retry_after: u64) -> TrackerState {
        TrackerState {
            windows: self.windows,
            cooldown: Cooldown { retry_after, recorded_at: now },
        }
    }

    /// The state after one caller asked at `now` and, where no wait was due,
    /// sent: the check and the count as one step.
    pub open spec fn acquired(self, now: u64) -> TrackerState {
        if self.stall(now) == 0 {
            self.rolled(now).succeeded(now)
        } else {
            self.rolled(now)
        }
    }
}

/// The rate-limit state of one request class.
pub struct RateWindowTracker {
    windows: Vec<WindowCounter>,
    cooldown: Cooldown,
}

impl View for RateWindowTracker {
    type V = TrackerState;

    closed spec fn view(&self) -> TrackerState {
        TrackerState { windows: self.windows@, cooldown: self.cooldown }
    }
}

/// The wait of `windows` is the wait of all but the last, or that of the last.
proof fn lemma_windows_stall_step(windows: Seq<WindowCounter>, now: u64, i: int)
    requires
        0 <= i < windows.len(),
    ensures
        windows_stall(windows.take(i + 1), now) == if windows[i].stall(now) >= windows_stall(
            windows.take(i),
            now,
        ) {
            windows[i].stall(now)
        } else {
            windows_stall(windows.take(i), now)
        },
{
    assert(windows.take(i + 1).drop_last() == windows.take(i));
    assert(windows.take(i + 1).last() == windows[i]);
}

impl RateWindowTracker {
    /// A tracker with the given windows and no cool-down, noted at `now`.
    pub fn new(windows: Vec<WindowCounter>, now: u64) -> (tracker: RateWindowTracker)
        ensures
            tracker@ == (TrackerState {
                windows: windows@,
                cooldown: Cooldown { retry_after: 0, recorded_at: now },
            }),
    {
        RateWindowTracker { windows, cooldown: Cooldown::cleared(now) }
    }

    /// Returns the windows, in order.
    pub fn windows(&self) -> (windows: &Vec<WindowCounter>)
        ensures
            windows@ == self@.windows,
    {
        &self.windows
    }

    /// Returns the cool-down.
    pub fn cooldown(&self) -> (cooldown: Cooldown)
        ensures
            cooldown == self@.cooldown,
    {
        self.cooldown
    }

    /// Returns how long the next request has to wait at `now`, rolling over
    /// the windows that are past and clearing a spent cool-down on the way.
    pub fn compute_stall(&mut self, now: u64) -> (wait: u64)
        ensures
            final(self)@ == old(self)@.rolled(now),
            wait == old(self)@.stall(now),
    {
        let ghost before = self@;
        let by_cooldown = self.cooldown.compute_stall(now);
        let mut wait: u64 = 0;
        let n = self.windows.len();
        let mut i: usize = 0;
        while i < n
            invariant
                i <= n,
                n == self.windows.len(),
                n == before.windows.len(),
                self.cooldown == before.cooldown.settled(now),
                forall|j: int| 0 <= j < i ==> self.windows@[j] == before.windows[j].rolled(now),
                forall|j: int| i <= j < n ==> self.windows@[j] == before.windows[j],
                wait == windows_stall(before.windows.take(i as int), now),
            decreases n - i,
        {
            let mut window = self.windows[i];
            let asked = window.compute_stall(now);
            self.windows.set(i, window);
            proof {
                lemma_windows_stall_step(before.windows, now, i as int);
            }
            if asked > wait {
                wait = asked;
            }
            i = i + 1;
        }
        assert(before.windows.take(n as int) == before.windows);
        assert(self@.windows == before.rolled(now).windows);
        if by_cooldown > wait {
            by_cooldown
        } else {
            wait
        }
    }

    /// Records at `now` that a request was answered without a rejection:
    /// counts it in every window and clears the cool-down.
    pub fn record_success(&mut self, now: u64)
        ensures
            final(self)@ == old(self)@.succeeded(now),
    {
        let ghost before = self@;
        let n = self.windows.len();
        let mut i: usize = 0;
        while i < n
            invariant
                i <= n,
                n == self.windows.len(),
                n == before.windows.len(),
                forall|j: int| 0 <= j < i ==> self.windows@[j] == before.windows[j].counted(now),
                forall|j: int| i <= j < n ==> self.windows@[j] == before.windows[j],
            decreases n - i,
        {
            let mut window = self.windows[i];
            window.record(now);
            self.windows.set(i, window);
            i = i + 1;
        }
        self.cooldown = Cooldown::cleared(now);
        assert(self@.windows == before.succeeded(now).windows);
    }

    /// Records at `now` that a request which `acquire` had counted was
    /// answered without a rejection: clears the cool-down and leaves the
    /// windows as they are, so that no request is counted twice.
    pub fn record_answer(&mut self, now: u64)
        ensures
            final(self)@ == old(self)@.answered(now),
    {
        self.cooldown = Cooldown::cleared(now);
    }

    /// Records at `now` that the server rejected a request and asked for a
    /// wait of `retry_after`. The windows are left as they are: this call
    /// counts nothing.
    pub fn record_limited(&mut self, now: u64, retry_after: u64)
        ensures
            final(self)@ == old(self)@.limited(now, retry_after),
    {
        self.cooldown = Cooldown { retry_after, recorded_at: now };
    }

    /// Asks at `now` and, where no wait is due, counts the request at once, so
    /// that no second caller can be told of the same free slot.
    pub fn acquire(&mut self, now: u64) -> (wait: u64)
        ensures
            final(self)@ == old(self)@.acquired(now),
            wait == old(self)@.stall(now),
    {
        let wait = self.compute_stall(now);
        if wait == 0 {
            self.record_success(now);
        }
        wait
    }
}

/// How the server answered a request, as far as rate limiting goes.
#[derive(Clone, Copy, Debug, PartialEq, Eq, Structural)]
pub enum Outcome {
    /// The request was not rejected for its rate.
    Accepted,
    /// The request was rejected, with the wait in milliseconds that the server asked for.
    Limited(u64),
}

/// What a store holds: the state of the read tracker and that of the write tracker.
pub struct StoreState {
    pub read: TrackerState,
    pub write: TrackerState,
}

impl StoreState {
    /// The state of the tracker of `request_type`.
    pub open spec fn tracker(self, request_type: RequestType) -> TrackerState {
        match request_type {
            RequestType::READ => self.read,
            RequestType::WRITE => self.write,
        }
    }

    /// The store with the tracker of `request_type` replaced and the other one kept.
    pub open spec fn with_tracker(self, request_type: RequestType, tracker: TrackerState) -> StoreState {
        match request_type {
            RequestType::READ => StoreState { read: tracker, write: self.write },
            RequestType::WRITE => StoreState { read: self.read, write: tracker },
        }
    }

    /// The wait in milliseconds before the next request of `request_type` may go out at `now`.
    pub open spec fn stall(self, request_type: RequestType, now: u64) -> int {
        self.tracker(request_type).stall(now)
    }

    /// The store after the wait of `request_type` was asked for at `now`:
    /// windows that are over are rolled, a spent cool-down is cleared, and
    /// nothing is counted.
    pub open spec fn consulted(self, request_type: RequestType, now: u64) -> StoreState {
        self.with_tracker(request_type, self.tracker(request_type).rolled(now))
    }

    /// The store after `outcome` was recorded for `request_type` at `now`: an
    /// accepted request is counted in every window and clears the cool-down, a
    /// rejected one sets the cool-down.
    pub open spec fn recorded(self, request_type: RequestType, outcome: Outcome, now: u64) -> StoreState {
        match outcome {
            Outcome::Accepted => self.with_tracker(
                request_type,
                self.tracker(request_type).succeeded(now),
            ),
            Outcome::Limited(retry_after) => self.with_tracker(
                request_type,
                self.tracker(request_type).limited(now, retry_after),
            ),
        }
    }

    /// The store after one caller of `request_type` asked for its wait at
    /// `now` and, where none was due, had its request counted in the same
    /// step.
    pub open spec fn acquired(self, request_type: RequestType, now: u64) -> StoreState {
        self.with_tracker(request_type, self.tracker(request_type).acquired(now))
    }

    /// The store after it was recorded at `now` that a request of
    /// `request_type` which `acquired` had counted was answered without a
    /// rejection: no cool-down, and the windows as they were.
    pub open spec fn answered(self, request_type: RequestType, now: u64) -> StoreState {
        self.with_tracker(request_type, self.tracker(request_type).answered(now))
    }
}

/// The rate-limit state of a client: one tracker for reads, one for writes.
/// All times are UNIX timestamps in milliseconds, all waits milliseconds.
///
/// Every operation takes the store by `&mut`, so each is one indivisible step
/// for whoever shares the store behind a lock. `stall_at` and `on_response`
/// are two steps: between a caller's check and its record another caller may
/// be told of the same free slot. `acquire` is the check and the record in
/// one step, for callers that share a budget; such a caller notes the answer
/// to its request with `record_answer`, which does not count it again.
pub struct RateLimitStore {
    read: RateWindowTracker,
    write: RateWindowTracker,
}

impl View for RateLimitStore {
    type V = StoreState;

    closed spec fn view(&self) -> StoreState {
        StoreState { read: self.read@, write: self.write@ }
    }
}

impl RateLimitStore {
    /// A store without windows and without a cool-down: until the server
    /// rejects a request, nothing has to wait.
    ///
    /// The store notes the time at which it was made, which is the clock's:
    /// nothing is claimed of it, and with no cool-down no wait depends on it.
    /// `with_windows` makes the same store for a time that is given.
    pub fn new() -> (store: RateLimitStore)
        ensures
            store@.read.windows.len() == 0,
            store@.read.cooldown.retry_after == 0,
            store@.write.windows.len() == 0,
            store@.write.cooldown.retry_after == 0,
    {
        let now = unix_timestamp();
        RateLimitStore::with_windows(Vec::new(), Vec::new(), now)
    }

    /// A store whose trackers hold the given windows and no cool-down, noted at `now`.
    pub fn with_windows(read: Vec<WindowCounter>, write: Vec<WindowCounter>, now: u64) -> (store:
        RateLimitStore)
        ensures
            store@ == (StoreState {
                read: TrackerState {
                    windows: read@,
                    cooldown: Cooldown { retry_after: 0, recorded_at: now },
                },
                write: TrackerState {
                    windows: write@,
                    cooldown: Cooldown { retry_after: 0, recorded_at: now },
                },
            }),
    {
        RateLimitStore {
            read: RateWindowTracker::new(read, now),
            write: RateWindowTracker::new(write, now),
        }
    }

    /// Returns the tracker of `request_type`.
    pub fn tracker(&self, request_type: RequestType) -> (tracker: &RateWindowTracker)
        ensures
            tracker@ == self@.tracker(request_type),
    {
        match request_type {
            RequestType::READ => &self.read,
            RequestType::WRITE => &self.write,
        }
    }

    /// Returns the wait in milliseconds before the next request of
    /// `request_type` may go out at `now`; 0 means that it may go out at once.
    /// Windows that are over are rolled and a spent cool-down is cleared on
    /// the way; nothing is counted.
    pub fn stall_at(&mut self, request_type: RequestType, now: u64) -> (wait: u64)
        ensures
            wait == old(self)@.stall(request_type, now),
            final(self)@ == old(self)@.consulted(request_type, now),
    {
        match request_type {
            RequestType::READ => self.read.compute_stall(now),
            RequestType::WRITE => self.write.compute_stall(now),
        }
    }

    /// Records at `now` how the server answered a request of `request_type`:
    /// counts an accepted one in every window and clears the cool-down, or
    /// sets the cool-down that a rejection asks for.
    pub fn on_response(&mut self, request_type: RequestType, outcome: Outcome, now: u64)
        ensures
            final(self)@ == old(self)@.recorded(request_type, outcome, now),
    {
        match request_type {
            RequestType::READ => match outcome {
                Outcome::Accepted => self.read.record_success(now),
                Outcome::Limited(retry_after) => self.read.record_limited(now, retry_after),
            },
            RequestType::WRITE => match outcome {
                Outcome::Accepted => self.write.record_success(now),
                Outcome::Limited(retry_after) => self.write.record_limited(now, retry_after),
            },
        }
    }

    /// Asks for the wait of `request_type` at `now` and, where none is due,
    /// counts the request in the same step, so that no second caller can be
    /// told of the same free slot.
    pub fn acquire(&mut self, request_type: RequestType, now: u64) -> (wait: u64)
        ensures
            wait == old(self)@.stall(request_type, now),
            final(self)@ == old(self)@.acquired(request_type, now),
    {
        match request_type {
            RequestType::READ => self.read.acquire(now),
            RequestType::WRITE => self.write.acquire(now),
        }
    }

    /// Records at `now` that a request of `request_type` which `acquire` had
    /// counted was answered without a rejection: clears the cool-down and
    /// leaves the windows as they are, so that the request is not counted
    /// twice.
    pub fn record_answer(&mut self, request_type: RequestType, now: u64)
        ensures
            final(self)@ == old(self)@.answered(request_type, now),
    {
        match request_type {
            RequestType::READ => self.read.record_answer(now),
            RequestType::WRITE => self.write.record_answer(now),
        }
    }

    /// Records, at the clock's time, that a read was rejected with a wait of `retry` milliseconds.
    pub fn store_read(&mut self, retry: u64)
        ensures
            exists|now: u64|
                final(self)@ == #[trigger] old(self)@.recorded(
                    RequestType::READ,
                    Outcome::Limited(retry),
                    now,
                ),
    {
        let now = unix_timestamp();
        self.on_response(RequestType::READ, Outcome::Limited(retry), now);
    }

    /// Records, at the clock's time, that a write was rejected with a wait of `retry` milliseconds.
    pub fn store_write(&mut self, retry: u64)
        ensures
            exists|now: u64|
                final(self)@ == #[trigger] old(self)@.recorded(
                    RequestType::WRITE,
                    Outcome::Limited(retry),
                    now,
                ),
    {
        let now = unix_timestamp();
        self.on_response(RequestType::WRITE, Outcome::Limited(retry), now);
    }

    /// Records, at the clock's time, that a read was answered without a
    /// rejection: counts it and clears the cool-down.
    pub fn reset_read(&mut self)
        ensures
            exists|now: u64|
                final(self)@ == #[trigger] old(self)@.recorded(
                    RequestType::READ,
                    Outcome::Accepted,
                    now,
                ),
    {
        let now = unix_timestamp();
        self.on_response(RequestType::READ, Outcome::Accepted, now);
    }

    /// Records, at the clock's time, that a write was answered without a
    /// rejection: counts it and clears the cool-down.
    pub fn reset_write(&mut self)
        ensures
            exists|now: u64|
                final(self)@ == #[trigger] old(self)@.recorded(
                    RequestType::WRITE,
                    Outcome::Accepted,
                    now,
                ),
    {
        let now = unix_timestamp();
        self.on_response(RequestType::WRITE, Outcome::Accepted, now);
    }
}

/// Computes how long, if at all, the next request of `request_type` has to be
/// stalled at the clock's time to comply with the rate limits.
///
/// The result is in milliseconds; 0 means that the request need not wait.
/// Nothing is counted.
pub fn stall_for(store: &mut RateLimitStore, request_type: RequestType) -> (wait: u64)
    ensures
        exists|now: u64|
            wait == #[trigger] old(store)@.stall(request_type, now) && final(store)@ == old(
                store,
            )@.consulted(request_type, now),
{
    let now = unix_timestamp();
    store.stall_at(request_type, now)
}

/// The timestamp for a clock that stands `millis` milliseconds after the UNIX
/// epoch, or before the epoch where `millis` is `None`: the count itself, the
/// largest timestamp where it does not fit, 0 before the epoch.
pub fn timestamp_from_millis(millis: Option<u128>) -> (stamp: u64)
    ensures
        stamp == match millis {
            None => 0,
            Some(m) => if m > u64::MAX {
                u64::MAX as int
            } else {
                m as int
            },
        },
{
    match millis {
        None => 0,
        Some(m) => if m > u64::MAX as u128 {
            u64::MAX
        } else {
            m as u64
        },
    }
}

/// Returns the current time as a UNIX timestamp in milliseconds.
///
/// The clock decides, and two readings may differ in either direction:
/// nothing is claimed of the result. `timestamp_from_millis` says which
/// timestamp each reading of the clock becomes.
pub fn unix_timestamp() -> u64 {
    let at = wall_clock();
    match since_epoch(&at) {
        Some(span) => timestamp_from_millis(Some(whole_millis(&span))),
        None => timestamp_from_millis(None),
    }
}

/// `std::time::SystemTime`: a reading of the wall clock, carried from
/// `wall_clock` to `since_epoch`.
#[verifier::external_type_specification]
#[verifier::external_body]
pub struct ExSystemTime(SystemTime);

/// `SystemTime::now`: the reading of the system's wall clock. It differs from
/// call to call, so nothing is claimed of it.
#[verifier::external_body]
fn wall_clock() -> SystemTime {
    SystemTime::now()
}

/// `SystemTime::duration_since`, with the UNIX epoch as the earlier time: the
/// span from the epoch to `at`, or `None` where `at` lies before the epoch.
/// Nothing is claimed of the span.
#[verifier::external_body]
fn since_epoch(at: &SystemTime) -> Option<Duration> {
    at.duration_since(std::time::UNIX_EPOCH).ok()
}

/// `Duration::as_millis`: the whole milliseconds in `span`. Nothing is claimed
/// of the number.
#[verifier::external_body]
fn whole_millis(span: &Duration) -> u128 {
    span.as_millis()
}

} // verus!
