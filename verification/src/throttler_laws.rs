//! What holds of the trackers and the store over any run of their operations.

use crate::throttler::Outcome;
use crate::throttler::RequestType;
use crate::throttler::StoreState;
use crate::throttler::TrackerState;
use crate::throttler::WindowCounter;
use crate::throttler::windows_stall;
use vstd::prelude::*;

verus! {

/// The state after requests that were not rejected were recorded at each of
/// `times`, in that order.
pub open spec fn after_successes(state: TrackerState, times: Seq<u64>) -> TrackerState
    decreases times.len(),
{
    if times.len() == 0 {
        state
    } else {
        after_successes(state, times.drop_last()).succeeded(times.last())
    }
}

/// The state after one caller asked, and sent where it could, at each of
/// `times`, in that order.
pub open spec fn after_acquires(state: TrackerState, times: Seq<u64>) -> TrackerState
    decreases times.len(),
{
    if times.len() == 0 {
        state
    } else {
        after_acquires(state, times.drop_last()).acquired(times.last())
    }
}

/// How many of the callers that asked at `times`, in that order, were told
/// that no wait was due.
pub open spec fn granted(state: TrackerState, times: Seq<u64>) -> nat
    decreases times.len(),
{
    if times.len() == 0 {
        0
    } else {
        let earlier = granted(state, times.drop_last());
        if after_acquires(state, times.drop_last()).stall(times.last()) == 0 {
            earlier + 1
        } else {
            earlier
        }
    }
}

/// No window asks for a negative wait, and none for more than its duration.
pub proof fn lemma_window_stall_bounds(window: WindowCounter, now: u64)
    ensures
        0 <= window.stall(now) <= window.duration,
{
}

/// The wait of the windows is no less than that of each, and is that of one
/// of them or 0.
pub proof fn lemma_windows_stall_is_max(windows: Seq<WindowCounter>, now: u64)
    ensures
        windows_stall(windows, now) >= 0,
        forall|i: int| 0 <= i < windows.len() ==> windows_stall(windows, now) >= (#[trigger] windows[i]).stall(now),
        windows_stall(windows, now) == 0 || exists|i: int|
            0 <= i < windows.len() && windows_stall(windows, now) == (#[trigger] windows[i]).stall(now),
    decreases windows.len(),
{
    if windows.len() > 0 {
        let front = windows.drop_last();
        lemma_windows_stall_is_max(front, now);
        lemma_window_stall_bounds(windows.last(), now);
        assert forall|i: int| 0 <= i < windows.len() implies windows_stall(windows, now) >= (#[trigger] windows[i]).stall(now) by {
            if i < front.len() {
                assert(front[i] == windows[i]);
            }
        }
        if windows_stall(windows, now) != 0 {
            if windows_stall(windows, now) == windows.last().stall(now) {
                assert(windows[windows.len() - 1] == windows.last());
            } else {
                let i = choose|i: int|
                    0 <= i < front.len() && windows_stall(front, now) == (#[trigger] front[i]).stall(now);
                assert(front[i] == windows[i]);
            }
        }
    }
}

/// A single window's wait is the wait of the windows.
pub proof fn lemma_single_window_stall(windows: Seq<WindowCounter>, now: u64)
    requires
        windows.len() == 1,
    ensures
        windows_stall(windows, now) == windows[0].stall(now),
{
    lemma_window_stall_bounds(windows[0], now);
    assert(windows.drop_last().len() == 0);
    assert(windows_stall(windows.drop_last(), now) == 0);
    assert(windows.last() == windows[0]);
}

/// Recording successes keeps the windows' limits and durations, and raises
/// no count by more than the number of successes.
proof fn lemma_after_successes_counts(state: TrackerState, times: Seq<u64>)
    ensures
        after_successes(state, times).windows.len() == state.windows.len(),
        forall|i: int|
            0 <= i < state.windows.len() ==> {
                let w = #[trigger] after_successes(state, times).windows[i];
                &&& w.limit == state.windows[i].limit
                &&& w.duration == state.windows[i].duration
                &&& w.count <= state.windows[i].count + times.len()
            },
        times.len() > 0 ==> after_successes(state, times).cooldown.retry_after == 0,
    decreases times.len(),
{
    if times.len() > 0 {
        lemma_after_successes_counts(state, times.drop_last());
    }
}

/// No starvation under budget: as long as the requests recorded so far leave
/// every window under its limit, no wait is due after any of them, at whatever
/// time the tracker is asked.
pub proof fn law_no_stall_under_budget(state: TrackerState, times: Seq<u64>)
    requires
        forall|i: int|
            0 <= i < state.windows.len() ==> (#[trigger] state.windows[i]).count + times.len()
                < state.windows[i].limit,
    ensures
        forall|k: int, now: u64|
            0 < k <= times.len() ==> #[trigger] after_successes(state, times.take(k)).stall(now) == 0,
{
    assert forall|k: int, now: u64| 0 < k <= times.len() implies #[trigger] after_successes(
        state,
        times.take(k),
    ).stall(now) == 0 by {
        let after = after_successes(state, times.take(k));
        lemma_after_successes_counts(state, times.take(k));
        lemma_windows_stall_is_max(after.windows, now);
        assert forall|i: int| 0 <= i < after.windows.len() implies (#[trigger] after.windows[i]).stall(now)
            == 0 by {
            assert(state.windows[i].count + times.len() < state.windows[i].limit);
        }
    }
}

/// Enforced wait: a window whose budget is used up asks, at a time inside its
/// interval, for exactly the rest of the interval. The wait is positive and
/// gets strictly shorter as time advances inside the interval. For a window
/// that admits any request at all it is 0 at the end of the interval; a
/// window with a limit of 0 starts anew there with its budget used up, and
/// asks for its whole duration.
pub proof fn law_enforced_wait(window: WindowCounter, now: u64, later: u64)
    requires
        window.count >= window.limit,
        window.window_start <= now < later,
        later <= window.window_start + window.duration,
    ensures
        window.stall(now) == window.window_start + window.duration - now,
        window.stall(now) > 0,
        later < window.window_start + window.duration ==> window.stall(later) == window.window_start
            + window.duration - later,
        later < window.window_start + window.duration ==> window.stall(later) < window.stall(now),
        window.limit > 0 ==> window.stall(later) < window.stall(now),
        window.limit > 0 && later == window.window_start + window.duration ==> window.stall(later) == 0,
        window.limit == 0 && later == window.window_start + window.duration ==> window.stall(later)
            == window.duration,
{
}

/// Enforced wait, seen through a tracker with that one window and no
/// cool-down: the tracker asks for what the window asks for.
pub proof fn law_enforced_wait_of_tracker(state: TrackerState, now: u64)
    requires
        state.windows.len() == 1,
        state.cooldown.retry_after == 0,
        state.windows[0].count >= state.windows[0].limit,
        state.windows[0].window_start <= now < state.windows[0].window_start
            + state.windows[0].duration,
    ensures
        state.stall(now) == state.windows[0].window_start + state.windows[0].duration - now,
        state.stall(now) > 0,
{
    lemma_single_window_stall(state.windows, now);
}

/// Lazy reset: a window consulted or counted after its interval starts anew
/// at that time, however long it lay idle: empty when consulted, with one
/// request when counted.
pub proof fn law_lazy_reset(window: WindowCounter, now: u64)
    requires
        now >= window.window_start + window.duration,
    ensures
        window.rolled(now) == (WindowCounter {
            count: 0,
            window_start: now,
            limit: window.limit,
            duration: window.duration,
        }),
        window.counted(now) == (WindowCounter {
            count: 1,
            window_start: now,
            limit: window.limit,
            duration: window.duration,
        }),
{
}

/// Lazy reset, seen through a tracker: asking for the wait and recording a
/// success both restart each window whose interval is over.
pub proof fn law_lazy_reset_of_tracker(state: TrackerState, now: u64, i: int)
    requires
        0 <= i < state.windows.len(),
        now >= state.windows[i].window_start + state.windows[i].duration,
    ensures
        state.rolled(now).windows[i].count == 0,
        state.rolled(now).windows[i].window_start == now,
        state.succeeded(now).windows[i].count == 1,
        state.succeeded(now).windows[i].window_start == now,
{
}

/// Cool-down precedence: once a rejection is recorded, the tracker asks for
/// no less than what is left of the server's wait, whatever the windows say;
/// with no window asking for anything, it asks for exactly that. Once the wait
/// has passed, only the windows count.
pub proof fn law_cooldown_precedence(state: TrackerState, now: u64, retry_after: u64, later: u64)
    requires
        now <= later,
    ensures
        state.limited(now, retry_after).stall(now) >= retry_after,
        windows_stall(state.windows, now) == 0 ==> state.limited(now, retry_after).stall(now)
            == retry_after,
        later - now < retry_after ==> state.limited(now, retry_after).stall(later) >= retry_after - (
        later - now),
        later - now < retry_after && windows_stall(state.windows, later) == 0 ==> state.limited(
            now,
            retry_after,
        ).stall(later) == retry_after - (later - now),
        later - now >= retry_after ==> state.limited(now, retry_after).stall(later) == windows_stall(
            state.windows,
            later,
        ),
{
    lemma_windows_stall_is_max(state.windows, now);
    lemma_windows_stall_is_max(state.windows, later);
}

/// Class independence: whatever is done for one class leaves the tracker of
/// the other as it was, and so its wait at every time.
pub proof fn law_class_independence(
    store: StoreState,
    request_type: RequestType,
    other: RequestType,
    outcome: Outcome,
    now: u64,
    at: u64,
)
    requires
        request_type != other,
    ensures
        store.consulted(request_type, now).tracker(other) == store.tracker(other),
        store.recorded(request_type, outcome, now).tracker(other) == store.tracker(other),
        store.acquired(request_type, now).tracker(other) == store.tracker(other),
        store.answered(request_type, now).tracker(other) == store.tracker(other),
        store.consulted(request_type, now).stall(other, at) == store.stall(other, at),
        store.recorded(request_type, outcome, now).stall(other, at) == store.stall(other, at),
        store.acquired(request_type, now).stall(other, at) == store.stall(other, at),
        store.answered(request_type, now).stall(other, at) == store.stall(other, at),
{
}

/// The smaller of two numbers.
pub open spec fn smaller(a: int, b: int) -> int {
    if a <= b {
        a
    } else {
        b
    }
}

/// Callers that ask inside the interval of a tracker's only window, with no
/// cool-down in force, fill the window up to its limit and no further.
proof fn lemma_after_acquires_in_window(state: TrackerState, times: Seq<u64>)
    requires
        state.windows.len() == 1,
        state.cooldown.retry_after == 0,
        state.windows[0].count <= state.windows[0].limit,
        forall|k: int|
            0 <= k < times.len() ==> state.windows[0].window_start <= (#[trigger] times[k])
                < state.windows[0].window_start + state.windows[0].duration,
    ensures
        after_acquires(state, times).windows.len() == 1,
        after_acquires(state, times).cooldown.retry_after == 0,
        after_acquires(state, times).windows[0] == (WindowCounter {
            count: smaller(
                state.windows[0].count + times.len(),
                state.windows[0].limit as int,
            ) as u64,
            window_start: state.windows[0].window_start,
            limit: state.windows[0].limit,
            duration: state.windows[0].duration,
        }),
        granted(state, times) == smaller(
            times.len() as int,
            state.windows[0].limit - state.windows[0].count,
        ),
    decreases times.len(),
{
    if times.len() > 0 {
        let front = times.drop_last();
        let now = times.last();
        assert forall|k: int| 0 <= k < front.len() implies state.windows[0].window_start <= (
        #[trigger] front[k]) < state.windows[0].window_start + state.windows[0].duration by {
            assert(front[k] == times[k]);
        }
        lemma_after_acquires_in_window(state, front);
        let before = after_acquires(state, front);
        assert(times[times.len() - 1] == now);
        lemma_single_window_stall(before.windows, now);
        assert(before.rolled(now).windows[0] == before.windows[0]);
    }
}

/// Concurrency safety. Every operation needs the tracker exclusively, so
/// callers that share it take turns, in some order. Whatever the order: of
/// the callers that ask inside the interval of the tracker's only window, with
/// no cool-down in force, exactly as many are told to go ahead as the window
/// has budget left, namely the first ones to ask; every later one is told to
/// wait for a positive time.
pub proof fn law_only_the_budget_is_granted(state: TrackerState, times: Seq<u64>)
    requires
        state.windows.len() == 1,
        state.cooldown.retry_after == 0,
        state.windows[0].count <= state.windows[0].limit,
        forall|k: int|
            0 <= k < times.len() ==> state.windows[0].window_start <= (#[trigger] times[k])
                < state.windows[0].window_start + state.windows[0].duration,
    ensures
        granted(state, times) == smaller(
            times.len() as int,
            state.windows[0].limit - state.windows[0].count,
        ),
        forall|k: int|
            0 <= k < times.len() ==> {
                let wait = #[trigger] after_acquires(state, times.take(k)).stall(times[k]);
                if k < state.windows[0].limit - state.windows[0].count {
                    wait == 0
                } else {
                    wait > 0
                }
            },
{
    lemma_after_acquires_in_window(state, times);
    assert forall|k: int| 0 <= k < times.len() implies {
        let wait = #[trigger] after_acquires(state, times.take(k)).stall(times[k]);
        if k < state.windows[0].limit - state.windows[0].count {
            wait == 0
        } else {
            wait > 0
        }
    } by {
        let front = times.take(k);
        assert forall|j: int| 0 <= j < front.len() implies state.windows[0].window_start <= (
        #[trigger] front[j]) < state.windows[0].window_start + state.windows[0].duration by {
            assert(front[j] == times[j]);
        }
        lemma_after_acquires_in_window(state, front);
        let before = after_acquires(state, front);
        lemma_single_window_stall(before.windows, times[k]);
    }
}

/// The paired step is the check and the record in one: `acquire` leaves the
/// store as `stall_at` and, where the wait is 0, `on_response` with an
/// accepted outcome leave it, with no other caller's step between the two.
pub proof fn law_acquire_is_check_and_record(store: StoreState, request_type: RequestType, now: u64)
    ensures
        store.acquired(request_type, now) == if store.stall(request_type, now) == 0 {
            store.consulted(request_type, now).recorded(request_type, Outcome::Accepted, now)
        } else {
            store.consulted(request_type, now)
        },
{
}

/// What one caller does with the store when its turn comes.
pub enum Turn {
    /// It asks for its wait at this time, and sends if none is due.
    Asks(u64),
    /// It notes at this time that its request, counted when it asked, was
    /// answered without a rejection.
    Answered(u64),
}

/// The store after `turn` was taken for `request_type`.
pub open spec fn after_turn(store: StoreState, request_type: RequestType, turn: Turn) -> StoreState {
    match turn {
        Turn::Asks(now) => store.acquired(request_type, now),
        Turn::Answered(now) => store.answered(request_type, now),
    }
}

/// The store after `turns` were taken for `request_type`, in that order.
pub open spec fn after_turns(store: StoreState, request_type: RequestType, turns: Seq<Turn>) -> StoreState
    decreases turns.len(),
{
    if turns.len() == 0 {
        store
    } else {
        after_turn(after_turns(store, request_type, turns.drop_last()), request_type, turns.last())
    }
}

/// How many of `turns` ask for a wait.
pub open spec fn asked(turns: Seq<Turn>) -> nat
    decreases turns.len(),
{
    if turns.len() == 0 {
        0
    } else if turns.last() is Asks {
        asked(turns.drop_last()) + 1
    } else {
        asked(turns.drop_last())
    }
}

/// How many of the callers that ask in `turns` are told that no wait is due.
pub open spec fn let_through(store: StoreState, request_type: RequestType, turns: Seq<Turn>) -> nat
    decreases turns.len(),
{
    if turns.len() == 0 {
        0
    } else {
        let earlier = let_through(store, request_type, turns.drop_last());
        match turns.last() {
            Turn::Asks(now) => if after_turns(store, request_type, turns.drop_last()).stall(
                request_type,
                now,
            ) == 0 {
                earlier + 1
            } else {
                earlier
            },
            Turn::Answered(_) => earlier,
        }
    }
}

/// Every caller that asks in `turns` does so inside the interval of `window`.
pub open spec fn asked_inside(window: WindowCounter, turns: Seq<Turn>) -> bool {
    forall|k: int|
        0 <= k < turns.len() ==> ((#[trigger] turns[k]) matches Turn::Asks(now) ==> window.window_start
            <= now < window.window_start + window.duration)
}

/// Callers that take turns with a store whose tracker has one window and no
/// cool-down, and that ask inside the window's interval, fill the window up
/// to its limit and no further, whenever the answers are recorded.
proof fn lemma_after_turns_in_window(store: StoreState, request_type: RequestType, turns: Seq<Turn>)
    requires
        store.tracker(request_type).windows.len() == 1,
        store.tracker(request_type).cooldown.retry_after == 0,
        store.tracker(request_type).windows[0].count <= store.tracker(request_type).windows[0].limit,
        asked_inside(store.tracker(request_type).windows[0], turns),
    ensures
        after_turns(store, request_type, turns).tracker(request_type).windows.len() == 1,
        after_turns(store, request_type, turns).tracker(request_type).cooldown.retry_after == 0,
        after_turns(store, request_type, turns).tracker(request_type).windows[0] == (WindowCounter {
            count: smaller(
                store.tracker(request_type).windows[0].count + asked(turns),
                store.tracker(request_type).windows[0].limit as int,
            ) as u64,
            window_start: store.tracker(request_type).windows[0].window_start,
            limit: store.tracker(request_type).windows[0].limit,
            duration: store.tracker(request_type).windows[0].duration,
        }),
        let_through(store, request_type, turns) == smaller(
            asked(turns) as int,
            store.tracker(request_type).windows[0].limit - store.tracker(request_type).windows[0].count,
        ),
    decreases turns.len(),
{
    if turns.len() > 0 {
        let front = turns.drop_last();
        let window = store.tracker(request_type).windows[0];
        assert forall|k: int| 0 <= k < front.len() implies ((#[trigger] front[k]) matches Turn::Asks(now)
            ==> window.window_start <= now < window.window_start + window.duration) by {
            assert(front[k] == turns[k]);
        }
        lemma_after_turns_in_window(store, request_type, front);
        let before = after_turns(store, request_type, front).tracker(request_type);
        assert(turns[turns.len() - 1] == turns.last());
        match turns.last() {
            Turn::Asks(now) => {
                lemma_single_window_stall(before.windows, now);
                assert(before.rolled(now).windows[0] == before.windows[0]);
            },
            Turn::Answered(_) => {},
        }
    }
}

/// Concurrency safety of the store. Every operation needs the store
/// exclusively, so callers that share it take turns: each asks for its wait
/// with `acquire`, which checks and records in one step, sends if none is
/// due, and notes the answer later, in whatever order the turns of all
/// callers fall. Whatever the order: with one window and no
/// cool-down, of the callers that ask inside the window's interval exactly as
/// many are let through as the window has budget left, namely the first ones
/// to ask; every later one is told to wait for a positive time.
pub proof fn law_store_lets_only_the_budget_through(
    store: StoreState,
    request_type: RequestType,
    turns: Seq<Turn>,
)
    requires
        store.tracker(request_type).windows.len() == 1,
        store.tracker(request_type).cooldown.retry_after == 0,
        store.tracker(request_type).windows[0].count <= store.tracker(request_type).windows[0].limit,
        asked_inside(store.tracker(request_type).windows[0], turns),
    ensures
        let_through(store, request_type, turns) == smaller(
            asked(turns) as int,
            store.tracker(request_type).windows[0].limit - store.tracker(request_type).windows[0].count,
        ),
        forall|k: int|
            0 <= k < turns.len() ==> ((#[trigger] turns[k]) matches Turn::Asks(now) ==> {
                let wait = after_turns(store, request_type, turns.take(k)).stall(request_type, now);
                if asked(turns.take(k)) < store.tracker(request_type).windows[0].limit - store.tracker(
                    request_type,
                ).windows[0].count {
                    wait == 0
                } else {
                    wait > 0
                }
            }),
{
    lemma_after_turns_in_window(store, request_type, turns);
    let window = store.tracker(request_type).windows[0];
    assert forall|k: int| 0 <= k < turns.len() implies ((#[trigger] turns[k]) matches Turn::Asks(now) ==> {
        let wait = after_turns(store, request_type, turns.take(k)).stall(request_type, now);
        if asked(turns.take(k)) < window.limit - window.count {
            wait == 0
        } else {
            wait > 0
        }
    }) by {
        let front = turns.take(k);
        assert forall|j: int| 0 <= j < front.len() implies ((#[trigger] front[j]) matches Turn::Asks(at)
            ==> window.window_start <= at < window.window_start + window.duration) by {
            assert(front[j] == turns[j]);
        }
        lemma_after_turns_in_window(store, request_type, front);
        let before = after_turns(store, request_type, front).tracker(request_type);
        match turns[k] {
            Turn::Asks(now) => {
                lemma_single_window_stall(before.windows, now);
            },
            Turn::Answered(_) => {},
        }
    }
}

} // verus!
