use mcm_api_wrapper::throttler::stall_for;
use mcm_api_wrapper::throttler::stall_for_helper;
use mcm_api_wrapper::throttler::timestamp_from_millis;
use mcm_api_wrapper::throttler::unix_timestamp;
use mcm_api_wrapper::throttler::Cooldown;
use mcm_api_wrapper::throttler::Outcome;
use mcm_api_wrapper::throttler::RateLimitStore;
use mcm_api_wrapper::throttler::RateWindowTracker;
use mcm_api_wrapper::throttler::RequestType;
use mcm_api_wrapper::throttler::WindowCounter;

fn window(count: u64, window_start: u64, limit: u64, duration: u64) -> WindowCounter {
    WindowCounter { count, window_start, limit, duration }
}

#[test]
fn new_window_is_empty_and_starts_now() {
    assert_eq!(WindowCounter::new(5, 1000, 42), window(0, 42, 5, 1000));
}

#[test]
fn window_with_budget_asks_for_no_wait() {
    let mut w = window(1, 0, 2, 1000);
    assert_eq!(w.compute_stall(500), 0);
    assert_eq!(w, window(1, 0, 2, 1000));
}

#[test]
fn full_window_asks_for_the_rest_of_its_interval() {
    let mut w = window(2, 100, 2, 1000);
    assert_eq!(w.compute_stall(100), 1000);
    assert_eq!(w.compute_stall(101), 999);
    assert_eq!(w.compute_stall(600), 500);
    assert_eq!(w.compute_stall(1099), 1);
    assert_eq!(w, window(2, 100, 2, 1000));
}

#[test]
fn full_window_is_free_again_at_the_end_of_its_interval() {
    let mut w = window(2, 100, 2, 1000);
    assert_eq!(w.compute_stall(1100), 0);
    assert_eq!(w, window(0, 1100, 2, 1000));
}

#[test]
fn window_rolls_over_however_long_it_lay_idle() {
    let mut w = window(2, 100, 2, 1000);
    w.roll(u64::MAX);
    assert_eq!(w, window(0, u64::MAX, 2, 1000));
}

#[test]
fn window_inside_its_interval_does_not_roll() {
    let mut w = window(1, 100, 2, 1000);
    w.roll(1099);
    assert_eq!(w, window(1, 100, 2, 1000));
}

#[test]
fn record_counts_inside_the_interval() {
    let mut w = window(0, 0, 2, 1000);
    w.record(0);
    assert_eq!(w, window(1, 0, 2, 1000));
    w.record(100);
    assert_eq!(w, window(2, 0, 2, 1000));
}

#[test]
fn record_past_the_interval_starts_anew_with_one() {
    let mut w = window(2, 0, 2, 1000);
    w.record(5000);
    assert_eq!(w, window(1, 5000, 2, 1000));
}

#[test]
fn record_stops_at_the_largest_count() {
    let mut w = window(u64::MAX, 0, u64::MAX, 1000);
    w.record(1);
    assert_eq!(w.count, u64::MAX);
}

#[test]
fn clock_behind_the_window_start_counts_as_no_time_passed() {
    let mut w = window(2, 500, 2, 1000);
    assert_eq!(w.compute_stall(100), 1000);
    assert_eq!(w, window(2, 500, 2, 1000));
}

#[test]
fn window_of_no_duration_never_holds_a_count() {
    let mut w = window(7, 10, 1, 0);
    assert_eq!(w.compute_stall(10), 0);
    assert_eq!(w, window(0, 10, 1, 0));
}

#[test]
fn window_without_budget_always_asks_for_its_whole_rest() {
    let mut w = window(0, 0, 0, 1000);
    assert_eq!(w.compute_stall(250), 750);
    assert_eq!(w.compute_stall(1000), 1000);
    assert_eq!(w, window(0, 1000, 0, 1000));
}

#[test]
fn stall_for_helper_gives_what_is_left_of_the_cool_down() {
    assert_eq!(stall_for_helper(5000, 1000, 1000), 5000);
    assert_eq!(stall_for_helper(5000, 1000, 2500), 3500);
    assert_eq!(stall_for_helper(5000, 1000, 5999), 1);
    assert_eq!(stall_for_helper(5000, 1000, 6000), 0);
    assert_eq!(stall_for_helper(5000, 1000, 9000), 0);
}

#[test]
fn stall_for_helper_without_cool_down_is_zero() {
    assert_eq!(stall_for_helper(0, 1000, 1000), 0);
    assert_eq!(stall_for_helper(0, 1000, 0), 0);
}

#[test]
fn stall_for_helper_with_clock_behind_gives_the_whole_cool_down() {
    assert_eq!(stall_for_helper(5000, 1000, 10), 5000);
}

#[test]
fn cool_down_is_cleared_once_spent() {
    let mut c = Cooldown { retry_after: 5000, recorded_at: 1000 };
    assert_eq!(c.compute_stall(3000), 3000);
    assert_eq!(c, Cooldown { retry_after: 5000, recorded_at: 1000 });
    assert_eq!(c.compute_stall(6000), 0);
    assert_eq!(c, Cooldown { retry_after: 0, recorded_at: 1000 });
}

#[test]
fn cleared_cool_down_holds_no_wait() {
    assert_eq!(Cooldown::cleared(77), Cooldown { retry_after: 0, recorded_at: 77 });
}

#[test]
fn successes_under_the_limit_never_stall() {
    let mut tracker = RateWindowTracker::new(vec![WindowCounter::new(5, 1000, 0)], 0);
    let times: [u64; 4] = [0, 10, 500, 999];
    for now in times {
        tracker.record_success(now);
        assert_eq!(tracker.compute_stall(now), 0);
    }
    assert_eq!(tracker.windows()[0].count, 4);
}

#[test]
fn two_successes_exhaust_a_window_of_two() {
    let mut tracker = RateWindowTracker::new(vec![WindowCounter::new(2, 1000, 0)], 0);
    tracker.record_success(0);
    tracker.record_success(100);
    let wait = tracker.compute_stall(500);
    assert!(wait > 0 && wait <= 1000);
    assert_eq!(wait, 500);
    assert_eq!(tracker.compute_stall(1000), 0);
    assert_eq!(tracker.windows()[0], window(0, 1000, 2, 1000));
}

#[test]
fn enforced_wait_shrinks_to_zero_at_the_end_of_the_window() {
    let mut tracker = RateWindowTracker::new(vec![window(3, 200, 3, 1000)], 0);
    let mut last = u64::MAX;
    let mut now: u64 = 200;
    while now < 1200 {
        let wait = tracker.compute_stall(now);
        assert_eq!(wait, 200 + 1000 - now);
        assert!(wait < last);
        last = wait;
        now += 100;
    }
    assert_eq!(tracker.compute_stall(1200), 0);
}

#[test]
fn compute_stall_rolls_expired_windows() {
    let mut tracker = RateWindowTracker::new(vec![window(9, 0, 10, 50), window(3, 0, 10, 5000)], 0);
    assert_eq!(tracker.compute_stall(60), 0);
    assert_eq!(tracker.windows()[0], window(0, 60, 10, 50));
    assert_eq!(tracker.windows()[1], window(3, 0, 10, 5000));
}

#[test]
fn record_success_rolls_expired_windows_and_counts_one() {
    let mut tracker = RateWindowTracker::new(vec![window(9, 0, 10, 50), window(3, 0, 10, 5000)], 0);
    tracker.record_success(1_000_000);
    assert_eq!(tracker.windows()[0], window(1, 1_000_000, 10, 50));
    assert_eq!(tracker.windows()[1], window(1, 1_000_000, 10, 5000));
}

#[test]
fn longest_wait_of_all_windows_wins() {
    let mut tracker = RateWindowTracker::new(vec![window(2, 0, 2, 100), window(5, 0, 5, 10_000), window(0, 0, 1, 50)], 0);
    assert_eq!(tracker.compute_stall(40), 9960);
    let mut other = RateWindowTracker::new(vec![window(5, 0, 5, 10_000), window(2, 0, 2, 100)], 0);
    assert_eq!(other.compute_stall(40), 9960);
}

#[test]
fn cool_down_takes_precedence_over_free_windows() {
    let mut tracker = RateWindowTracker::new(vec![WindowCounter::new(10, 1000, 0)], 0);
    tracker.record_limited(100, 5000);
    assert_eq!(tracker.compute_stall(100), 5000);
    assert_eq!(tracker.compute_stall(2100), 3000);
    assert_eq!(tracker.compute_stall(5100), 0);
    assert_eq!(tracker.cooldown(), Cooldown { retry_after: 0, recorded_at: 100 });
}

#[test]
fn record_limited_leaves_the_windows_alone() {
    let mut tracker = RateWindowTracker::new(vec![window(1, 0, 3, 1000)], 0);
    tracker.record_limited(10, 700);
    assert_eq!(tracker.windows()[0], window(1, 0, 3, 1000));
    assert_eq!(tracker.cooldown(), Cooldown { retry_after: 700, recorded_at: 10 });
}

#[test]
fn longer_of_window_and_cool_down_wins() {
    let mut tracker = RateWindowTracker::new(vec![window(1, 0, 1, 10_000)], 0);
    tracker.record_limited(0, 3000);
    assert_eq!(tracker.compute_stall(1000), 9000);
    let mut other = RateWindowTracker::new(vec![window(1, 0, 1, 2000)], 0);
    other.record_limited(0, 3000);
    assert_eq!(other.compute_stall(1000), 2000);
}

#[test]
fn record_success_clears_the_cool_down() {
    let mut tracker = RateWindowTracker::new(Vec::new(), 0);
    tracker.record_limited(0, 5000);
    tracker.record_success(10);
    assert_eq!(tracker.cooldown(), Cooldown { retry_after: 0, recorded_at: 10 });
    assert_eq!(tracker.compute_stall(10), 0);
}

#[test]
fn tracker_without_windows_or_cool_down_never_stalls() {
    let mut tracker = RateWindowTracker::new(Vec::new(), 5);
    assert_eq!(tracker.compute_stall(0), 0);
    assert_eq!(tracker.compute_stall(u64::MAX), 0);
}

#[test]
fn acquire_counts_only_when_no_wait_is_due() {
    let mut tracker = RateWindowTracker::new(vec![WindowCounter::new(1, 1000, 0)], 0);
    assert_eq!(tracker.acquire(10), 0);
    assert_eq!(tracker.windows()[0].count, 1);
    assert_eq!(tracker.acquire(20), 980);
    assert_eq!(tracker.windows()[0].count, 1);
}

#[test]
fn exactly_the_budget_is_granted_whatever_the_order() {
    let orders: [[u64; 6]; 3] = [[0, 1, 2, 3, 4, 5], [5, 4, 3, 2, 1, 0], [3, 0, 5, 1, 4, 2]];
    for order in orders {
        let mut tracker = RateWindowTracker::new(vec![WindowCounter::new(4, 1000, 0)], 0);
        let mut granted = 0;
        let mut stalled = 0;
        for now in order {
            if tracker.acquire(now) == 0 {
                granted += 1;
            } else {
                stalled += 1;
            }
        }
        assert_eq!(granted, 4);
        assert_eq!(stalled, 2);
    }
}

#[test]
fn callers_behind_a_lock_are_granted_exactly_the_budget() {
    let tracker = std::sync::Arc::new(std::sync::Mutex::new(RateWindowTracker::new(
        vec![WindowCounter::new(3, 1_000_000, 0)],
        0,
    )));
    let mut waits: Vec<u64> = Vec::new();
    let mut turn: u64 = 0;
    while turn < 8 {
        let shared = tracker.clone();
        waits.push(shared.lock().unwrap().acquire(turn));
        turn += 1;
    }
    assert_eq!(waits.iter().filter(|wait| **wait == 0).count(), 3);
    assert_eq!(waits.iter().filter(|wait| **wait > 0).count(), 5);
}

#[test]
fn new_store_never_stalls() {
    let mut store = RateLimitStore::new();
    assert_eq!(store.tracker(RequestType::READ).windows().len(), 0);
    assert_eq!(store.tracker(RequestType::WRITE).windows().len(), 0);
    assert_eq!(store.tracker(RequestType::READ).cooldown().retry_after, 0);
    assert_eq!(store.tracker(RequestType::WRITE).cooldown().retry_after, 0);
    assert_eq!(store.stall_at(RequestType::READ, 0), 0);
    assert_eq!(store.stall_at(RequestType::WRITE, u64::MAX), 0);
    assert_eq!(stall_for(&mut store, RequestType::READ), 0);
}

#[test]
fn store_with_windows_holds_them_per_class() {
    let store = RateLimitStore::with_windows(vec![WindowCounter::new(2, 1000, 7)], vec![WindowCounter::new(9, 50, 7)], 7);
    assert_eq!(store.tracker(RequestType::READ).windows()[0], window(0, 7, 2, 1000));
    assert_eq!(store.tracker(RequestType::WRITE).windows()[0], window(0, 7, 9, 50));
    assert_eq!(store.tracker(RequestType::READ).cooldown(), Cooldown { retry_after: 0, recorded_at: 7 });
}

#[test]
fn classes_do_not_touch_each_other() {
    let mut store = RateLimitStore::with_windows(vec![WindowCounter::new(1, 1000, 0)], vec![WindowCounter::new(1, 1000, 0)], 0);
    store.on_response(RequestType::READ, Outcome::Accepted, 10);
    store.on_response(RequestType::READ, Outcome::Limited(9000), 20);
    assert_eq!(store.stall_at(RequestType::READ, 30), 8990);
    assert_eq!(store.tracker(RequestType::WRITE).windows()[0], window(0, 0, 1, 1000));
    assert_eq!(store.stall_at(RequestType::WRITE, 30), 0);
    store.on_response(RequestType::WRITE, Outcome::Accepted, 40);
    assert_eq!(store.stall_at(RequestType::WRITE, 50), 950);
    assert_eq!(store.stall_at(RequestType::READ, 50), 8970);
    assert_eq!(store.acquire(RequestType::WRITE, 60), 940);
    assert_eq!(store.stall_at(RequestType::READ, 60), 8960);
}

#[test]
fn retry_after_two_seconds_holds_reads_back_for_two_seconds() {
    let mut store = RateLimitStore::with_windows(Vec::new(), Vec::new(), 0);
    store.on_response(RequestType::READ, Outcome::Limited(2000), 0);
    assert_eq!(store.stall_at(RequestType::READ, 1000), 1000);
    assert_eq!(store.stall_at(RequestType::READ, 2000), 0);
}

#[test]
fn store_read_and_reset_read_use_the_clock() {
    let mut store = RateLimitStore::new();
    store.store_read(3_600_000);
    let wait = stall_for(&mut store, RequestType::READ);
    assert!(wait > 3_000_000 && wait <= 3_600_000);
    assert_eq!(stall_for(&mut store, RequestType::WRITE), 0);
    store.reset_read();
    assert_eq!(stall_for(&mut store, RequestType::READ), 0);
}

#[test]
fn store_write_and_reset_write_use_the_clock() {
    let mut store = RateLimitStore::new();
    store.store_write(3_600_000);
    let wait = stall_for(&mut store, RequestType::WRITE);
    assert!(wait > 3_000_000 && wait <= 3_600_000);
    assert_eq!(stall_for(&mut store, RequestType::READ), 0);
    store.reset_write();
    assert_eq!(stall_for(&mut store, RequestType::WRITE), 0);
}

#[test]
fn timestamp_from_millis_keeps_what_fits() {
    assert_eq!(timestamp_from_millis(Some(0)), 0);
    assert_eq!(timestamp_from_millis(Some(1_700_000_000_000)), 1_700_000_000_000);
    assert_eq!(timestamp_from_millis(Some(u64::MAX as u128)), u64::MAX);
}

#[test]
fn timestamp_from_millis_stops_at_the_largest() {
    assert_eq!(timestamp_from_millis(Some(u64::MAX as u128 + 1)), u64::MAX);
    assert_eq!(timestamp_from_millis(Some(u128::MAX)), u64::MAX);
}

#[test]
fn timestamp_before_the_epoch_is_zero() {
    assert_eq!(timestamp_from_millis(None), 0);
}

#[test]
fn unix_timestamp_is_in_milliseconds_and_does_not_run_back_far() {
    let first = unix_timestamp();
    let second = unix_timestamp();
    assert!(first > 1_600_000_000_000);
    assert!(first < 100_000_000_000_000);
    assert!(second + 60_000 > first);
}

#[test]
fn asking_a_store_for_the_wait_counts_nothing() {
    let mut store = RateLimitStore::with_windows(vec![WindowCounter::new(1, 1000, 0)], Vec::new(), 0);
    assert_eq!(store.stall_at(RequestType::READ, 10), 0);
    assert_eq!(store.stall_at(RequestType::READ, 10), 0);
    assert_eq!(store.tracker(RequestType::READ).windows()[0], window(0, 0, 1, 1000));
}

#[test]
fn asking_a_store_after_the_interval_restarts_the_window_empty() {
    let mut store = RateLimitStore::with_windows(vec![window(1, 0, 1, 1000)], Vec::new(), 0);
    assert_eq!(store.stall_at(RequestType::READ, 5000), 0);
    assert_eq!(store.tracker(RequestType::READ).windows()[0], window(0, 5000, 1, 1000));
}

#[test]
fn a_success_recorded_in_a_store_is_counted() {
    let mut store = RateLimitStore::with_windows(vec![WindowCounter::new(2, 1000, 0)], Vec::new(), 0);
    store.on_response(RequestType::READ, Outcome::Accepted, 0);
    store.on_response(RequestType::READ, Outcome::Accepted, 100);
    assert_eq!(store.tracker(RequestType::READ).windows()[0], window(2, 0, 2, 1000));
    assert_eq!(store.stall_at(RequestType::READ, 500), 500);
    assert_eq!(store.stall_at(RequestType::READ, 1000), 0);
}

#[test]
fn a_success_recorded_after_the_interval_restarts_the_window_with_one() {
    let mut store = RateLimitStore::with_windows(vec![window(2, 0, 2, 1000)], vec![window(1, 7, 9, 50)], 0);
    store.on_response(RequestType::READ, Outcome::Limited(400), 10);
    store.on_response(RequestType::READ, Outcome::Accepted, 5000);
    assert_eq!(store.tracker(RequestType::READ).windows()[0], window(1, 5000, 2, 1000));
    assert_eq!(store.tracker(RequestType::READ).cooldown(), Cooldown { retry_after: 0, recorded_at: 5000 });
    assert_eq!(store.tracker(RequestType::WRITE).windows()[0], window(1, 7, 9, 50));
    assert_eq!(store.tracker(RequestType::WRITE).cooldown(), Cooldown { retry_after: 0, recorded_at: 0 });
}

#[test]
fn acquire_of_a_store_counts_whoever_is_told_to_go_ahead() {
    let mut store = RateLimitStore::with_windows(vec![WindowCounter::new(2, 1000, 0)], Vec::new(), 0);
    assert_eq!(store.acquire(RequestType::READ, 10), 0);
    assert_eq!(store.tracker(RequestType::READ).windows()[0].count, 1);
    assert_eq!(store.acquire(RequestType::READ, 20), 0);
    assert_eq!(store.tracker(RequestType::READ).windows()[0].count, 2);
    assert_eq!(store.acquire(RequestType::READ, 30), 970);
    assert_eq!(store.tracker(RequestType::READ).windows()[0].count, 2);
}

#[test]
fn acquire_is_the_check_and_the_record_in_one() {
    let mut paired = RateLimitStore::with_windows(vec![window(3, 0, 3, 100), window(1, 0, 5, 10_000)], Vec::new(), 0);
    let mut apart = RateLimitStore::with_windows(vec![window(3, 0, 3, 100), window(1, 0, 5, 10_000)], Vec::new(), 0);
    let times: [u64; 6] = [10, 50, 150, 160, 170, 300];
    for now in times {
        let wait = paired.acquire(RequestType::READ, now);
        assert_eq!(apart.stall_at(RequestType::READ, now), wait);
        if wait == 0 {
            apart.on_response(RequestType::READ, Outcome::Accepted, now);
        }
        assert_eq!(paired.tracker(RequestType::READ).windows(), apart.tracker(RequestType::READ).windows());
        assert_eq!(paired.tracker(RequestType::READ).cooldown(), apart.tracker(RequestType::READ).cooldown());
    }
}

#[test]
fn two_callers_are_not_let_through_on_one_free_slot() {
    let mut store = RateLimitStore::with_windows(vec![WindowCounter::new(1, 1000, 0)], Vec::new(), 0);
    let first = store.acquire(RequestType::READ, 100);
    let second = store.acquire(RequestType::READ, 100);
    store.record_answer(RequestType::READ, 150);
    assert_eq!(first, 0);
    assert_eq!(second, 900);
    assert_eq!(store.tracker(RequestType::READ).windows()[0].count, 1);
}

#[test]
fn an_answer_noted_after_acquire_is_not_counted_again() {
    let mut store = RateLimitStore::with_windows(vec![WindowCounter::new(5, 1000, 0)], Vec::new(), 0);
    assert_eq!(store.acquire(RequestType::READ, 10), 0);
    store.on_response(RequestType::READ, Outcome::Limited(300), 15);
    store.record_answer(RequestType::READ, 20);
    assert_eq!(store.tracker(RequestType::READ).windows()[0], window(1, 0, 5, 1000));
    assert_eq!(store.tracker(RequestType::READ).cooldown(), Cooldown { retry_after: 0, recorded_at: 20 });
}

#[test]
fn callers_of_a_store_are_let_through_up_to_the_budget_in_any_order() {
    let orders: [[(bool, u64); 8]; 2] = [
        [(true, 0), (true, 1), (false, 2), (true, 3), (false, 4), (true, 5), (false, 6), (true, 7)],
        [(true, 7), (false, 7), (true, 5), (true, 3), (false, 9), (true, 1), (true, 0), (false, 9)],
    ];
    for order in orders {
        let mut store = RateLimitStore::with_windows(Vec::new(), vec![WindowCounter::new(3, 1000, 0)], 0);
        let mut through = 0;
        let mut held = 0;
        for (asks, now) in order {
            if asks {
                if store.acquire(RequestType::WRITE, now) == 0 {
                    through += 1;
                } else {
                    held += 1;
                }
            } else {
                store.record_answer(RequestType::WRITE, now);
            }
        }
        assert_eq!(through, 3);
        assert_eq!(held, 2);
        assert_eq!(store.tracker(RequestType::WRITE).windows()[0].count, 3);
    }
}

#[test]
fn record_answer_clears_the_cool_down_only() {
    let mut tracker = RateWindowTracker::new(vec![window(2, 0, 3, 1000)], 0);
    tracker.record_limited(5, 700);
    tracker.record_answer(10);
    assert_eq!(tracker.windows()[0], window(2, 0, 3, 1000));
    assert_eq!(tracker.cooldown(), Cooldown { retry_after: 0, recorded_at: 10 });
}
