use latera_rust::file_watcher::engine::{
    elapsed_ms, Engine, Verdict, CLEANUP_INTERVAL, DEDUP_MAP_MAX_SIZE, DEDUP_RETENTION_MS,
    DEDUP_WINDOW_MS, RATE_LIMIT_PER_SECOND, RATE_WINDOW_MS,
};

fn path(i: usize) -> String {
    format!("/watch/file_{}.txt", i)
}

#[test]
fn constants_have_their_documented_values() {
    assert_eq!(DEDUP_WINDOW_MS, 300);
    assert_eq!(DEDUP_RETENTION_MS, 10 * DEDUP_WINDOW_MS);
    assert_eq!(RATE_WINDOW_MS, 1000);
    assert_eq!(RATE_LIMIT_PER_SECOND, 200);
    assert_eq!(DEDUP_MAP_MAX_SIZE, 1000);
    assert_eq!(CLEANUP_INTERVAL, 100);
}

#[test]
fn elapsed_is_zero_when_the_clock_went_back() {
    assert_eq!(elapsed_ms(10, 3), 7);
    assert_eq!(elapsed_ms(3, 3), 0);
    assert_eq!(elapsed_ms(3, 10), 0);
    assert_eq!(elapsed_ms(u64::MAX, 0), u64::MAX);
}

#[test]
fn new_engine_remembers_nothing() {
    let engine = Engine::new(42);
    assert_eq!(engine.tracked_paths(), 0);
    assert_eq!(engine.window_count(), 0);
    assert_eq!(engine.window_started_at(), 42);
    assert_eq!(engine.last_accepted(&path(0)), None);
}

#[test]
fn second_event_within_window_is_suppressed() {
    let mut engine = Engine::new(1000);
    assert_eq!(engine.offer(path(1), 1000), Verdict::Forwarded);
    assert_eq!(engine.offer(path(1), 1001), Verdict::Duplicate);
    assert_eq!(engine.offer(path(1), 1299), Verdict::Duplicate);
    assert_eq!(engine.last_accepted(&path(1)), Some(1000));
    assert_eq!(engine.tracked_paths(), 1);
}

#[test]
fn event_after_window_is_accepted_again() {
    let mut engine = Engine::new(1000);
    assert_eq!(engine.offer(path(1), 1000), Verdict::Forwarded);
    assert_eq!(engine.offer(path(1), 1300), Verdict::Forwarded);
    assert_eq!(engine.last_accepted(&path(1)), Some(1300));
    assert_eq!(engine.offer(path(1), 1599), Verdict::Duplicate);
    assert_eq!(engine.offer(path(1), 1600), Verdict::Forwarded);
    assert_eq!(engine.tracked_paths(), 1);
}

#[test]
fn duplicate_leaves_the_engine_unchanged() {
    let mut engine = Engine::new(0);
    assert_eq!(engine.offer(path(1), 10), Verdict::Forwarded);
    assert_eq!(engine.window_count(), 1);
    assert_eq!(engine.offer(path(1), 20), Verdict::Duplicate);
    assert_eq!(engine.window_count(), 1);
    assert_eq!(engine.window_started_at(), 0);
    assert_eq!(engine.last_accepted(&path(1)), Some(10));
}

#[test]
fn duplicate_after_rate_window_does_not_open_a_new_window() {
    let mut engine = Engine::new(0);
    assert_eq!(engine.offer(path(1), 900), Verdict::Forwarded);
    assert_eq!(engine.offer(path(1), 1100), Verdict::Duplicate);
    assert_eq!(engine.window_started_at(), 0);
    assert_eq!(engine.window_count(), 1);
}

#[test]
fn other_paths_are_not_suppressed() {
    let mut engine = Engine::new(0);
    assert_eq!(engine.offer(path(1), 5), Verdict::Forwarded);
    assert_eq!(engine.offer(path(2), 5), Verdict::Forwarded);
    assert_eq!(engine.offer(path(1), 6), Verdict::Duplicate);
    assert_eq!(engine.offer(path(2), 6), Verdict::Duplicate);
    assert_eq!(engine.tracked_paths(), 2);
}

#[test]
fn clock_going_back_counts_as_no_time_passed() {
    let mut engine = Engine::new(5000);
    assert_eq!(engine.offer(path(1), 5000), Verdict::Forwarded);
    assert_eq!(engine.offer(path(1), 10), Verdict::Duplicate);
    assert_eq!(engine.last_accepted(&path(1)), Some(5000));
}

#[test]
fn only_the_first_two_hundred_in_a_second_are_forwarded() {
    let mut engine = Engine::new(0);
    for i in 0..200 {
        assert_eq!(engine.offer(path(i), 10), Verdict::Forwarded, "event {}", i);
    }
    for i in 200..260 {
        assert_eq!(engine.offer(path(i), 999), Verdict::RateLimited, "event {}", i);
    }
    assert_eq!(engine.window_count(), 260);
    assert_eq!(engine.window_started_at(), 0);
}

#[test]
fn a_new_second_starts_a_fresh_count() {
    let mut engine = Engine::new(0);
    for i in 0..250 {
        engine.offer(path(i), 500);
    }
    assert_eq!(engine.offer(path(250), 999), Verdict::RateLimited);
    assert_eq!(engine.offer(path(251), 1000), Verdict::Forwarded);
    assert_eq!(engine.window_started_at(), 1000);
    assert_eq!(engine.window_count(), 1);
    for i in 0..199 {
        assert_eq!(engine.offer(path(300 + i), 1999), Verdict::Forwarded);
    }
    assert_eq!(engine.offer(path(600), 1999), Verdict::RateLimited);
    assert_eq!(engine.offer(path(601), 2000), Verdict::Forwarded);
    assert_eq!(engine.window_started_at(), 2000);
}

#[test]
fn dropped_events_are_not_queued() {
    let mut engine = Engine::new(0);
    for i in 0..200 {
        engine.offer(path(i), 0);
    }
    assert_eq!(engine.offer(path(1000), 1), Verdict::RateLimited);
    // The dropped path is remembered by the dedup stage, so it does not come
    // back by itself, and a retry within the window is a duplicate.
    assert_eq!(engine.offer(path(1000), 2), Verdict::Duplicate);
    // In the next second the budget is fresh; the dropped event is not
    // replayed, only new offers count.
    assert_eq!(engine.offer(path(1001), 1000), Verdict::Forwarded);
    assert_eq!(engine.window_count(), 1);
}

#[test]
fn rate_budget_is_spent_on_new_paths_only() {
    let mut engine = Engine::new(0);
    for _ in 0..500 {
        engine.offer(path(0), 100);
    }
    assert_eq!(engine.window_count(), 1);
    for i in 1..200 {
        assert_eq!(engine.offer(path(i), 100), Verdict::Forwarded);
    }
    assert_eq!(engine.offer(path(200), 100), Verdict::RateLimited);
}

#[test]
fn hundredth_insertion_sweeps_stale_entries() {
    let mut engine = Engine::new(0);
    for i in 0..99 {
        engine.offer(path(i), 0);
    }
    assert_eq!(engine.tracked_paths(), 99);
    engine.offer(path(99), 3000);
    assert_eq!(engine.tracked_paths(), 1);
    assert_eq!(engine.last_accepted(&path(99)), Some(3000));
    assert_eq!(engine.last_accepted(&path(0)), None);
}

#[test]
fn sweep_keeps_entries_younger_than_ten_windows() {
    let mut engine = Engine::new(0);
    for i in 0..50 {
        engine.offer(path(i), 0);
    }
    for i in 50..99 {
        engine.offer(path(i), 1);
    }
    engine.offer(path(99), 3000);
    // Entries from instant 0 are exactly ten windows old and go; those from
    // instant 1 are younger and stay.
    assert_eq!(engine.tracked_paths(), 50);
    assert_eq!(engine.last_accepted(&path(49)), None);
    assert_eq!(engine.last_accepted(&path(50)), Some(1));
    assert_eq!(engine.last_accepted(&path(98)), Some(1));
}

#[test]
fn no_sweep_before_the_hundredth_insertion() {
    let mut engine = Engine::new(0);
    for i in 0..98 {
        engine.offer(path(i), 0);
    }
    engine.offer(path(98), 10_000);
    assert_eq!(engine.tracked_paths(), 99);
    engine.offer(path(99), 10_000);
    assert_eq!(engine.tracked_paths(), 2);
}

#[test]
fn refreshing_a_path_counts_as_an_insertion() {
    let mut engine = Engine::new(0);
    engine.offer(path(0), 0);
    for i in 1..100u64 {
        assert_eq!(engine.offer(path(1), i * 300), Verdict::Forwarded);
    }
    // The hundredth insertion swept: the first path is long stale.
    assert_eq!(engine.tracked_paths(), 1);
    assert_eq!(engine.last_accepted(&path(1)), Some(99 * 300));
}

#[test]
fn oversized_map_is_swept_on_every_insertion() {
    let mut engine = Engine::new(0);
    for i in 0..1001 {
        engine.offer(path(i), 0);
    }
    // All entries are fresh, so the sweeps so far removed nothing.
    assert_eq!(engine.tracked_paths(), 1001);
    // The last sweep reset the insertion counter; the next insertion sweeps
    // because of the size alone.
    engine.offer(path(5000), 4000);
    assert_eq!(engine.tracked_paths(), 1);
    assert_eq!(engine.last_accepted(&path(5000)), Some(4000));
}

#[test]
fn map_at_the_limit_is_not_swept_for_its_size() {
    let mut engine = Engine::new(0);
    for i in 0..500 {
        engine.offer(path(i), 0);
    }
    for i in 500..1001 {
        engine.offer(path(i), 2000);
    }
    assert_eq!(engine.tracked_paths(), 1001);
    // Over the limit: this insertion sweeps the 500 entries of instant 0 and
    // resets the insertion counter.
    engine.offer(path(2000), 3000);
    assert_eq!(engine.tracked_paths(), 502);
    for i in 0..497 {
        engine.offer(path(3000 + i), 3000);
    }
    assert_eq!(engine.tracked_paths(), 999);
    // Exactly at the limit, 98 insertions after the last sweep: no sweep,
    // although the entries of instant 2000 are stale by now.
    engine.offer(path(4000), 5000);
    assert_eq!(engine.tracked_paths(), 1000);
    assert_eq!(engine.last_accepted(&path(500)), Some(2000));
    // One more and the map is over the limit: the stale entries go.
    engine.offer(path(4001), 5000);
    assert_eq!(engine.tracked_paths(), 500);
    assert_eq!(engine.last_accepted(&path(500)), None);
    assert_eq!(engine.last_accepted(&path(2000)), Some(3000));
}

#[test]
fn three_rapid_events_for_one_path_yield_one() {
    let mut engine = Engine::new(0);
    let mut forwarded = 0;
    for at in [200u64, 250, 300] {
        if engine.offer("/watch/dedup_test.txt".to_string(), at) == Verdict::Forwarded {
            forwarded += 1;
        }
    }
    assert!(forwarded <= 2, "Expected at most 2 events due to deduplication, got {}", forwarded);
    assert_eq!(forwarded, 1);
}
