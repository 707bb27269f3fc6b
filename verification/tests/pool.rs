use stream_throttle::{HoldHandle, QueueStep, ThrottlePool, ThrottleRate};

const MILLI: u64 = 1_000_000;

fn pool(count: usize, window: u64) -> ThrottlePool {
    ThrottlePool::new(ThrottleRate::new(count, window))
}

fn admitted<H>(step: &QueueStep<H>) -> Option<usize> {
    match step {
        QueueStep::Admitted { slot, .. } => Some(*slot),
        QueueStep::Sleep { .. } => None,
    }
}

fn sleep<H>(step: &QueueStep<H>) -> Option<u64> {
    match step {
        QueueStep::Admitted { .. } => None,
        QueueStep::Sleep { nanos } => Some(*nanos),
    }
}

fn handle(step: QueueStep<HoldHandle>) -> HoldHandle {
    match step {
        QueueStep::Admitted { handle, .. } => handle,
        QueueStep::Sleep { .. } => panic!("not admitted"),
    }
}

#[test]
fn single_admission_idle_pool() {
    let mut pool = pool(1, 50 * MILLI);
    let step = pool.queue(0, None);
    assert_eq!(admitted(&step), Some(0));
    assert_eq!(sleep(&step), None);
}

#[test]
fn idle_pool_admits_at_any_instant() {
    for now in [0, 1, 50 * MILLI, u64::MAX - 50 * MILLI] {
        let mut pool = pool(1, 50 * MILLI);
        assert_eq!(admitted(&pool.queue(now, None)), Some(0));
        let mut pool = self::pool(3, 50 * MILLI);
        assert_eq!(admitted(&pool.queue_with_hold(now, None)), Some(0));
    }
}

#[test]
fn slots_are_claimed_in_index_order() {
    let mut pool = pool(3, 100);
    assert_eq!(admitted(&pool.queue(0, None)), Some(0));
    assert_eq!(admitted(&pool.queue(10, None)), Some(1));
    assert_eq!(admitted(&pool.queue(20, None)), Some(2));
    assert_eq!(sleep(&pool.queue(30, None)), Some(70));
    assert_eq!(admitted(&pool.queue(100, None)), Some(0));
    assert_eq!(admitted(&pool.queue(120, None)), Some(1));
}

#[test]
fn sleep_is_the_shortest_wait() {
    let mut pool = pool(2, 100);
    assert_eq!(admitted(&pool.queue(0, None)), Some(0));
    assert_eq!(admitted(&pool.queue(30, None)), Some(1));
    assert_eq!(sleep(&pool.queue(50, None)), Some(50));
    assert_eq!(sleep(&pool.queue(99, None)), Some(1));
    let mut pool = self::pool(2, 100);
    assert_eq!(admitted(&pool.queue(30, None)), Some(0));
    assert_eq!(admitted(&pool.queue(0, None)), Some(1));
    assert_eq!(sleep(&pool.queue(50, None)), Some(50));
}

#[test]
fn sleep_is_never_longer_than_the_window() {
    let mut pool = pool(1, 100);
    assert_eq!(admitted(&pool.queue(1_000, None)), Some(0));
    assert_eq!(sleep(&pool.queue(1_000, None)), Some(100));
    assert_eq!(sleep(&pool.queue(0, None)), Some(100));
    assert_eq!(sleep(&pool.queue(1_001, None)), Some(99));
}

#[test]
fn refused_round_changes_nothing() {
    let mut pool = pool(2, 100);
    let _ = pool.queue(0, None);
    let _ = pool.queue(0, None);
    for _ in 0..5 {
        assert_eq!(sleep(&pool.queue(40, None)), Some(60));
    }
    let (_, slots) = pool.into_slots();
    assert_eq!(slots[0].wait_until(), 100);
    assert_eq!(slots[1].wait_until(), 100);
}

#[test]
fn admission_touches_only_the_claimed_slot() {
    let mut pool = pool(3, 100);
    let _ = pool.queue(0, None);
    let _ = pool.queue(5, None);
    let _ = pool.queue_with_hold(9, None);
    assert_eq!(admitted(&pool.queue(104, None)), Some(0));
    let (window, slots) = pool.into_slots();
    assert_eq!(window, 100);
    assert_eq!(slots[0].wait_until(), 204);
    assert_eq!(slots[1].wait_until(), 105);
    assert_eq!(slots[2].wait_until(), 109);
    assert!(!slots[0].is_held());
    assert!(!slots[1].is_held());
    assert!(slots[2].is_held());
}

#[test]
fn contended_slot_ends_the_round_without_sleep() {
    let mut pool = pool(2, 100);
    assert_eq!(sleep(&pool.queue(0, Some(0))), Some(0));
    assert_eq!(sleep(&pool.queue_with_hold(0, Some(0))), Some(0));
    assert_eq!(admitted(&pool.queue(0, Some(1))), Some(0));
    assert_eq!(sleep(&pool.queue(10, Some(1))), Some(0));
    assert_eq!(admitted(&pool.queue(10, None)), Some(1));
    assert_eq!(sleep(&pool.queue(20, Some(1))), Some(0));
    assert_eq!(sleep(&pool.queue(20, None)), Some(80));
}

#[test]
fn contention_beyond_the_last_slot_is_not_seen() {
    let mut pool = pool(2, 100);
    assert_eq!(admitted(&pool.queue(0, Some(2))), Some(0));
    assert_eq!(admitted(&pool.queue(0, Some(usize::MAX))), Some(1));
    assert_eq!(sleep(&pool.queue(25, Some(2))), Some(75));
}

#[test]
fn pacing_under_contention() {
    let window = 50 * MILLI;
    let mut pool = pool(1, window);
    let mut wake = [0u64; 4];
    let mut done = [false; 4];
    let mut admitted_at = Vec::new();
    let mut rounds = 0;
    while done.iter().any(|d| !d) {
        rounds += 1;
        assert!(rounds < 100);
        let mut next = 0;
        for caller in 0..4 {
            if !done[caller] && (done[next] || wake[caller] < wake[next]) {
                next = caller;
            }
        }
        let now = wake[next];
        match pool.queue(now, None) {
            QueueStep::Admitted { .. } => {
                done[next] = true;
                admitted_at.push(now);
            }
            QueueStep::Sleep { nanos } => wake[next] = now + nanos,
        }
    }
    assert_eq!(admitted_at, vec![0, window, 2 * window, 3 * window]);
    let total = *admitted_at.last().unwrap();
    assert!(total >= 3 * window);
    assert!(total < 4 * window);
}

#[test]
fn hold_extends_occupancy() {
    let window = 50 * MILLI;
    let mut pool = pool(1, window);
    let held = handle(pool.queue_with_hold(0, None));
    assert_eq!(sleep(&pool.queue(0, None)), Some(window));
    assert_eq!(sleep(&pool.queue(window - 1, None)), Some(1));
    for now in [window, window + 1, 2 * window, 100 * window] {
        assert_eq!(sleep(&pool.queue(now, None)), Some(0));
        assert_eq!(sleep(&pool.queue_with_hold(now, None)), Some(0));
    }
    held.release();
    assert_eq!(admitted(&pool.queue(100 * window, None)), Some(0));
}

#[test]
fn release_on_drop() {
    let window = 50 * MILLI;
    let mut pool = pool(1, window);
    let held = handle(pool.queue_with_hold(0, None));
    assert_eq!(sleep(&pool.queue(3 * window, None)), Some(0));
    drop(held);
    assert_eq!(admitted(&pool.queue(3 * window, None)), Some(0));
    assert_eq!(sleep(&pool.queue(3 * window, None)), Some(window));
}

#[test]
fn release_and_drop_free_the_slot_alike() {
    let window = 50 * MILLI;
    let mut released = pool(2, window);
    let mut dropped = pool(2, window);
    let a = handle(released.queue_with_hold(0, None));
    let b = handle(dropped.queue_with_hold(0, None));
    let _keep_a = handle(released.queue_with_hold(0, None));
    let _keep_b = handle(dropped.queue_with_hold(0, None));
    a.release();
    drop(b);
    for now in [10, window - 1, window, window + 7, 2 * window + 7, 9 * window] {
        let left = released.queue(now, None);
        let right = dropped.queue(now, None);
        assert_eq!(admitted(&left), admitted(&right));
        assert_eq!(sleep(&left), sleep(&right));
    }
    let (_, left) = released.into_slots();
    let (_, right) = dropped.into_slots();
    for i in 0..2 {
        assert_eq!(left[i].wait_until(), right[i].wait_until());
        assert_eq!(left[i].is_held(), right[i].is_held());
    }
}

#[test]
fn release_before_the_window_ends_does_not_shorten_it() {
    let mut pool = pool(1, 100);
    handle(pool.queue_with_hold(0, None)).release();
    assert_eq!(sleep(&pool.queue(1, None)), Some(99));
    assert_eq!(sleep(&pool.queue(99, None)), Some(1));
    assert_eq!(admitted(&pool.queue(100, None)), Some(0));
    assert_eq!(sleep(&pool.queue(150, None)), Some(50));
}

#[test]
fn released_slot_starts_a_new_window_for_its_next_holder() {
    let mut pool = pool(1, 100);
    handle(pool.queue_with_hold(0, None)).release();
    let second = handle(pool.queue_with_hold(130, None));
    assert_eq!(sleep(&pool.queue(200, None)), Some(30));
    assert_eq!(sleep(&pool.queue(230, None)), Some(0));
    second.release();
    assert_eq!(admitted(&pool.queue(230, None)), Some(0));
}

#[test]
fn held_slot_does_not_hide_a_vacant_one() {
    let mut pool = pool(2, 100);
    let held = handle(pool.queue_with_hold(0, None));
    assert_eq!(admitted(&pool.queue(100, None)), Some(1));
    assert_eq!(sleep(&pool.queue(150, None)), Some(0));
    assert_eq!(sleep(&pool.queue(199, None)), Some(0));
    drop(held);
    assert_eq!(admitted(&pool.queue(150, None)), Some(0));
    assert_eq!(sleep(&pool.queue(151, None)), Some(49));
}

#[test]
fn capacity_bound() {
    let window: u64 = 100;
    let count = 3;
    let mut pool = pool(count, window);
    let mut admissions = Vec::new();
    let mut now = 0;
    while now < 2_000 {
        for _ in 0..5 {
            if let QueueStep::Admitted { .. } = pool.queue(now, None) {
                admissions.push(now);
            }
        }
        now += 7;
    }
    assert!(admissions.len() > 2 * count);
    for start in 0..2_000u64 {
        let inside = admissions.iter().filter(|at| start <= **at && **at < start + window).count();
        assert!(inside <= count);
    }
}

#[test]
fn capacity_bound_with_a_clock_that_jumps() {
    let window: u64 = 100;
    let mut pool = pool(2, window);
    let mut admissions = Vec::new();
    for now in [500, 0, 650, 20, 500, 600, 599, 120, 700, 1, 640, 710, 800, 699] {
        if let QueueStep::Admitted { .. } = pool.queue(now, None) {
            admissions.push(now);
        }
    }
    assert_eq!(admissions, vec![500, 0, 650, 500, 600, 700, 800]);
    for start in 0..1_000u64 {
        let inside = admissions.iter().filter(|at| start <= **at && **at < start + window).count();
        assert!(inside <= 2);
    }
}
