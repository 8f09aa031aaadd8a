use std::sync::Arc;
use std::time::Duration;

use execution_sandbox::limiter::{
    drain_step, is_slow_acquire, DrainStep, VmConcurrencyBarrier, VmConcurrencyLimiter, VmPermit,
    MAX_CONCURRENCY, POLL_INTERVAL_MS, SLOW_ACQUIRE_NANOS,
};
use tokio::runtime::{Builder, Runtime};
use tokio::sync::{Semaphore, TryAcquireError};

fn runtime() -> Runtime {
    Builder::new_current_thread().enable_time().build().expect("runtime")
}

fn limiter(runtime: &Runtime, capacity: usize) -> (VmConcurrencyLimiter, VmConcurrencyBarrier) {
    VmConcurrencyLimiter::with_handle(capacity, runtime.handle().clone())
}

/// Waits for a permit the way a request handler does.
fn acquire(runtime: &Runtime, limiter: &VmConcurrencyLimiter) -> Option<VmPermit> {
    let acquired = runtime.block_on(limiter.semaphore().acquire_owned());
    limiter.acquire(acquired)
}

/// Whether waiting for a permit is still suspended after `millis`.
fn acquire_suspends(runtime: &Runtime, limiter: &VmConcurrencyLimiter, millis: u64) -> bool {
    let _guard = runtime.enter();
    let wait = tokio::time::timeout(
        Duration::from_millis(millis),
        limiter.semaphore().acquire_owned(),
    );
    runtime.block_on(wait).is_err()
}

/// Lets the runtime run its tasks for `millis`.
fn nap(runtime: &Runtime, millis: u64) {
    let _guard = runtime.enter();
    runtime.block_on(tokio::time::sleep(Duration::from_millis(millis)));
}

#[test]
fn limiter_needs_a_runtime() {
    assert!(VmConcurrencyLimiter::new(4).is_none());
}

#[test]
fn limiter_takes_the_handle_of_the_current_runtime() {
    let runtime = runtime();
    let other = runtime_with_other_id(&runtime);
    let made = {
        let _guard = runtime.enter();
        VmConcurrencyLimiter::new(2)
    };
    let (limiter, barrier) = made.expect("inside a runtime");
    assert_eq!(barrier.max_concurrency(), 2);
    let permit = acquire(&runtime, &limiter).expect("open limiter");
    assert_eq!(permit.rt_handle().id(), runtime.handle().id());
    assert_ne!(permit.rt_handle().id(), other.handle().id());
}

fn runtime_with_other_id(first: &Runtime) -> Runtime {
    let other = runtime();
    assert_ne!(first.handle().id(), other.handle().id());
    other
}

#[test]
fn permits_carry_the_limiter_handle() {
    let runtime = runtime();
    let other = runtime_with_other_id(&runtime);
    let (limiter, _barrier) = limiter(&other, 1);
    let permit = acquire(&runtime, &limiter).expect("open limiter");
    assert_eq!(permit.rt_handle().id(), other.handle().id());
    assert_ne!(permit.rt_handle().id(), runtime.handle().id());
    let copy = permit.clone();
    assert_eq!(copy.rt_handle().id(), other.handle().id());
}

#[test]
fn limiter_and_barrier_share_one_semaphore() {
    let runtime = runtime();
    let (limiter, barrier) = limiter(&runtime, 3);
    assert_eq!(barrier.max_concurrency(), 3);
    assert_eq!(limiter.available_permits(), 3);
    assert!(Arc::ptr_eq(&limiter.semaphore(), &limiter.semaphore()));
    assert!(!barrier.is_closed());
    assert!(!limiter.semaphore().is_closed());
    barrier.close();
    assert!(barrier.is_closed());
    assert!(limiter.semaphore().is_closed());
}

#[test]
fn capacity_many_acquires_succeed_and_one_more_suspends() {
    let runtime = runtime();
    for capacity in [1usize, 2, 5] {
        let (limiter, _barrier) = limiter(&runtime, capacity);
        let mut permits = Vec::new();
        for taken in 0..capacity {
            assert_eq!(limiter.available_permits(), capacity - taken);
            assert!(!acquire_suspends(&runtime, &limiter, 0));
            permits.push(acquire(&runtime, &limiter).expect("open limiter"));
        }
        assert_eq!(limiter.available_permits(), 0);
        assert!(acquire_suspends(&runtime, &limiter, 20));
        assert_eq!(
            limiter.semaphore().try_acquire_owned().err(),
            Some(TryAcquireError::NoPermits)
        );

        permits.pop();
        assert_eq!(limiter.available_permits(), 1);
        let again = acquire(&runtime, &limiter);
        assert!(again.is_some());
        assert_eq!(limiter.available_permits(), 0);
        assert!(acquire_suspends(&runtime, &limiter, 20));
    }
}

#[test]
fn waiting_acquire_is_granted_on_release() {
    let runtime = runtime();
    let (limiter, _barrier) = limiter(&runtime, 1);
    let first = acquire(&runtime, &limiter).expect("open limiter");
    let waiting = runtime.spawn(limiter.semaphore().acquire_owned());
    nap(&runtime, 10);
    assert!(!waiting.is_finished());
    drop(first);
    let acquired = runtime.block_on(waiting).expect("task");
    let second = limiter.acquire(acquired);
    assert!(second.is_some());
    assert_eq!(limiter.available_permits(), 0);
    drop(second);
    assert_eq!(limiter.available_permits(), 1);
}

#[test]
fn cloned_permit_releases_once_with_its_last_copy() {
    let runtime = runtime();
    let (limiter, _barrier) = limiter(&runtime, 2);
    let permit = acquire(&runtime, &limiter).expect("open limiter");
    let copy = permit.clone();
    assert_eq!(limiter.available_permits(), 1);
    drop(permit);
    assert_eq!(limiter.available_permits(), 1);
    drop(copy);
    assert_eq!(limiter.available_permits(), 2);
}

#[test]
fn abandoned_wait_takes_no_permit() {
    let runtime = runtime();
    let (limiter, _barrier) = limiter(&runtime, 1);
    let held = acquire(&runtime, &limiter).expect("open limiter");
    assert!(acquire_suspends(&runtime, &limiter, 5));
    drop(held);
    assert_eq!(limiter.available_permits(), 1);
}

#[test]
fn closed_limiter_issues_no_permits() {
    let runtime = runtime();
    let (limiter, barrier) = limiter(&runtime, 2);
    let outstanding = acquire(&runtime, &limiter).expect("open limiter");
    barrier.close();
    assert!(acquire(&runtime, &limiter).is_none());
    assert!(acquire(&runtime, &limiter).is_none());
    drop(outstanding);
    assert_eq!(limiter.available_permits(), 2);
    assert!(acquire(&runtime, &limiter).is_none());
    barrier.close();
    assert!(barrier.is_closed());
    assert!(acquire(&runtime, &limiter).is_none());
}

#[test]
fn closing_turns_waiting_acquires_away() {
    let runtime = runtime();
    let (limiter, barrier) = limiter(&runtime, 1);
    let _held = acquire(&runtime, &limiter).expect("open limiter");
    let waiting = runtime.spawn(limiter.semaphore().acquire_owned());
    nap(&runtime, 10);
    assert!(!waiting.is_finished());
    barrier.clone().close();
    let acquired = runtime.block_on(waiting).expect("task");
    assert!(limiter.acquire(acquired).is_none());
}

#[test]
fn acquire_passes_the_given_permit_on() {
    let runtime = runtime();
    let (limiter, _barrier) = limiter(&runtime, 1);
    let foreign = Arc::new(Semaphore::new(3));
    let acquired = runtime.block_on(Arc::clone(&foreign).acquire_owned());
    let permit = limiter.acquire(acquired).expect("a permit was given");
    assert_eq!(foreign.available_permits(), 2);
    assert_eq!(limiter.available_permits(), 1);
    drop(permit);
    assert_eq!(foreign.available_permits(), 3);
}

#[test]
fn waiting_on_an_open_limiter_is_refused() {
    let runtime = runtime();
    let (limiter, barrier) = limiter(&runtime, 2);
    assert_eq!(barrier.wait_until_stopped(), DrainStep::NotClosed);
    let _permit = acquire(&runtime, &limiter);
    assert_eq!(barrier.wait_until_stopped(), DrainStep::NotClosed);
}

#[test]
fn wait_until_stopped_ends_when_the_last_permit_is_back() {
    let runtime = runtime();
    let (limiter, barrier) = limiter(&runtime, 3);
    let first = acquire(&runtime, &limiter).expect("open limiter");
    let second = acquire(&runtime, &limiter).expect("open limiter");
    barrier.close();
    assert_eq!(barrier.wait_until_stopped(), DrainStep::Sleep { millis: 50, remaining: 2 });
    drop(first);
    assert_eq!(barrier.wait_until_stopped(), DrainStep::Sleep { millis: 50, remaining: 1 });
    assert_eq!(barrier.wait_until_stopped(), DrainStep::Sleep { millis: 50, remaining: 1 });
    drop(second);
    assert_eq!(barrier.wait_until_stopped(), DrainStep::Stopped);
    assert_eq!(barrier.wait_until_stopped(), DrainStep::Stopped);
}

#[test]
fn wait_until_stopped_ends_at_once_without_permits_out() {
    let runtime = runtime();
    let (_limiter, barrier) = limiter(&runtime, 4);
    barrier.close();
    assert_eq!(barrier.wait_until_stopped(), DrainStep::Stopped);
}

#[test]
fn drain_loop_stops_within_one_interval_of_the_last_release() {
    let runtime = runtime();
    let (limiter, barrier) = limiter(&runtime, 1);
    let permit = acquire(&runtime, &limiter).expect("open limiter");
    barrier.close();
    let mut polls = 0;
    let mut held = Some(permit);
    loop {
        match barrier.wait_until_stopped() {
            DrainStep::Stopped => break,
            DrainStep::Sleep { millis, remaining } => {
                assert_eq!(millis, POLL_INTERVAL_MS);
                assert_eq!(remaining, 1);
                held.take();
                polls += 1;
            }
            DrainStep::NotClosed => panic!("the limiter was closed"),
        }
    }
    assert_eq!(polls, 1);
}

#[test]
fn drain_step_decides_from_what_was_read() {
    assert_eq!(drain_step(false, 0, 4), DrainStep::NotClosed);
    assert_eq!(drain_step(false, 4, 4), DrainStep::NotClosed);
    assert_eq!(drain_step(true, 4, 4), DrainStep::Stopped);
    assert_eq!(drain_step(true, 0, 4), DrainStep::Sleep { millis: 50, remaining: 4 });
    assert_eq!(drain_step(true, 3, 4), DrainStep::Sleep { millis: 50, remaining: 1 });
    assert_eq!(drain_step(true, 0, 0), DrainStep::Stopped);
    assert_eq!(
        drain_step(true, 0, usize::MAX),
        DrainStep::Sleep { millis: 50, remaining: usize::MAX }
    );
}

#[test]
fn drain_step_keeps_waiting_on_a_count_above_capacity() {
    assert_eq!(drain_step(true, 5, 4), DrainStep::Sleep { millis: 50, remaining: 0 });
}

#[test]
fn slow_acquire_threshold_is_ten_milliseconds() {
    assert_eq!(SLOW_ACQUIRE_NANOS, Duration::from_millis(10).as_nanos());
    assert!(!is_slow_acquire(0));
    assert!(!is_slow_acquire(Duration::from_millis(10).as_nanos()));
    assert!(is_slow_acquire(Duration::from_millis(10).as_nanos() + 1));
    assert!(is_slow_acquire(Duration::from_secs(1).as_nanos()));
}

#[test]
fn constants_match_the_semaphore() {
    assert_eq!(MAX_CONCURRENCY, Semaphore::MAX_PERMITS);
    assert_eq!(POLL_INTERVAL_MS, 50);
}

#[test]
fn limiter_accepts_the_largest_capacity() {
    let runtime = runtime();
    let (limiter, barrier) = limiter(&runtime, MAX_CONCURRENCY);
    assert_eq!(limiter.available_permits(), MAX_CONCURRENCY);
    let permit = acquire(&runtime, &limiter).expect("open limiter");
    barrier.close();
    assert_eq!(
        barrier.wait_until_stopped(),
        DrainStep::Sleep { millis: 50, remaining: 1 }
    );
    drop(permit);
    assert_eq!(barrier.wait_until_stopped(), DrainStep::Stopped);
}

#[test]
fn limiter_is_made_exactly_when_a_runtime_was_found() {
    assert!(VmConcurrencyLimiter::in_runtime(2, None).is_none());

    let runtime = runtime();
    let (limiter, barrier) = VmConcurrencyLimiter::in_runtime(2, Some(runtime.handle().clone()))
        .expect("a handle was given");
    assert_eq!(barrier.max_concurrency(), 2);
    assert_eq!(limiter.available_permits(), 2);
    let permit = acquire(&runtime, &limiter).expect("open limiter");
    assert_eq!(permit.rt_handle().id(), runtime.handle().id());
    barrier.close();
    assert!(limiter.semaphore().is_closed());
}
