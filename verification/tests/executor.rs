use manual_futures::error::Error;
use manual_futures::task::Poll;
use manual_futures::waker::Parker;
use manual_futures::waker_executor::{Backoff, Executor, Step, NAIVE_SLEEP_MILLIS};

#[test]
fn a_new_executor_attempts_first() {
    let executor = Executor::new(Backoff::Park, "waker");
    assert!(executor.may_attempt());
    assert_eq!(*executor.waker(), "waker");
}

#[test]
fn a_ready_task_is_returned() {
    let mut executor = Executor::new(Backoff::Park, ());
    assert!(matches!(executor.block_on(Ok(Poll::Ready(42))), Step::Return(42)));
    assert!(!executor.may_attempt());
}

#[test]
fn an_error_aborts_the_run_at_once() {
    let mut executor = Executor::new(Backoff::Park, ());
    let step = executor.block_on::<u8>(Err(Error::IoError));
    assert!(matches!(step, Step::Abort(Error::IoError)));
    assert!(!executor.may_attempt());
    let mut executor = Executor::new(Backoff::Sleep, ());
    let step = executor.block_on::<u8>(Err(Error::ConnectError));
    assert!(matches!(step, Step::Abort(Error::ConnectError)));
}

#[test]
fn a_pending_task_waits_as_the_policy_says() {
    let mut executor = Executor::new(Backoff::Park, ());
    assert!(matches!(executor.block_on::<u8>(Ok(Poll::Pending)), Step::Wait(Backoff::Park)));
    let mut executor = Executor::new(Backoff::Sleep, ());
    assert!(matches!(executor.block_on::<u8>(Ok(Poll::Pending)), Step::Wait(Backoff::Sleep)));
    let mut executor = Executor::new(Backoff::Multiplexer, ());
    assert!(matches!(
        executor.block_on::<u8>(Ok(Poll::Pending)),
        Step::Wait(Backoff::Multiplexer)
    ));
}

#[test]
fn naive_sleep_is_20_ms() {
    assert_eq!(NAIVE_SLEEP_MILLIS, 20);
}

#[test]
fn no_busy_waiting_while_nobody_wakes() {
    let mut executor = Executor::new(Backoff::Park, ());
    let mut parker = Parker::new();
    executor.block_on::<u8>(Ok(Poll::Pending));
    for _ in 0..1000 {
        assert!(!executor.park(&mut parker));
        executor.resume();
        assert!(!executor.may_attempt());
    }
    parker.wake();
    assert!(executor.park(&mut parker));
    assert!(executor.may_attempt());
    assert!(!parker.park());
}

#[test]
fn a_wake_before_the_park_lets_the_executor_go_on_at_once() {
    let mut executor = Executor::new(Backoff::Park, ());
    let mut parker = Parker::new();
    parker.wake();
    executor.block_on::<u8>(Ok(Poll::Pending));
    assert!(executor.park(&mut parker));
}

#[test]
fn an_executor_that_attempts_leaves_the_parker_alone() {
    let mut executor = Executor::new(Backoff::Park, ());
    let mut parker = Parker::new();
    parker.wake();
    assert!(executor.park(&mut parker));
    assert!(parker.park());
}

#[test]
fn a_finished_executor_stays_finished() {
    let mut executor = Executor::new(Backoff::Park, ());
    let mut parker = Parker::new();
    executor.block_on(Ok(Poll::Ready(1)));
    parker.wake();
    assert!(!executor.park(&mut parker));
    executor.resume();
    assert!(!executor.may_attempt());
    assert!(parker.park());
}

#[test]
fn the_busy_policies_resume_without_a_wake() {
    let mut parker = Parker::new();
    let mut executor = Executor::new(Backoff::Sleep, ());
    executor.block_on::<u8>(Ok(Poll::Pending));
    assert!(!executor.may_attempt());
    assert!(!executor.park(&mut parker));
    executor.resume();
    assert!(executor.may_attempt());
    let mut executor = Executor::new(Backoff::Multiplexer, ());
    executor.block_on::<u8>(Ok(Poll::Pending));
    executor.resume();
    assert!(executor.may_attempt());
}

#[test]
fn a_sleeping_executor_does_not_use_wakes_up() {
    let mut parker = Parker::new();
    parker.wake();
    let mut executor = Executor::new(Backoff::Sleep, ());
    executor.block_on::<u8>(Ok(Poll::Pending));
    assert!(!executor.park(&mut parker));
    assert!(parker.park());
}
