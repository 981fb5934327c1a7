use manual_futures::waker::Parker;

#[test]
fn new_parker_has_no_wake_pending() {
    let mut parker = Parker::new();
    assert!(!parker.park());
}

#[test]
fn wake_before_park_is_not_lost() {
    let mut parker = Parker::new();
    parker.wake();
    assert!(parker.park());
}

#[test]
fn unpark_is_a_wake() {
    let mut parker = Parker::new();
    parker.unpark();
    assert!(parker.park());
}

#[test]
fn double_park_without_wake_blocks_both_times() {
    let mut parker = Parker::new();
    assert!(!parker.park());
    assert!(!parker.park());
}

#[test]
fn second_park_after_a_consumed_wake_blocks() {
    let mut parker = Parker::new();
    parker.wake();
    assert!(parker.park());
    assert!(!parker.park());
}

#[test]
fn wakes_coalesce_into_one_resumed_park() {
    let mut parker = Parker::new();
    parker.wake();
    parker.wake();
    parker.wake();
    assert!(parker.park());
    assert!(!parker.park());
}

#[test]
fn wake_between_two_parks_resumes_the_second() {
    let mut parker = Parker::new();
    assert!(!parker.park());
    parker.wake();
    assert!(parker.park());
}
