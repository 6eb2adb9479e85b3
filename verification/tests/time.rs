use coop_runtime::poll::Poll;
use coop_runtime::time::{Duration, Instant};

#[test]
fn poll_tells_ready_from_pending() {
    let ready: Poll<u8> = Poll::Ready(3);
    let pending: Poll<u8> = Poll::Pending;
    assert!(ready.is_ready());
    assert!(!ready.is_pending());
    assert!(pending.is_pending());
    assert!(!pending.is_ready());
}

#[test]
fn durations_are_counted_in_nanoseconds() {
    assert_eq!(Duration::from_millis(50).as_nanos(), 50_000_000);
    assert_eq!(Duration::from_secs(1).as_nanos(), 1_000_000_000);
    assert_eq!(Duration::from_nanos(17).as_nanos(), 17);
    assert_eq!(
        Duration::from_secs(u64::MAX).as_nanos(),
        u64::MAX as u128 * 1_000_000_000
    );
    assert!(Duration::from_millis(0).is_zero());
    assert!(!Duration::from_nanos(1).is_zero());
}

#[test]
fn doubling_stops_at_the_cap() {
    let cap = Duration::from_millis(400);
    assert_eq!(Duration::from_millis(50).doubled_up_to(cap), Duration::from_millis(100));
    assert_eq!(Duration::from_millis(200).doubled_up_to(cap), Duration::from_millis(400));
    assert_eq!(Duration::from_millis(300).doubled_up_to(cap), cap);
    assert_eq!(Duration::from_millis(400).doubled_up_to(cap), cap);
    assert_eq!(Duration::from_millis(900).doubled_up_to(cap), cap);
    let huge = Duration::from_nanos(u128::MAX);
    assert_eq!(Duration::from_nanos(u128::MAX - 1).doubled_up_to(huge), huge);
}

#[test]
fn instants_add_and_subtract_with_checks() {
    let start = Instant::from_nanos(1_000);
    assert_eq!(
        start.checked_add(Duration::from_nanos(500)),
        Some(Instant::from_nanos(1_500))
    );
    assert_eq!(
        Instant::from_nanos(u128::MAX).checked_add(Duration::from_nanos(1)),
        None
    );
    assert_eq!(
        Instant::from_nanos(1_500).checked_duration_since(start),
        Some(Duration::from_nanos(500))
    );
    assert_eq!(start.checked_duration_since(start), Some(Duration::from_nanos(0)));
    assert_eq!(start.checked_duration_since(Instant::from_nanos(1_001)), None);
    assert_eq!(start.as_nanos(), 1_000);
}

#[test]
fn a_deadline_has_passed_only_strictly_later() {
    let deadline = Instant::from_nanos(100);
    assert!(!deadline.has_passed(Instant::from_nanos(99)));
    assert!(!deadline.has_passed(Instant::from_nanos(100)));
    assert!(deadline.has_passed(Instant::from_nanos(101)));
}

#[test]
fn elapsed_time_is_never_negative() {
    let start = Instant::from_nanos(100);
    assert_eq!(start.elapsed(Instant::from_nanos(130)), Duration::from_nanos(30));
    assert_eq!(start.elapsed(Instant::from_nanos(100)), Duration::from_nanos(0));
    assert_eq!(start.elapsed(Instant::from_nanos(40)), Duration::from_nanos(0));
}
