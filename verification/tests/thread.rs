use coop_runtime::poll::Poll;
use coop_runtime::runtime::{FutureQueue, ThreadLocal, Wake};
use coop_runtime::thread::{sleep, sleep_util, spawn, yield_now, JoinHandle, PollHandle};
use coop_runtime::time::{Duration, Instant};

#[test]
fn a_handle_is_pending_until_the_computation_is_ready() {
    let mut handle: JoinHandle<u32, &str> = JoinHandle(PollHandle::new("computation"));
    assert!(matches!(handle.poll(), Poll::Pending));
    assert_eq!(handle.future(), Some(&mut "computation"));
    assert!(matches!(handle.advance(Poll::Pending), Poll::Pending));
    assert!(matches!(handle.poll(), Poll::Pending));
    assert!(matches!(handle.advance(Poll::Ready(42)), Poll::Ready(())));
    assert_eq!(handle.future(), None);
    assert!(!handle.is_taken());
    assert!(matches!(handle.poll(), Poll::Ready(42)));
    assert!(handle.is_taken());
}

#[test]
fn a_cell_takes_a_value_once() {
    let mut handle: JoinHandle<u32, ()> = JoinHandle(PollHandle::new(()));
    assert!(matches!(handle.advance(Poll::Ready(1)), Poll::Ready(())));
    assert!(matches!(handle.advance(Poll::Ready(2)), Poll::Pending));
    assert!(matches!(handle.poll(), Poll::Ready(1)));
    assert!(matches!(handle.advance(Poll::Ready(3)), Poll::Pending));
    assert!(handle.is_taken());
    assert!(matches!(handle.0, PollHandle::Ready(None)));
}

#[test]
fn spawn_queues_the_task_that_drives_the_computation() {
    let mut local = ThreadLocal::new();
    FutureQueue::new().set_thread_local(&mut local);
    let (first, wake): (JoinHandle<u32, &str>, Wake) = spawn(&mut local, 'a', "one");
    assert_eq!(wake, Wake::One);
    let (second, wake): (JoinHandle<u32, &str>, Wake) = spawn(&mut local, 'b', "two");
    assert_eq!(wake, Wake::One);
    assert!(matches!(first.0, PollHandle::Pending("one")));
    assert!(matches!(second.0, PollHandle::Pending("two")));
    assert_eq!(FutureQueue::get_thread_local(&mut local).drain(), vec!['a', 'b']);
}

#[test]
fn a_pause_is_over_only_after_its_time() {
    let pause = sleep(Instant::from_nanos(1_000), Duration::from_millis(2));
    assert_eq!(pause.deadline, Instant::from_nanos(2_001_000));
    assert!(matches!(pause.poll(Instant::from_nanos(1_000)), Poll::Pending));
    assert!(matches!(pause.poll(Instant::from_nanos(2_000_999)), Poll::Pending));
    assert!(matches!(pause.poll(Instant::from_nanos(2_001_000)), Poll::Pending));
    assert!(matches!(pause.poll(Instant::from_nanos(2_001_001)), Poll::Ready(())));
    let until = sleep_util(Instant::from_nanos(5));
    assert!(matches!(until.poll(Instant::from_nanos(5)), Poll::Pending));
    assert!(matches!(until.poll(Instant::from_nanos(6)), Poll::Ready(())));
    let none = sleep(Instant::from_nanos(9), Duration::from_nanos(0));
    assert!(matches!(none.poll(Instant::from_nanos(9)), Poll::Pending));
    assert!(matches!(none.poll(Instant::from_nanos(10)), Poll::Ready(())));
}

#[test]
fn yield_now_is_pending_exactly_once() {
    let mut pause = yield_now();
    assert!(matches!(pause.poll(), Poll::Pending));
    assert!(matches!(pause.poll(), Poll::Ready(())));
    assert!(matches!(pause.poll(), Poll::Ready(())));
}
