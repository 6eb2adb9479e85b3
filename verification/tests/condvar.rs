use coop_runtime::poll::Poll;
use coop_runtime::sync::{Condvar, CondvarWaiter, Mutex, MutexGuard, TryLock, WaitTimeoutResult};
use coop_runtime::time::{Duration, Instant};

fn locked<T>(mutex: &mut Mutex<T>) -> MutexGuard {
    match mutex.try_lock() {
        TryLock::Guard(guard) => guard,
        TryLock::WouldBlock => panic!("the mutex is free"),
    }
}

#[test]
fn a_waiter_gives_the_guard_back_and_waits_to_be_notified() {
    let mut mutex = Mutex::new(0u32);
    let mut condvar = Condvar::new();
    assert_eq!(condvar.next_id(), 0);
    let mut waiter = CondvarWaiter::new(locked(&mut mutex));
    assert!(matches!(condvar.wait(&mut waiter, &mut mutex), Poll::Pending));
    assert_eq!(condvar.next_id(), 1);
    assert!(!mutex.locked());
    assert!(matches!(condvar.wait(&mut waiter, &mut mutex), Poll::Pending));
    condvar.notify_one();
    let guard = match condvar.wait(&mut waiter, &mut mutex) {
        Poll::Ready(guard) => guard,
        Poll::Pending => panic!("the waiter was notified"),
    };
    assert!(mutex.locked());
    guard.unlock(&mut mutex);
}

#[test]
fn a_notified_waiter_needs_the_mutex_to_resume() {
    let mut mutex = Mutex::new(0u32);
    let mut condvar = Condvar::new();
    let mut waiter = CondvarWaiter::new(locked(&mut mutex));
    assert!(matches!(condvar.wait(&mut waiter, &mut mutex), Poll::Pending));
    let other = locked(&mut mutex);
    condvar.notify_all();
    assert!(matches!(condvar.wait(&mut waiter, &mut mutex), Poll::Pending));
    other.unlock(&mut mutex);
    assert!(matches!(condvar.wait(&mut waiter, &mut mutex), Poll::Ready(_)));
}

#[test]
fn notify_one_takes_the_waiter_that_came_last() {
    let mut mutex = Mutex::new(());
    let mut condvar = Condvar::new();
    let mut first = CondvarWaiter::new(locked(&mut mutex));
    assert!(matches!(condvar.wait(&mut first, &mut mutex), Poll::Pending));
    let mut second = CondvarWaiter::new(locked(&mut mutex));
    assert!(matches!(condvar.wait(&mut second, &mut mutex), Poll::Pending));
    let mut third = CondvarWaiter::new(locked(&mut mutex));
    assert!(matches!(condvar.wait(&mut third, &mut mutex), Poll::Pending));
    condvar.notify_one();
    assert!(matches!(condvar.wait(&mut first, &mut mutex), Poll::Pending));
    assert!(matches!(condvar.wait(&mut second, &mut mutex), Poll::Pending));
    match condvar.wait(&mut third, &mut mutex) {
        Poll::Ready(guard) => guard.unlock(&mut mutex),
        Poll::Pending => panic!("the last waiter was notified"),
    }
}

#[test]
fn notify_all_wakes_every_waiter() {
    let mut mutex = Mutex::new(());
    let mut condvar = Condvar::new();
    let mut waiters = Vec::new();
    for _ in 0..4 {
        let mut waiter = CondvarWaiter::new(locked(&mut mutex));
        assert!(matches!(condvar.wait(&mut waiter, &mut mutex), Poll::Pending));
        waiters.push(waiter);
    }
    for waiter in waiters.iter_mut() {
        assert!(matches!(condvar.wait(waiter, &mut mutex), Poll::Pending));
    }
    condvar.notify_all();
    for waiter in waiters.iter_mut() {
        match condvar.wait(waiter, &mut mutex) {
            Poll::Ready(guard) => guard.unlock(&mut mutex),
            Poll::Pending => panic!("every waiter was notified"),
        }
    }
    condvar.notify_one();
    condvar.notify_all();
    assert_eq!(condvar.next_id(), 4);
}

#[test]
fn a_waiter_resumes_exactly_when_the_value_reaches_five() {
    let mut mutex = Mutex::new(0u32);
    let mut condvar = Condvar::new();
    let below_five = |value: &u32| *value < 5;
    let mut waiter = CondvarWaiter::new(locked(&mut mutex));
    assert!(matches!(
        condvar.wait_while(&mut waiter, &mut mutex, &below_five),
        Poll::Pending
    ));
    let mut resumed_at = None;
    for _ in 0..8 {
        let mut guard = locked(&mut mutex);
        *guard.deref_mut(&mut mutex) += 1;
        guard.unlock(&mut mutex);
        condvar.notify_one();
        match condvar.wait_while(&mut waiter, &mut mutex, &below_five) {
            Poll::Ready(guard) => {
                resumed_at = Some(*guard.deref(&mutex));
                guard.unlock(&mut mutex);
                break;
            }
            Poll::Pending => {}
        }
    }
    assert_eq!(resumed_at, Some(5));
}

#[test]
fn a_predicate_alone_does_not_end_the_wait() {
    let mut mutex = Mutex::new(9u32);
    let mut condvar = Condvar::new();
    let below_five = |value: &u32| *value < 5;
    let mut waiter = CondvarWaiter::new(locked(&mut mutex));
    assert!(matches!(
        condvar.wait_while(&mut waiter, &mut mutex, &below_five),
        Poll::Pending
    ));
    assert!(matches!(
        condvar.wait_while(&mut waiter, &mut mutex, &below_five),
        Poll::Pending
    ));
    condvar.notify_all();
    assert!(matches!(
        condvar.wait_while(&mut waiter, &mut mutex, &below_five),
        Poll::Ready(_)
    ));
}

#[test]
fn a_wait_with_a_limit_reports_whether_the_time_ran_out() {
    let limit = Duration::from_millis(10);
    let start = Instant::from_nanos(1_000);
    let mut mutex = Mutex::new(());
    let mut condvar = Condvar::new();

    let mut waiter = CondvarWaiter::new(locked(&mut mutex));
    assert!(matches!(
        condvar.wait_timeout(&mut waiter, &mut mutex, limit, start),
        Poll::Pending
    ));
    assert!(matches!(
        condvar.wait_timeout(&mut waiter, &mut mutex, limit, Instant::from_nanos(10_000_999)),
        Poll::Pending
    ));
    match condvar.wait_timeout(&mut waiter, &mut mutex, limit, Instant::from_nanos(10_001_000)) {
        Poll::Ready((guard, result)) => {
            assert!(result.timed_out());
            assert_eq!(result, WaitTimeoutResult(true));
            guard.unlock(&mut mutex);
        }
        Poll::Pending => panic!("the time is up"),
    }

    let mut waiter = CondvarWaiter::new(locked(&mut mutex));
    assert!(matches!(
        condvar.wait_timeout(&mut waiter, &mut mutex, limit, start),
        Poll::Pending
    ));
    condvar.notify_all();
    match condvar.wait_timeout(&mut waiter, &mut mutex, limit, Instant::from_nanos(2_000)) {
        Poll::Ready((guard, result)) => {
            assert!(!result.timed_out());
            guard.unlock(&mut mutex);
        }
        Poll::Pending => panic!("the waiter was notified"),
    }
}

#[test]
fn a_wait_with_a_limit_and_a_predicate_ends_either_way() {
    let limit = Duration::from_millis(1);
    let mut mutex = Mutex::new(1u32);
    let mut condvar = Condvar::new();
    let odd = |value: &u32| *value % 2 == 1;

    let mut waiter = CondvarWaiter::new(locked(&mut mutex));
    let at = |nanos: u128| Instant::from_nanos(nanos);
    assert!(matches!(
        condvar.wait_timeout_while(&mut waiter, &mut mutex, limit, at(0), &odd),
        Poll::Pending
    ));
    condvar.notify_all();
    assert!(matches!(
        condvar.wait_timeout_while(&mut waiter, &mut mutex, limit, at(10), &odd),
        Poll::Pending
    ));
    *mutex.get_mut() = 2;
    match condvar.wait_timeout_while(&mut waiter, &mut mutex, limit, at(20), &odd) {
        Poll::Ready((guard, result)) => {
            assert!(!result.timed_out());
            guard.unlock(&mut mutex);
        }
        Poll::Pending => panic!("the value is even"),
    }

    *mutex.get_mut() = 1;
    let mut waiter = CondvarWaiter::new(locked(&mut mutex));
    assert!(matches!(
        condvar.wait_timeout_while(&mut waiter, &mut mutex, limit, at(0), &odd),
        Poll::Pending
    ));
    match condvar.wait_timeout_while(&mut waiter, &mut mutex, limit, at(1_000_000), &odd) {
        Poll::Ready((guard, result)) => {
            assert!(result.timed_out());
            guard.unlock(&mut mutex);
        }
        Poll::Pending => panic!("the time is up"),
    }
}

#[test]
fn a_waiter_that_leaves_takes_no_other_id_out_of_the_queue() {
    let limit = Duration::from_millis(1);
    let mut mutex = Mutex::new(());
    let mut condvar = Condvar::new();
    let mut patient = CondvarWaiter::new(locked(&mut mutex));
    assert!(matches!(condvar.wait(&mut patient, &mut mutex), Poll::Pending));
    let mut hasty = CondvarWaiter::new(locked(&mut mutex));
    let at = |nanos: u128| Instant::from_nanos(nanos);
    assert!(matches!(
        condvar.wait_timeout(&mut hasty, &mut mutex, limit, at(0)),
        Poll::Pending
    ));
    match condvar.wait_timeout(&mut hasty, &mut mutex, limit, at(5_000_000)) {
        Poll::Ready((guard, result)) => {
            assert!(result.timed_out());
            guard.unlock(&mut mutex);
        }
        Poll::Pending => panic!("the time is up"),
    }
    // The patient waiter was not notified: it stays.
    assert!(matches!(condvar.wait(&mut patient, &mut mutex), Poll::Pending));
    // The id of the waiter that ran out of time is still queued, and it came
    // last: the first notification takes it.
    condvar.notify_one();
    assert!(matches!(condvar.wait(&mut patient, &mut mutex), Poll::Pending));
    condvar.notify_one();
    match condvar.wait(&mut patient, &mut mutex) {
        Poll::Ready(guard) => guard.unlock(&mut mutex),
        Poll::Pending => panic!("the patient waiter was notified"),
    }
}

#[test]
fn one_notification_wakes_one_of_two_waiters() {
    let mut mutex = Mutex::new(());
    let mut condvar = Condvar::new();
    let mut first = CondvarWaiter::new(locked(&mut mutex));
    assert!(matches!(condvar.wait(&mut first, &mut mutex), Poll::Pending));
    let mut second = CondvarWaiter::new(locked(&mut mutex));
    assert!(matches!(condvar.wait(&mut second, &mut mutex), Poll::Pending));
    condvar.notify_one();
    match condvar.wait(&mut second, &mut mutex) {
        Poll::Ready(guard) => guard.unlock(&mut mutex),
        Poll::Pending => panic!("the waiter that came last was notified"),
    }
    for _ in 0..3 {
        assert!(matches!(condvar.wait(&mut first, &mut mutex), Poll::Pending));
    }
    condvar.notify_one();
    assert!(matches!(condvar.wait(&mut first, &mut mutex), Poll::Ready(_)));
}

#[test]
fn a_condition_variable_built_by_default_has_no_waiters() {
    let mut condvar = Condvar::default();
    assert_eq!(condvar.next_id(), 0);
    condvar.notify_one();
    condvar.notify_all();
    assert_eq!(condvar.next_id(), 0);
}
