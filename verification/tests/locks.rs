use coop_runtime::poll::Poll;
use coop_runtime::sync::{Mutex, RwLock, TryLock};

#[test]
fn try_lock_is_refused_while_a_guard_is_out() {
    let mut mutex = Mutex::new(7u32);
    assert!(!mutex.locked());
    let guard = match mutex.try_lock() {
        TryLock::Guard(guard) => guard,
        TryLock::WouldBlock => panic!("a new mutex is free"),
    };
    assert!(mutex.locked());
    assert!(matches!(mutex.try_lock(), TryLock::WouldBlock));
    assert!(matches!(mutex.lock(), Poll::Pending));
    assert!(mutex.locked());
    guard.unlock(&mut mutex);
    assert!(!mutex.locked());
    assert!(matches!(mutex.try_lock(), TryLock::Guard(_)));
}

#[test]
fn at_most_one_guard_is_out_however_tasks_take_turns() {
    let mut mutex = Mutex::new(0u32);
    let mut guards = Vec::new();
    let mut most = 0;
    // A fixed but irregular order of attempts (even) and releases (odd).
    let mut seed: u32 = 12345;
    for _ in 0..1000 {
        seed = seed.wrapping_mul(1103515245).wrapping_add(12345);
        if (seed >> 16) % 3 != 0 {
            if let Poll::Ready(guard) = mutex.lock() {
                guards.push(guard);
            }
        } else if let Some(guard) = guards.pop() {
            guard.unlock(&mut mutex);
        }
        most = most.max(guards.len());
        assert_eq!(mutex.locked(), guards.len() == 1);
    }
    assert_eq!(most, 1);
}

#[test]
fn the_guard_gives_the_value() {
    let mut mutex = Mutex::new(String::from("a"));
    let mut guard = match mutex.lock() {
        Poll::Ready(guard) => guard,
        Poll::Pending => panic!("a new mutex is free"),
    };
    assert_eq!(guard.deref(&mutex), "a");
    guard.deref_mut(&mut mutex).push('b');
    assert_eq!(guard.deref(&mutex), "ab");
    guard.unlock(&mut mutex);
    mutex.get_mut().push('c');
    assert_eq!(mutex.into_inner(), "abc");
}

#[test]
fn a_mutex_built_by_default_is_free() {
    let mut mutex: Mutex<u8> = Mutex::default();
    assert!(!mutex.locked());
    assert!(matches!(mutex.try_lock(), TryLock::Guard(_)));
    assert_eq!(mutex.into_inner(), 0);
}

#[test]
fn the_number_of_a_lock_says_who_holds_it() {
    let mut lock = RwLock::new(5u32);
    assert_eq!(lock.locked(), 1);
    let first = match lock.try_read() {
        TryLock::Guard(guard) => guard,
        TryLock::WouldBlock => panic!("an idle lock admits readers"),
    };
    assert_eq!(lock.locked(), 2);
    let second = match lock.read() {
        Poll::Ready(guard) => guard,
        Poll::Pending => panic!("readers admit readers"),
    };
    assert_eq!(lock.locked(), 3);
    assert!(matches!(lock.try_write(), TryLock::WouldBlock));
    assert!(matches!(lock.write(), Poll::Pending));
    assert_eq!(lock.locked(), 3);
    assert_eq!(*first.deref(&lock), 5);
    first.unlock(&mut lock);
    assert_eq!(lock.locked(), 2);
    assert!(matches!(lock.try_write(), TryLock::WouldBlock));
    second.unlock(&mut lock);
    assert_eq!(lock.locked(), 1);
    let mut writer = match lock.try_write() {
        TryLock::Guard(guard) => guard,
        TryLock::WouldBlock => panic!("an idle lock admits a writer"),
    };
    assert_eq!(lock.locked(), 0);
    assert!(matches!(lock.try_read(), TryLock::WouldBlock));
    assert!(matches!(lock.read(), Poll::Pending));
    assert!(matches!(lock.try_write(), TryLock::WouldBlock));
    assert!(matches!(lock.write(), Poll::Pending));
    assert_eq!(lock.locked(), 0);
    *writer.deref_mut(&mut lock) += 1;
    assert_eq!(*writer.deref(&lock), 6);
    writer.unlock(&mut lock);
    assert_eq!(lock.locked(), 1);
    assert!(matches!(lock.write(), Poll::Ready(_)));
}

#[test]
fn a_writer_is_alone_however_tasks_take_turns() {
    let mut lock = RwLock::new(());
    let mut readers = Vec::new();
    let mut writers = Vec::new();
    let mut seed: u32 = 99;
    let mut seen_readers = 0;
    let mut seen_writer = false;
    for _ in 0..2000 {
        seed = seed.wrapping_mul(1103515245).wrapping_add(12345);
        match (seed >> 16) % 5 {
            0 | 1 => {
                if let TryLock::Guard(guard) = lock.try_read() {
                    readers.push(guard);
                }
            }
            2 => {
                if let TryLock::Guard(guard) = lock.try_write() {
                    writers.push(guard);
                }
            }
            3 => {
                if let Some(guard) = readers.pop() {
                    guard.unlock(&mut lock);
                }
            }
            _ => {
                if let Some(guard) = writers.pop() {
                    guard.unlock(&mut lock);
                }
            }
        }
        assert!(writers.len() <= 1);
        assert!(writers.is_empty() || readers.is_empty());
        let expected = if writers.len() == 1 { 0 } else { readers.len() + 1 };
        assert_eq!(lock.locked(), expected);
        seen_readers = seen_readers.max(readers.len());
        seen_writer |= writers.len() == 1;
    }
    assert!(seen_readers >= 2);
    assert!(seen_writer);
}

#[test]
fn a_lock_built_by_default_is_idle() {
    let mut lock: RwLock<u8> = RwLock::default();
    assert_eq!(lock.locked(), 1);
    assert!(matches!(lock.try_write(), TryLock::Guard(_)));
    *lock.get_mut() = 4;
    assert_eq!(lock.into_inner(), 4);
}

#[test]
fn a_value_turns_into_a_free_lock() {
    let mut mutex = Mutex::from(3u8);
    assert!(!mutex.locked());
    assert_eq!(*mutex.get_mut(), 3);
    let mut lock = RwLock::from(4u8);
    assert_eq!(lock.locked(), 1);
    assert_eq!(*lock.get_mut(), 4);
}

#[test]
fn a_lock_built_by_default_holds_the_default_value() {
    let mut mutex: Mutex<u32> = Mutex::default();
    let guard = match mutex.try_lock() {
        TryLock::Guard(guard) => guard,
        TryLock::WouldBlock => panic!("a mutex built by default is free"),
    };
    assert_eq!(*guard.deref(&mutex), 0);
    let mut lock: RwLock<String> = RwLock::default();
    let writer = match lock.try_write() {
        TryLock::Guard(guard) => guard,
        TryLock::WouldBlock => panic!("a lock built by default is idle"),
    };
    assert_eq!(writer.deref(&lock), "");
}
