pub mod barrier;
pub mod condvar;
pub mod mpsc;
pub mod mutex;
pub mod rwlock;

pub use barrier::{Barrier, BarrierState, BarrierWaitResult, BarrierWaiter};
pub use condvar::{Condvar, CondvarState, CondvarWaiter, WaitTimeoutResult};
pub use mutex::{Mutex, MutexGuard};
pub use rwlock::{RwLock, RwLockReadGuard, RwLockWriteGuard};

use vstd::prelude::*;

verus! {

/// The answer to an attempt to take a lock without waiting.
#[derive(Debug)]
pub enum TryLock<T> {
    /// The lock was free: this is its guard.
    Guard(T),
    /// The lock is held.
    WouldBlock,
}

} // verus!
