use crate::poll::Poll;
use crate::sync::TryLock;
use vstd::prelude::*;

verus! {

/// The right to read the value of a lock. It is used up when it is given back.
#[derive(Debug)]
pub struct RwLockReadGuard {
    held: (),
}

/// The right to read and change the value of a lock. It is used up when it is
/// given back.
#[derive(Debug)]
pub struct RwLockWriteGuard {
    held: (),
}

/// A value and the lock that protects it, for many readers or one writer.
///
/// The lock is one number: 0 while a writer holds it, 1 while nobody does,
/// and one more than the number of readers while readers do.
#[derive(Debug)]
pub struct RwLock<T> {
    locked: usize,
    value: T,
}

/// The number of a lock that nobody holds.
pub const IDLE: usize = 1;

/// What a reader's attempt does to the number of a lock: the number
/// afterwards, and whether the reader got in. A reader gets in unless a
/// writer holds the lock.
pub open spec fn spec_read(state: usize) -> (usize, bool) {
    if state > 0 {
        ((state + 1) as usize, true)
    } else {
        (state, false)
    }
}

/// What a writer's attempt does to the number of a lock: the number
/// afterwards, and whether the writer got in. A writer gets in only while
/// nobody holds the lock.
pub open spec fn spec_write(state: usize) -> (usize, bool) {
    if state == IDLE {
        (0, true)
    } else {
        (state, false)
    }
}

impl<T> RwLock<T> {
    /// The number of the lock.
    pub closed spec fn state(&self) -> usize {
        self.locked
    }

    /// The value that the lock protects.
    pub closed spec fn value(&self) -> T {
        self.value
    }

    /// Whether a writer holds the lock.
    pub open spec fn has_writer(&self) -> bool {
        self.state() == 0
    }

    /// The number of readers that hold the lock.
    pub open spec fn readers(&self) -> nat {
        if self.state() >= 2 {
            (self.state() - 1) as nat
        } else {
            0
        }
    }

    pub fn new(t: T) -> (lock: RwLock<T>)
        ensures
            lock.state() == IDLE,
            lock.value() == t,
    {
        RwLock { locked: IDLE, value: t }
    }

    /// One poll of locking for reading: the guard unless a writer holds the
    /// lock, `Pending` while one does. The lock cannot count more readers
    /// than a `usize` holds.
    pub fn read(&mut self) -> (r: Poll<RwLockReadGuard>)
        requires
            old(self).state() < usize::MAX,
        ensures
            (final(self).state(), r is Ready) == spec_read(old(self).state()),
            final(self).value() == old(self).value(),
    {
        if self.locked > 0 {
            self.locked = self.locked + 1;
            Poll::Ready(RwLockReadGuard { held: () })
        } else {
            Poll::Pending
        }
    }

    /// Locks for reading unless a writer holds the lock, and says so at once
    /// if one does.
    pub fn try_read(&mut self) -> (r: TryLock<RwLockReadGuard>)
        requires
            old(self).state() < usize::MAX,
        ensures
            (final(self).state(), r is Guard) == spec_read(old(self).state()),
            final(self).value() == old(self).value(),
    {
        if self.locked > 0 {
            self.locked = self.locked + 1;
            TryLock::Guard(RwLockReadGuard { held: () })
        } else {
            TryLock::WouldBlock
        }
    }

    /// One poll of locking for writing: the guard if nobody holds the lock,
    /// `Pending` while anybody does.
    pub fn write(&mut self) -> (r: Poll<RwLockWriteGuard>)
        ensures
            (final(self).state(), r is Ready) == spec_write(old(self).state()),
            final(self).value() == old(self).value(),
    {
        if self.locked == IDLE {
            self.locked = 0;
            Poll::Ready(RwLockWriteGuard { held: () })
        } else {
            Poll::Pending
        }
    }

    /// Locks for writing if nobody holds the lock, and says so at once if
    /// anybody does.
    pub fn try_write(&mut self) -> (r: TryLock<RwLockWriteGuard>)
        ensures
            (final(self).state(), r is Guard) == spec_write(old(self).state()),
            final(self).value() == old(self).value(),
    {
        if self.locked == IDLE {
            self.locked = 0;
            TryLock::Guard(RwLockWriteGuard { held: () })
        } else {
            TryLock::WouldBlock
        }
    }

    /// Gives the value up; the lock is no more.
    pub fn into_inner(self) -> (t: T)
        ensures
            t == self.value(),
    {
        self.value
    }

    /// The value, for a caller who holds the lock itself exclusively: no lock
    /// is taken.
    pub fn get_mut(&mut self) -> (t: &mut T)
        ensures
            *t == old(self).value(),
            final(self).value() == *final(t),
            final(self).state() == old(self).state(),
    {
        &mut self.value
    }

    /// The number of the lock.
    pub fn locked(&self) -> (r: usize)
        ensures
            r == self.state(),
    {
        self.locked
    }
}

impl<T: Default> Default for RwLock<T> {
    /// A lock that is built by default is idle, like every new lock, and
    /// holds the default value.
    fn default() -> (lock: RwLock<T>)
        ensures
            lock.state() == IDLE,
            call_ensures(T::default, (), lock.value()),
    {
        RwLock::new(T::default())
    }
}

impl<T> From<T> for RwLock<T> {
    /// A new lock around `value`.
    fn from(value: T) -> (lock: RwLock<T>)
        ensures
            lock.state() == IDLE,
            lock.value() == value,
    {
        RwLock::new(value)
    }
}

impl<T> vstd::std_specs::convert::FromSpecImpl<T> for RwLock<T> {
    open spec fn obeys_from_spec() -> bool {
        true
    }

    closed spec fn from_spec(value: T) -> RwLock<T> {
        RwLock { locked: IDLE, value }
    }
}

impl RwLockReadGuard {
    /// Gives the guard back: the lock has one reader less.
    pub fn unlock<T>(self, lock: &mut RwLock<T>)
        requires
            old(lock).readers() >= 1,
        ensures
            final(lock).state() == old(lock).state() - 1,
            final(lock).value() == old(lock).value(),
    {
        lock.locked = lock.locked - 1;
    }

    /// The value of the lock that this guard is for.
    pub fn deref<'a, T>(&self, lock: &'a RwLock<T>) -> (t: &'a T)
        requires
            lock.readers() >= 1,
        ensures
            *t == lock.value(),
    {
        &lock.value
    }
}

impl RwLockWriteGuard {
    /// Gives the guard back: the lock is idle again.
    pub fn unlock<T>(self, lock: &mut RwLock<T>)
        requires
            old(lock).has_writer(),
        ensures
            final(lock).state() == IDLE,
            final(lock).value() == old(lock).value(),
    {
        lock.locked = IDLE;
    }

    /// The value of the lock that this guard is for.
    pub fn deref<'a, T>(&self, lock: &'a RwLock<T>) -> (t: &'a T)
        requires
            lock.has_writer(),
        ensures
            *t == lock.value(),
    {
        &lock.value
    }

    /// The value of the lock that this guard is for, to be changed.
    pub fn deref_mut<'a, T>(&mut self, lock: &'a mut RwLock<T>) -> (t: &'a mut T)
        requires
            old(lock).has_writer(),
        ensures
            *t == old(lock).value(),
            final(lock).value() == *final(t),
            final(lock).state() == old(lock).state(),
    {
        &mut lock.value
    }
}

/// What the tasks that share a lock do to it, one after the other.
pub enum RwLockEvent {
    /// A task polls `read` or calls `try_read`.
    Read,
    /// A task polls `write` or calls `try_write`.
    Write,
    /// A task that holds a read guard gives it back.
    ReleaseRead,
    /// A task that holds the write guard gives it back.
    ReleaseWrite,
}

/// The number of a lock together with the guards that are out.
pub struct RwLockHistory {
    pub state: usize,
    pub readers: nat,
    pub writers: nat,
}

impl RwLockHistory {
    /// Whether the event can happen: a guard is given back only by a task
    /// that has one, and a reader arrives only while the number of the lock
    /// can still grow.
    pub open spec fn permits(self, event: RwLockEvent) -> bool {
        match event {
            RwLockEvent::Read => self.state < usize::MAX,
            RwLockEvent::Write => true,
            RwLockEvent::ReleaseRead => self.readers >= 1,
            RwLockEvent::ReleaseWrite => self.writers >= 1,
        }
    }

    /// The lock and its guards after the event.
    pub open spec fn step(self, event: RwLockEvent) -> RwLockHistory {
        match event {
            RwLockEvent::Read => RwLockHistory {
                state: spec_read(self.state).0,
                readers: if spec_read(self.state).1 {
                    self.readers + 1
                } else {
                    self.readers
                },
                ..self
            },
            RwLockEvent::Write => RwLockHistory {
                state: spec_write(self.state).0,
                writers: if spec_write(self.state).1 {
                    self.writers + 1
                } else {
                    self.writers
                },
                ..self
            },
            RwLockEvent::ReleaseRead => RwLockHistory {
                state: (self.state - 1) as usize,
                readers: (self.readers - 1) as nat,
                ..self
            },
            RwLockEvent::ReleaseWrite => RwLockHistory {
                state: IDLE,
                writers: (self.writers - 1) as nat,
                ..self
            },
        }
    }

    /// A new lock after the events, in their order.
    pub open spec fn after(events: Seq<RwLockEvent>) -> RwLockHistory
        decreases events.len(),
    {
        if events.len() == 0 {
            RwLockHistory { state: IDLE, readers: 0, writers: 0 }
        } else {
            Self::after(events.drop_last()).step(events.last())
        }
    }

    /// Whether the events can happen in this order to a new lock.
    pub open spec fn possible(events: Seq<RwLockEvent>) -> bool
        decreases events.len(),
    {
        events.len() == 0 || (Self::possible(events.drop_last()) && Self::after(
            events.drop_last(),
        ).permits(events.last()))
    }
}

/// Exclusion: however the tasks take turns at a lock, a write guard is out
/// alone, with no other guard of either kind beside it, and the number of the
/// lock says who holds it: 0 for the writer, otherwise one more than the
/// number of read guards that are out.
pub proof fn lemma_rwlock_exclusion(events: Seq<RwLockEvent>)
    requires
        RwLockHistory::possible(events),
    ensures
        ({
            let lock = RwLockHistory::after(events);
            &&& lock.writers <= 1
            &&& lock.writers == 1 ==> lock.readers == 0
            &&& lock.state == if lock.writers == 1 {
                0
            } else {
                lock.readers + 1
            }
        }),
    decreases events.len(),
{
    if events.len() > 0 {
        lemma_rwlock_exclusion(events.drop_last());
    }
}

} // verus!
