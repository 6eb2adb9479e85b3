use crate::poll::Poll;
use crate::sync::TryLock;
use vstd::prelude::*;

verus! {

/// The right to the value of a mutex that is locked. There is no way to make
/// one but to lock a mutex, and it is used up when the mutex is unlocked.
#[derive(Debug)]
pub struct MutexGuard {
    held: (),
}

/// A value and the lock that protects it.
#[derive(Debug)]
pub struct Mutex<T> {
    locked: bool,
    value: T,
}

/// What an attempt to lock does to a mutex that is locked or not: whether the
/// mutex is locked afterwards, and whether the attempt got the guard.
pub open spec fn spec_acquire(locked: bool) -> (bool, bool) {
    (true, !locked)
}

impl<T> Mutex<T> {
    /// Whether a guard for this mutex is out.
    pub closed spec fn is_locked(&self) -> bool {
        self.locked
    }

    /// The value that the mutex protects.
    pub closed spec fn value(&self) -> T {
        self.value
    }

    pub fn new(t: T) -> (mutex: Mutex<T>)
        ensures
            !mutex.is_locked(),
            mutex.value() == t,
    {
        Mutex { locked: false, value: t }
    }

    /// One poll of locking: the guard if the mutex was free, `Pending` while
    /// another guard is out.
    pub fn lock(&mut self) -> (r: Poll<MutexGuard>)
        ensures
            (final(self).is_locked(), r is Ready) == spec_acquire(old(self).is_locked()),
            final(self).value() == old(self).value(),
    {
        if self.locked {
            Poll::Pending
        } else {
            self.locked = true;
            Poll::Ready(MutexGuard { held: () })
        }
    }

    /// Locks the mutex if it is free, and says so at once if it is not.
    pub fn try_lock(&mut self) -> (r: TryLock<MutexGuard>)
        ensures
            (final(self).is_locked(), r is Guard) == spec_acquire(old(self).is_locked()),
            final(self).value() == old(self).value(),
    {
        if self.locked {
            TryLock::WouldBlock
        } else {
            self.locked = true;
            TryLock::Guard(MutexGuard { held: () })
        }
    }

    /// Gives the value up; the mutex is no more.
    pub fn into_inner(self) -> (t: T)
        ensures
            t == self.value(),
    {
        self.value
    }

    /// The value, for a caller who holds the mutex itself exclusively: no lock
    /// is taken.
    pub fn get_mut(&mut self) -> (t: &mut T)
        ensures
            *t == old(self).value(),
            final(self).value() == *final(t),
            final(self).is_locked() == old(self).is_locked(),
    {
        &mut self.value
    }

    /// Whether a guard for this mutex is out.
    pub fn locked(&self) -> (r: bool)
        ensures
            r == self.is_locked(),
    {
        self.locked
    }
}

impl<T: Default> Default for Mutex<T> {
    /// A mutex that is built by default is free, like every new mutex, and
    /// holds the default value.
    fn default() -> (mutex: Mutex<T>)
        ensures
            !mutex.is_locked(),
            call_ensures(T::default, (), mutex.value()),
    {
        Mutex::new(T::default())
    }
}

impl<T> From<T> for Mutex<T> {
    /// A new mutex around `value`.
    fn from(value: T) -> (mutex: Mutex<T>)
        ensures
            !mutex.is_locked(),
            mutex.value() == value,
    {
        Mutex::new(value)
    }
}

impl<T> vstd::std_specs::convert::FromSpecImpl<T> for Mutex<T> {
    open spec fn obeys_from_spec() -> bool {
        true
    }

    closed spec fn from_spec(value: T) -> Mutex<T> {
        Mutex { locked: false, value }
    }
}

impl MutexGuard {
    /// Gives the guard back: the mutex is free again.
    pub fn unlock<T>(self, mutex: &mut Mutex<T>)
        requires
            old(mutex).is_locked(),
        ensures
            !final(mutex).is_locked(),
            final(mutex).value() == old(mutex).value(),
    {
        mutex.locked = false;
    }

    /// The value of the mutex that this guard is for.
    pub fn deref<'a, T>(&self, mutex: &'a Mutex<T>) -> (t: &'a T)
        requires
            mutex.is_locked(),
        ensures
            *t == mutex.value(),
    {
        &mutex.value
    }

    /// The value of the mutex that this guard is for, to be changed.
    pub fn deref_mut<'a, T>(&mut self, mutex: &'a mut Mutex<T>) -> (t: &'a mut T)
        requires
            old(mutex).is_locked(),
        ensures
            *t == old(mutex).value(),
            final(mutex).value() == *final(t),
            final(mutex).is_locked(),
    {
        &mut mutex.value
    }
}

/// What the tasks that share a mutex do to it, one after the other.
pub enum MutexEvent {
    /// A task polls `lock` or calls `try_lock`.
    Acquire,
    /// A task that holds a guard gives it back.
    Release,
}

/// A mutex together with the number of its guards that are out.
pub struct MutexHistory {
    pub locked: bool,
    pub guards: nat,
}

impl MutexHistory {
    /// Whether the event can happen: a guard is given back only by a task
    /// that has one.
    pub open spec fn permits(self, event: MutexEvent) -> bool {
        event is Release ==> self.guards >= 1
    }

    /// The mutex and its guards after the event.
    pub open spec fn step(self, event: MutexEvent) -> MutexHistory {
        match event {
            MutexEvent::Acquire => MutexHistory {
                locked: spec_acquire(self.locked).0,
                guards: if spec_acquire(self.locked).1 {
                    self.guards + 1
                } else {
                    self.guards
                },
            },
            MutexEvent::Release => MutexHistory { locked: false, guards: (self.guards - 1) as nat },
        }
    }

    /// A new mutex after the events, in their order.
    pub open spec fn after(events: Seq<MutexEvent>) -> MutexHistory
        decreases events.len(),
    {
        if events.len() == 0 {
            MutexHistory { locked: false, guards: 0 }
        } else {
            Self::after(events.drop_last()).step(events.last())
        }
    }

    /// Whether the events can happen in this order to a new mutex.
    pub open spec fn possible(events: Seq<MutexEvent>) -> bool
        decreases events.len(),
    {
        events.len() == 0 || (Self::possible(events.drop_last()) && Self::after(
            events.drop_last(),
        ).permits(events.last()))
    }
}

/// Exclusion: however the tasks take turns at a mutex, never more than one
/// guard is out, and the mutex is locked exactly while one is.
pub proof fn lemma_mutex_exclusion(events: Seq<MutexEvent>)
    requires
        MutexHistory::possible(events),
    ensures
        MutexHistory::after(events).guards <= 1,
        MutexHistory::after(events).locked <==> MutexHistory::after(events).guards == 1,
    decreases events.len(),
{
    if events.len() > 0 {
        lemma_mutex_exclusion(events.drop_last());
    }
}

/// Release: once a guard has been given back, the next attempt to lock gets
/// the guard.
pub proof fn lemma_mutex_release(events: Seq<MutexEvent>)
    requires
        MutexHistory::possible(events),
        events.len() > 0,
        events.last() is Release,
    ensures
        !MutexHistory::after(events).locked,
        spec_acquire(MutexHistory::after(events).locked).1,
        MutexHistory::after(events.push(MutexEvent::Acquire)).guards == 1,
{
    lemma_mutex_exclusion(events);
    assert(events.push(MutexEvent::Acquire).drop_last() =~= events);
}

} // verus!
