use crate::poll::Poll;
use crate::sync::mutex::{Mutex, MutexGuard};
use crate::sync::TryLock;
use crate::time::{Duration, Instant};
use vstd::prelude::*;

verus! {

/// What a wait with a time limit reports besides the guard.
#[derive(Clone, Copy, Debug, PartialEq, Eq, Structural)]
pub struct WaitTimeoutResult(pub bool);

impl WaitTimeoutResult {
    /// Whether the wait ended because its time was up.
    pub fn timed_out(&self) -> (r: bool)
        ensures
            r == self.0,
    {
        self.0
    }
}

/// The bookkeeping of a condition variable: the id that the next waiter
/// gets, and the ids of the waiters that have not been notified, in the order
/// in which they came.
#[derive(Debug)]
pub struct CondvarState {
    pub counter: usize,
    pub queue: Vec<usize>,
}

/// A condition variable.
#[derive(Debug)]
pub struct Condvar {
    state: CondvarState,
}

/// How far a wait has come.
#[derive(Clone, Copy, Debug, PartialEq, Eq, Structural)]
pub enum WaitPhase {
    /// The waiter still holds its guard and has no id.
    Start,
    /// The waiter has given its guard back and waits for its id to go.
    Waiting,
    /// The wait is over; the waiter is taking the mutex again.
    Relock,
    /// The waiter has its guard again.
    Done,
}

/// One wait at a condition variable, from poll to poll.
#[derive(Debug)]
pub struct CondvarWaiter {
    guard: Option<MutexGuard>,
    id: usize,
    phase: WaitPhase,
    started: Instant,
    timed_out: bool,
}

/// A wait together with the condition variable and the mutex that it
/// involves, as contracts speak of them.
pub struct WaitModel {
    /// The id that the next waiter gets.
    pub counter: usize,
    /// The ids of the waiters that have not been notified.
    pub queue: Seq<usize>,
    /// How far this wait has come.
    pub phase: WaitPhase,
    /// The id of this waiter, once it has one.
    pub id: usize,
    /// When this waiter began to wait.
    pub started: Instant,
    /// Whether this wait has run out of time.
    pub timed_out: bool,
    /// Whether the mutex is locked.
    pub locked: bool,
}

impl WaitModel {
    /// The first step of a wait: the waiter gives its guard back, takes the
    /// next id, appends it to the queue and notes the time.
    pub open spec fn enter(self, now: Instant) -> WaitModel {
        WaitModel {
            counter: (self.counter + 1) as usize,
            queue: self.queue.push(self.counter),
            phase: WaitPhase::Waiting,
            id: self.counter,
            started: now,
            timed_out: self.timed_out,
            locked: false,
        }
    }

    /// The end of the waiting: the waiter goes on to take the mutex again. The
    /// queue stays as it is, for only a notification takes an id out; the id
    /// of a waiter whose time ran out stays queued until one does.
    pub open spec fn leave(self) -> WaitModel {
        WaitModel { phase: WaitPhase::Relock, ..self }
    }

    /// Whether a wait with the limit `limit` has run out of time at `now`.
    pub open spec fn out_of_time(self, limit: Option<Duration>, now: Instant) -> bool {
        limit matches Some(span) && self.started.spec_elapsed(now).nanos >= span.nanos
    }

    /// Whether this poll gets as far as asking the predicate of the waiter:
    /// the waiter is waiting and has time left, the mutex is free, and the
    /// waiter's id is gone from the queue.
    pub open spec fn asks(self, limit: Option<Duration>, now: Instant) -> bool {
        let entered = if self.phase is Start {
            self.enter(now)
        } else {
            self
        };
        &&& entered.phase is Waiting
        &&& !entered.out_of_time(limit, now)
        &&& !entered.locked
        &&& !entered.queue.contains(entered.id)
    }

    /// One poll of a wait: what becomes of everything involved, and whether
    /// the poll is ready with the guard. `holds` is what the predicate of the
    /// waiter says of the value in the mutex, if this poll asks it.
    ///
    /// A waiter at the start enters. A waiter that is waiting leaves when its
    /// time is up; else, if the mutex is free, it leaves when its id is gone
    /// from the queue and the predicate does not hold. A waiter that has left
    /// takes the mutex as soon as the mutex is free, and is done.
    pub open spec fn poll(self, limit: Option<Duration>, now: Instant, holds: bool) -> (
        WaitModel,
        bool,
    ) {
        let entered = if self.phase is Start {
            self.enter(now)
        } else {
            self
        };
        let waited = if entered.phase is Waiting {
            if entered.out_of_time(limit, now) {
                (WaitModel { timed_out: true, ..entered }).leave()
            } else if !entered.locked && !entered.queue.contains(entered.id) && !holds {
                entered.leave()
            } else {
                entered
            }
        } else {
            entered
        };
        if waited.phase is Relock && !waited.locked {
            (WaitModel { phase: WaitPhase::Done, locked: true, ..waited }, true)
        } else {
            (waited, false)
        }
    }
}

/// Whether `holds` can be what `condition` says of `value`, in a poll that
/// asks the predicate; of a poll that does not ask, this says nothing.
pub open spec fn answers<T, F: Fn(&T) -> bool>(condition: F, value: T, asks: bool, holds: bool)
    -> bool {
    asks ==> call_ensures(condition, (&value,), holds)
}

/// A predicate that holds of nothing: the predicate of a plain wait.
fn never<T>(value: &T) -> (r: bool)
    ensures
        !r,
{
    false
}

/// Whether `id` is among `queue`.
fn contains(queue: &Vec<usize>, id: usize) -> (r: bool)
    ensures
        r == queue@.contains(id),
{
    let mut i: usize = 0;
    while i < queue.len()
        invariant
            i <= queue@.len(),
            forall|j: int| 0 <= j < i ==> queue@[j] != id,
        decreases queue@.len() - i,
    {
        if queue[i] == id {
            return true;
        }
        i += 1;
    }
    false
}

impl CondvarWaiter {
    /// How far the wait has come.
    pub closed spec fn phase(&self) -> WaitPhase {
        self.phase
    }

    /// The id of the waiter, once it has one.
    pub closed spec fn id(&self) -> usize {
        self.id
    }

    /// When the waiter began to wait.
    pub closed spec fn started(&self) -> Instant {
        self.started
    }

    /// Whether the wait has run out of time.
    pub closed spec fn has_timed_out(&self) -> bool {
        self.timed_out
    }

    /// A waiter holds the guard that it came with exactly until it enters.
    pub closed spec fn wf(&self) -> bool {
        self.guard is Some <==> self.phase is Start
    }

    /// A wait that is about to begin, by a task that holds `guard`.
    pub fn new(guard: MutexGuard) -> (waiter: CondvarWaiter)
        ensures
            waiter.wf(),
            waiter.phase() is Start,
            !waiter.has_timed_out(),
    {
        CondvarWaiter {
            guard: Some(guard),
            id: 0,
            phase: WaitPhase::Start,
            started: Instant { nanos: 0 },
            timed_out: false,
        }
    }
}

impl Condvar {
    /// The id that the next waiter gets.
    pub closed spec fn counter(&self) -> usize {
        self.state.counter
    }

    /// The ids of the waiters that have not been notified.
    pub closed spec fn queue(&self) -> Seq<usize> {
        self.state.queue@
    }

    /// A wait at this condition variable with `mutex`, as contracts speak of
    /// it.
    pub open spec fn model<T>(&self, waiter: &CondvarWaiter, mutex: &Mutex<T>) -> WaitModel {
        WaitModel {
            counter: self.counter(),
            queue: self.queue(),
            phase: waiter.phase(),
            id: waiter.id(),
            started: waiter.started(),
            timed_out: waiter.has_timed_out(),
            locked: mutex.is_locked(),
        }
    }

    pub fn new() -> (condvar: Condvar)
        ensures
            condvar.counter() == 0,
            condvar.queue() == Seq::<usize>::empty(),
    {
        Condvar { state: CondvarState { counter: 0, queue: Vec::new() } }
    }

    /// The id that the next waiter gets, for a caller that has to know whether
    /// another waiter can still be counted.
    pub fn next_id(&self) -> (id: usize)
        ensures
            id == self.counter(),
    {
        self.state.counter
    }

    /// One poll of a wait, for all four kinds of wait.
    fn poll_wait<T, F: Fn(&T) -> bool>(
        &mut self,
        waiter: &mut CondvarWaiter,
        mutex: &mut Mutex<T>,
        limit: Option<Duration>,
        now: Instant,
        condition: &F,
    ) -> (r: Poll<MutexGuard>)
        requires
            old(waiter).wf(),
            !(old(waiter).phase() is Done),
            old(waiter).phase() is Start ==> old(mutex).is_locked() && old(self).counter()
                < usize::MAX,
            call_requires(*condition, (&old(mutex).value(),)),
        ensures
            final(waiter).wf(),
            final(mutex).value() == old(mutex).value(),
            exists|holds: bool|
                #[trigger] answers(
                    *condition,
                    old(mutex).value(),
                    old(self).model(old(waiter), old(mutex)).asks(limit, now),
                    holds,
                ) && (final(self).model(final(waiter), final(mutex)), r is Ready)
                    == old(self).model(old(waiter), old(mutex)).poll(limit, now, holds),
    {
        let ghost before = self.model(waiter, mutex);
        let ghost mut holds_seen = false;
        match waiter.phase {
            WaitPhase::Start => {
                let guard = waiter.guard.take().unwrap();
                guard.unlock(mutex);
                let id = self.state.counter;
                self.state.queue.push(id);
                self.state.counter = id + 1;
                waiter.id = id;
                waiter.started = now;
                waiter.phase = WaitPhase::Waiting;
            },
            _ => {},
        }
        match waiter.phase {
            WaitPhase::Waiting => {
                let out_of_time = match limit {
                    Some(span) => waiter.started.elapsed(now).nanos >= span.nanos,
                    None => false,
                };
                if out_of_time {
                    waiter.timed_out = true;
                    waiter.phase = WaitPhase::Relock;
                } else {
                    match mutex.try_lock() {
                        TryLock::Guard(guard) => {
                            let mut over = false;
                            if !contains(&self.state.queue, waiter.id) {
                                let holds = condition(guard.deref(mutex));
                                proof {
                                    holds_seen = holds;
                                }
                                over = !holds;
                            }
                            guard.unlock(mutex);
                            if over {
                                waiter.phase = WaitPhase::Relock;
                            }
                        },
                        TryLock::WouldBlock => {},
                    }
                }
            },
            _ => {},
        }
        let r = match waiter.phase {
            WaitPhase::Relock => {
                match mutex.lock() {
                    Poll::Ready(guard) => {
                        waiter.phase = WaitPhase::Done;
                        Poll::Ready(guard)
                    },
                    Poll::Pending => Poll::Pending,
                }
            },
            _ => Poll::Pending,
        };
        proof {
            assert(answers(*condition, old(mutex).value(), before.asks(limit, now), holds_seen));
            assert((self.model(waiter, mutex), r is Ready) == before.poll(limit, now, holds_seen));
        }
        r
    }

    /// One poll of a wait: the waiter gives its guard back, queues up under a
    /// new id and is pending until that id is gone from the queue; then it
    /// takes the mutex again, and the poll is ready with the new guard.
    ///
    /// A wait begins with `mutex` locked, by the guard that the waiter came
    /// with, and only while the condition variable has an id left to give; it
    /// is not polled again once it has been ready.
    pub fn wait<T>(&mut self, waiter: &mut CondvarWaiter, mutex: &mut Mutex<T>) -> (r: Poll<
        MutexGuard,
    >)
        requires
            old(waiter).wf(),
            !(old(waiter).phase() is Done),
            old(waiter).phase() is Start ==> old(mutex).is_locked() && old(self).counter()
                < usize::MAX,
        ensures
            final(waiter).wf(),
            final(mutex).value() == old(mutex).value(),
            (final(self).model(final(waiter), final(mutex)), r is Ready) == old(self).model(
                old(waiter),
                old(mutex),
            ).poll(None, Instant { nanos: 0 }, false),
    {
        let predicate = never::<T>;
        self.poll_wait(waiter, mutex, None, Instant { nanos: 0 }, &predicate)
    }

    /// One poll of a wait that goes on while `condition` holds of the value in
    /// the mutex: like `wait`, but with its id gone the waiter also asks the
    /// predicate, with the mutex taken, and waits on if it holds.
    pub fn wait_while<T, F: Fn(&T) -> bool>(
        &mut self,
        waiter: &mut CondvarWaiter,
        mutex: &mut Mutex<T>,
        condition: &F,
    ) -> (r: Poll<MutexGuard>)
        requires
            old(waiter).wf(),
            !(old(waiter).phase() is Done),
            old(waiter).phase() is Start ==> old(mutex).is_locked() && old(self).counter()
                < usize::MAX,
            call_requires(*condition, (&old(mutex).value(),)),
        ensures
            final(waiter).wf(),
            final(mutex).value() == old(mutex).value(),
            exists|holds: bool|
                #[trigger] answers(
                    *condition,
                    old(mutex).value(),
                    old(self).model(old(waiter), old(mutex)).asks(None, Instant { nanos: 0 }),
                    holds,
                ) && (final(self).model(final(waiter), final(mutex)), r is Ready)
                    == old(self).model(old(waiter), old(mutex)).poll(
                    None,
                    Instant { nanos: 0 },
                    holds,
                ),
    {
        self.poll_wait(waiter, mutex, None, Instant { nanos: 0 }, condition)
    }

    /// One poll, at `now`, of a wait that gives up once `dur` has gone by
    /// since the waiter queued up. Ready, it tells whether the time ran out.
    pub fn wait_timeout<T>(
        &mut self,
        waiter: &mut CondvarWaiter,
        mutex: &mut Mutex<T>,
        dur: Duration,
        now: Instant,
    ) -> (r: Poll<(MutexGuard, WaitTimeoutResult)>)
        requires
            old(waiter).wf(),
            !(old(waiter).phase() is Done),
            old(waiter).phase() is Start ==> old(mutex).is_locked() && old(self).counter()
                < usize::MAX,
        ensures
            final(waiter).wf(),
            final(mutex).value() == old(mutex).value(),
            (final(self).model(final(waiter), final(mutex)), r is Ready) == old(self).model(
                old(waiter),
                old(mutex),
            ).poll(Some(dur), now, false),
            r matches Poll::Ready(pair) ==> pair.1 == WaitTimeoutResult(
                final(waiter).has_timed_out(),
            ),
    {
        let predicate = never::<T>;
        match self.poll_wait(waiter, mutex, Some(dur), now, &predicate) {
            Poll::Ready(guard) => Poll::Ready((guard, WaitTimeoutResult(waiter.timed_out))),
            Poll::Pending => Poll::Pending,
        }
    }

    /// One poll, at `now`, of a wait that goes on while `condition` holds and
    /// gives up once `dur` has gone by since the waiter queued up.
    pub fn wait_timeout_while<T, F: Fn(&T) -> bool>(
        &mut self,
        waiter: &mut CondvarWaiter,
        mutex: &mut Mutex<T>,
        dur: Duration,
        now: Instant,
        condition: &F,
    ) -> (r: Poll<(MutexGuard, WaitTimeoutResult)>)
        requires
            old(waiter).wf(),
            !(old(waiter).phase() is Done),
            old(waiter).phase() is Start ==> old(mutex).is_locked() && old(self).counter()
                < usize::MAX,
            call_requires(*condition, (&old(mutex).value(),)),
        ensures
            final(waiter).wf(),
            final(mutex).value() == old(mutex).value(),
            exists|holds: bool|
                #[trigger] answers(
                    *condition,
                    old(mutex).value(),
                    old(self).model(old(waiter), old(mutex)).asks(Some(dur), now),
                    holds,
                ) && (final(self).model(final(waiter), final(mutex)), r is Ready)
                    == old(self).model(old(waiter), old(mutex)).poll(Some(dur), now, holds),
            r matches Poll::Ready(pair) ==> pair.1 == WaitTimeoutResult(
                final(waiter).has_timed_out(),
            ),
    {
        match self.poll_wait(waiter, mutex, Some(dur), now, condition) {
            Poll::Ready(guard) => Poll::Ready((guard, WaitTimeoutResult(waiter.timed_out))),
            Poll::Pending => Poll::Pending,
        }
    }

    /// Notifies one waiter: the id that was queued last goes.
    pub fn notify_one(&mut self)
        ensures
            final(self).counter() == old(self).counter(),
            final(self).queue() == if old(self).queue().len() > 0 {
                old(self).queue().drop_last()
            } else {
                old(self).queue()
            },
    {
        self.state.queue.pop();
    }

    /// Notifies every waiter: all ids go.
    pub fn notify_all(&mut self)
        ensures
            final(self).counter() == old(self).counter(),
            final(self).queue() == Seq::<usize>::empty(),
    {
        self.state.queue.clear();
    }
}

impl Default for Condvar {
    /// A condition variable that is built by default has no waiters, like
    /// every new one.
    fn default() -> (condvar: Condvar)
        ensures
            condvar.counter() == 0,
            condvar.queue() == Seq::<usize>::empty(),
    {
        Condvar::new()
    }
}

/// Wake: once every waiter was notified, a waiter that is waiting finds its
/// id gone; at its next poll with the mutex free its wait is over, it has the
/// mutex again, and it did not run out of time unless it had a limit that is
/// up.
pub proof fn lemma_notify_all_wakes(waiter: WaitModel, limit: Option<Duration>, now: Instant)
    requires
        waiter.phase is Waiting,
        waiter.queue == Seq::<usize>::empty(),
        !waiter.locked,
    ensures
        waiter.poll(limit, now, false).1,
        waiter.poll(limit, now, false).0.phase is Done,
        waiter.poll(limit, now, false).0.timed_out == (waiter.timed_out || waiter.out_of_time(
            limit,
            now,
        )),
{
}

/// Whether the ids of a queue are those of waiters that queued up one after
/// the other: each id is larger than the ids before it, and all are smaller
/// than the id that the next waiter gets.
pub open spec fn in_order(queue: Seq<usize>, counter: usize) -> bool {
    &&& forall|i: int, j: int| 0 <= i < j < queue.len() ==> queue[i] < queue[j]
    &&& forall|i: int| 0 <= i < queue.len() ==> queue[i] < counter
}

/// The ids stay in order: no poll of a wait and no notification brings an id
/// into the queue twice or out of its place.
pub proof fn lemma_ids_stay_in_order(
    wait: WaitModel,
    limit: Option<Duration>,
    now: Instant,
    holds: bool,
)
    requires
        in_order(wait.queue, wait.counter),
        wait.phase is Start ==> wait.counter < usize::MAX,
    ensures
        in_order(wait.poll(limit, now, holds).0.queue, wait.poll(limit, now, holds).0.counter),
        wait.queue.len() > 0 ==> in_order(wait.queue.drop_last(), wait.counter),
        in_order(Seq::<usize>::empty(), wait.counter),
{
    let entered = if wait.phase is Start {
        wait.enter(now)
    } else {
        wait
    };
    assert(in_order(entered.queue, entered.counter));
}

/// Only a notification takes an id out of the queue: a poll of a wait leaves
/// the queue as it is, but for the id that a waiter at its start appends.
pub proof fn lemma_wait_keeps_the_queue(
    wait: WaitModel,
    limit: Option<Duration>,
    now: Instant,
    holds: bool,
)
    ensures
        wait.poll(limit, now, holds).0.queue == if wait.phase is Start {
            wait.queue.push(wait.counter)
        } else {
            wait.queue
        },
{
}

/// A waiter whose id is queued stays: while it is waiting and has time left,
/// its poll is pending and leaves it waiting, whatever the other waiters do
/// and whether the mutex is free or not.
pub proof fn lemma_unnotified_waiter_stays(
    wait: WaitModel,
    limit: Option<Duration>,
    now: Instant,
    holds: bool,
)
    requires
        wait.phase is Waiting,
        wait.queue.contains(wait.id),
        !wait.out_of_time(limit, now),
    ensures
        !wait.poll(limit, now, holds).1,
        wait.poll(limit, now, holds).0 == wait,
{
}

/// Wake of one: among waiters whose ids are in order, the waiter that queued
/// up last finds its id gone after one notification, whoever else waits.
pub proof fn lemma_notify_one_wakes_last(queue: Seq<usize>, counter: usize)
    requires
        queue.len() > 0,
        in_order(queue, counter),
    ensures
        !queue.drop_last().contains(queue.last()),
{
    if queue.drop_last().contains(queue.last()) {
        let earlier = queue.drop_last();
        let i = choose|i: int| 0 <= i < earlier.len() && earlier[i] == queue.last();
        assert(queue[i] < queue[queue.len() - 1]);
    }
}

} // verus!
