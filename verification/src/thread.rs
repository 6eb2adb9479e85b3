use crate::poll::Poll;
use crate::runtime::{FutureQueue, ThreadLocal, Wake};
use crate::time::{Duration, Instant};
use vstd::prelude::*;

verus! {

/// The cell that a spawned computation shares with the task that awaits it.
/// It starts out holding the computation; when the computation is ready it
/// holds the value; when the value has been taken it holds nothing.
#[derive(Debug)]
pub enum PollHandle<T, F> {
    Ready(Option<T>),
    Pending(F),
}

impl<T, F> PollHandle<T, F> {
    /// The cell of a computation that is about to be spawned.
    pub fn new(future: F) -> (cell: PollHandle<T, F>)
        ensures
            cell == PollHandle::<T, F>::Pending(future),
    {
        PollHandle::Pending(future)
    }

    /// The cell after the task that drives the computation has polled it with
    /// this outcome: a cell that holds the computation takes the value when
    /// the computation is ready; nothing else changes a cell.
    pub open spec fn advanced(self, outcome: Poll<T>) -> PollHandle<T, F> {
        match (self, outcome) {
            (PollHandle::Pending(_), Poll::Ready(value)) => PollHandle::Ready(Some(value)),
            _ => self,
        }
    }

    /// The cell after the awaiting task has polled it: a value that is there
    /// is taken.
    pub open spec fn joined(self) -> PollHandle<T, F> {
        match self {
            PollHandle::Ready(_) => PollHandle::Ready(None),
            PollHandle::Pending(_) => self,
        }
    }

    /// Whether the value has been there and was taken.
    pub open spec fn taken(self) -> bool {
        self matches PollHandle::Ready(None)
    }
}

/// The handle by which a task awaits a spawned computation.
#[derive(Debug)]
pub struct JoinHandle<T, F>(pub PollHandle<T, F>);

impl<T, F> JoinHandle<T, F> {
    /// The computation, for the task that drives it, as long as it is not
    /// ready.
    pub fn future(&mut self) -> (r: Option<&mut F>)
        ensures
            match old(self).0 {
                PollHandle::Pending(future) => r matches Some(inner) && *inner == future
                    && final(self).0 == PollHandle::<T, F>::Pending(*final(inner)),
                PollHandle::Ready(_) => r is None && *final(self) == *old(self),
            },
    {
        match &mut self.0 {
            PollHandle::Pending(future) => Some(future),
            PollHandle::Ready(_) => None,
        }
    }

    /// One poll of the task that drives the computation, after it has polled
    /// the computation with this outcome: when the computation is ready its
    /// value goes into the cell and the task is done; else the task is
    /// pending. A task that finds no computation in the cell is pending too.
    pub fn advance(&mut self, outcome: Poll<T>) -> (r: Poll<()>)
        ensures
            final(self).0 == old(self).0.advanced(outcome),
            r is Ready <==> old(self).0 is Pending && outcome is Ready,
    {
        match outcome {
            Poll::Ready(value) => {
                match &self.0 {
                    PollHandle::Pending(_) => {
                        self.0 = PollHandle::Ready(Some(value));
                        Poll::Ready(())
                    },
                    PollHandle::Ready(_) => Poll::Pending,
                }
            },
            Poll::Pending => Poll::Pending,
        }
    }

    /// One poll of the awaiting task: pending while the computation is not
    /// ready, then ready with the value, which is taken out of the cell. A
    /// handle is awaited once: after the value was taken there is no further
    /// poll.
    pub fn poll(&mut self) -> (r: Poll<T>)
        requires
            !old(self).0.taken(),
        ensures
            final(self).0 == old(self).0.joined(),
            match old(self).0 {
                PollHandle::Ready(Some(value)) => r == Poll::Ready(value),
                _ => r is Pending,
            },
    {
        match &mut self.0 {
            PollHandle::Ready(value) => {
                match value.take() {
                    Some(value) => Poll::Ready(value),
                    None => Poll::Pending,
                }
            },
            PollHandle::Pending(_) => Poll::Pending,
        }
    }

    /// Whether the value has been taken.
    pub fn is_taken(&self) -> (r: bool)
        ensures
            r == self.0.taken(),
    {
        match &self.0 {
            PollHandle::Ready(None) => true,
            _ => false,
        }
    }
}

/// Spawns `future` on the executor of the thread: makes the cell that holds
/// it, and queues `wrapper`, the task that will drive it, on the queue that
/// the executor has installed. Without an installed queue there is no
/// executor to spawn on. The result is the handle, with the wake-up that the
/// push asks for.
pub fn spawn<T, F, W>(local: &mut ThreadLocal<W>, wrapper: W, future: F) -> (r: (
    JoinHandle<T, F>,
    Wake,
))
    requires
        old(local).installed() is Some,
    ensures
        final(local).installed() is Some,
        final(local).installed()->0@ == old(local).installed()->0@.push(wrapper),
        r.0 == JoinHandle(PollHandle::<T, F>::Pending(future)),
        r.1 == Wake::after(true),
{
    let cell = PollHandle::new(future);
    let wake = FutureQueue::get_thread_local(local).send(wrapper);
    (JoinHandle(cell), wake)
}

/// A pause until a deadline.
#[derive(Clone, Copy, Debug, PartialEq, Eq, Structural)]
pub struct Sleep {
    pub deadline: Instant,
}

impl Sleep {
    /// One poll at `now`: ready once the deadline has passed.
    pub fn poll(&self, now: Instant) -> (r: Poll<()>)
        ensures
            r is Ready <==> self.deadline.spec_has_passed(now),
    {
        if self.deadline.has_passed(now) {
            Poll::Ready(())
        } else {
            Poll::Pending
        }
    }
}

/// A pause of `duration`, begun at `now`. The deadline has to be an instant
/// that the clock can count to.
pub fn sleep(now: Instant, duration: Duration) -> (r: Sleep)
    requires
        now.nanos + duration.nanos <= u128::MAX,
    ensures
        r.deadline.nanos == now.nanos + duration.nanos,
{
    sleep_util(Instant { nanos: now.nanos + duration.nanos })
}

/// A pause until `instant`.
pub fn sleep_util(instant: Instant) -> (r: Sleep)
    ensures
        r.deadline == instant,
{
    Sleep { deadline: instant }
}

/// A computation that gives way to the other tasks once.
#[derive(Clone, Copy, Debug, PartialEq, Eq, Structural)]
pub struct YieldNow {
    pub yielded: bool,
}

impl YieldNow {
    /// One poll: pending the first time, ready from then on.
    pub fn poll(&mut self) -> (r: Poll<()>)
        ensures
            r is Ready <==> old(self).yielded,
            final(self).yielded,
    {
        if self.yielded {
            Poll::Ready(())
        } else {
            self.yielded = true;
            Poll::Pending
        }
    }
}

/// A computation that is pending exactly once.
pub fn yield_now() -> (r: YieldNow)
    ensures
        !r.yielded,
{
    YieldNow { yielded: false }
}

/// A pause is not over early: whenever a pause of `duration` begun at `start`
/// is ready, more than `duration` has gone by since `start`.
pub proof fn lemma_sleep_not_early(start: Instant, duration: Duration, now: Instant)
    requires
        start.nanos + duration.nanos <= u128::MAX,
        (Instant { nanos: (start.nanos + duration.nanos) as u128 }).spec_has_passed(now),
    ensures
        start.spec_elapsed(now).nanos > duration.nanos,
{
}

/// A handle yields its value once: the value that the computation was ready
/// with is what the first ready poll of the awaiting task returns, and after
/// that poll the value is taken, so that the handle cannot be polled again.
pub proof fn lemma_join_once<T, F>(future: F, value: T)
    ensures
        ({
            let spawned = PollHandle::<T, F>::Pending(future);
            let ready = spawned.advanced(Poll::Ready(value));
            &&& !spawned.taken()
            &&& spawned.joined() == spawned
            &&& ready == PollHandle::<T, F>::Ready(Some(value))
            &&& !ready.taken()
            &&& ready.joined().taken()
            &&& ready.joined().advanced(Poll::Ready(value)) == ready.joined()
        }),
{
}

} // verus!
