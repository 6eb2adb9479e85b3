use crate::poll::Poll;
use crate::sync::barrier::{Barrier, BarrierState, BarrierWaiter};
use crate::time::Duration;
use std::collections::VecDeque;
use std::sync::Arc;
use vstd::prelude::*;

verus! {

/// The length of the pause that a thread takes when it has nothing better to
/// do, in milliseconds.
pub const IDLE_MILLIS: u64 = 1;

/// What a thread does when it waits on a task queue.
#[derive(Clone, Copy, Debug, PartialEq, Eq, Structural)]
pub enum Wait {
    /// The queue is empty: block until a task is pushed.
    Block,
    /// One task is queued: pause, so that the thread that polls it gets ahead.
    Sleep(Duration),
    /// Several tasks are queued: wake one other waiter, then pause.
    NotifyThenSleep(Duration),
}

/// The wake-up that a change of a task queue asks for. A thread may be
/// blocked on the queue because it found it empty: whoever pushes a
/// computation wakes one such thread.
#[derive(Clone, Copy, Debug, PartialEq, Eq, Structural)]
pub enum Wake {
    /// Nothing was pushed: nobody is woken.
    Nobody,
    /// A computation was pushed: one thread that waits on the queue is woken.
    One,
}

impl Wake {
    /// The wake-up after an operation that has or has not pushed a
    /// computation.
    pub open spec fn after(pushed: bool) -> Wake {
        if pushed {
            Wake::One
        } else {
            Wake::Nobody
        }
    }
}

/// The queue of spawned computations of one executor, first in, first out.
///
/// `F` is the type of a spawned computation with its type erased: the queue
/// moves such values around and never looks into them.
#[derive(Debug)]
pub struct FutureQueue<F> {
    queue: VecDeque<F>,
}

impl<F> View for FutureQueue<F> {
    type V = Seq<F>;

    closed spec fn view(&self) -> Seq<F> {
        self.queue@
    }
}

/// The place in which a thread keeps the queue of the executor that it works
/// for. A queue is installed once; what is installed stays.
#[derive(Debug)]
pub struct ThreadLocal<F> {
    queue: Option<FutureQueue<F>>,
}

impl<F> ThreadLocal<F> {
    /// The queue that is installed, if any.
    pub closed spec fn installed(&self) -> Option<FutureQueue<F>> {
        self.queue
    }

    /// The place of a thread on which no executor has run yet.
    pub fn new() -> (local: ThreadLocal<F>)
        ensures
            local.installed() is None,
    {
        ThreadLocal { queue: None }
    }

    pub fn is_installed(&self) -> (r: bool)
        ensures
            r == self.installed().is_some(),
    {
        self.queue.is_some()
    }
}

impl<F> FutureQueue<F> {
    pub fn new() -> (queue: FutureQueue<F>)
        ensures
            queue@ == Seq::<F>::empty(),
    {
        FutureQueue { queue: VecDeque::new() }
    }

    /// The queue of the thread, which an executor has installed before. Without
    /// one there is nothing to spawn onto: `local` must hold a queue.
    pub fn get_thread_local(local: &mut ThreadLocal<F>) -> (queue: &mut FutureQueue<F>)
        requires
            old(local).installed() is Some,
        ensures
            Some(*queue) == old(local).installed(),
            final(local).installed() == Some(*final(queue)),
    {
        local.queue.as_mut().unwrap()
    }

    /// Installs this queue as the queue of the thread, unless the thread has
    /// one already: then the thread keeps what it has.
    pub fn set_thread_local(self, local: &mut ThreadLocal<F>)
        ensures
            final(local).installed() == if old(local).installed() is Some {
                old(local).installed()
            } else {
                Some(self)
            },
    {
        if local.queue.is_none() {
            local.queue = Some(self);
        }
    }

    /// Appends a computation, and says whom to wake: a push wakes one thread
    /// that waits on the queue.
    pub fn send(&mut self, future: F) -> (wake: Wake)
        ensures
            final(self)@ == old(self)@.push(future),
            wake == Wake::after(true),
    {
        self.queue.push_back(future);
        Wake::One
    }

    /// Removes the computation at the head, if there is one.
    pub fn get(&mut self) -> (r: Option<F>)
        ensures
            old(self)@.len() == 0 ==> r is None && final(self)@ == old(self)@,
            old(self)@.len() > 0 ==> r == Some(old(self)@[0]) && final(self)@ == old(self)@.skip(1),
    {
        let r = self.queue.pop_front();
        proof {
            if old(self)@.len() > 0 {
                assert(self.queue@ =~= old(self)@.skip(1));
            }
        }
        r
    }

    /// Takes every computation out at once, in the order of the queue.
    pub fn drain(&mut self) -> (all: Vec<F>)
        ensures
            all@ == old(self)@,
            final(self)@ == Seq::<F>::empty(),
    {
        let mut all: Vec<F> = Vec::new();
        while self.queue.len() > 0
            invariant
                all@ + self.queue@ == old(self).queue@,
            decreases self.queue@.len(),
        {
            let ghost before = self.queue@;
            let head = self.queue.pop_front().unwrap();
            all.push(head);
            assert(all@ + self.queue@ =~= old(self).queue@) by {
                assert(before =~= seq![head] + self.queue@);
            }
        }
        assert(self.queue@ =~= Seq::<F>::empty());
        assert(all@ =~= old(self).queue@);
        all
    }

    /// Takes a computation back after it was polled: one that is still pending
    /// goes to the end of the queue, which is a push like any other and wakes
    /// one thread that waits on the queue; one that is ready is done with.
    pub fn polled(&mut self, future: F, outcome: Poll<()>) -> (wake: Wake)
        ensures
            final(self)@ == if outcome is Pending {
                old(self)@.push(future)
            } else {
                old(self)@
            },
            wake == Wake::after(outcome is Pending),
    {
        match outcome {
            Poll::Pending => self.send(future),
            Poll::Ready(_) => Wake::Nobody,
        }
    }

    /// How many computations are queued.
    pub fn len(&self) -> (n: usize)
        ensures
            n == self@.len(),
    {
        self.queue.len()
    }

    /// What a waiting thread does in view of `queued` computations.
    pub open spec fn spec_wait(queued: nat) -> Wait {
        let pause = Duration { nanos: (IDLE_MILLIS * crate::time::NANOS_PER_MILLI) as u128 };
        if queued == 0 {
            Wait::Block
        } else if queued == 1 {
            Wait::Sleep(pause)
        } else {
            Wait::NotifyThenSleep(pause)
        }
    }

    /// What the thread that waits on this queue does: it blocks while the queue
    /// is empty, pauses for a millisecond while one computation is queued, and
    /// with more of them wakes another waiter before it pauses.
    pub fn wait(&self) -> (r: Wait)
        ensures
            r == Self::spec_wait(self@.len()),
    {
        let queued = self.queue.len();
        if queued == 0 {
            Wait::Block
        } else if queued == 1 {
            Wait::Sleep(Duration::from_millis(IDLE_MILLIS))
        } else {
            Wait::NotifyThenSleep(Duration::from_millis(IDLE_MILLIS))
        }
    }
}

/// The mode of an executor: on the caller's thread alone, or with a number of
/// worker threads.
#[derive(Debug)]
pub enum ThreadWaker {
    Current,
    Threaded(usize),
}

impl ThreadWaker {
    pub fn current() -> (waker: Arc<ThreadWaker>)
        ensures
            *waker == ThreadWaker::Current,
    {
        Arc::new(ThreadWaker::Current)
    }

    pub fn threaded(worker_thread: usize) -> (waker: Arc<ThreadWaker>)
        ensures
            *waker == ThreadWaker::Threaded(worker_thread),
    {
        Arc::new(ThreadWaker::Threaded(worker_thread))
    }
}

/// An executor.
#[derive(Debug)]
pub struct Runtime {
    waker: Arc<ThreadWaker>,
}

/// A run of an executor, as `block_on` sets it up.
#[derive(Debug)]
pub enum BlockOn<F, T> {
    Current(BlockOnCurrent<F>),
    Threaded(BlockOnThreaded<F, T>),
}

impl Runtime {
    /// The mode of the executor.
    pub closed spec fn mode(&self) -> ThreadWaker {
        *self.waker
    }

    /// An executor that runs everything on the thread of its caller.
    pub fn current() -> (runtime: Runtime)
        ensures
            runtime.mode() == ThreadWaker::Current,
    {
        Runtime { waker: ThreadWaker::current() }
    }

    /// An executor with `worker_thread` worker threads.
    pub fn threaded(worker_thread: usize) -> (runtime: Runtime)
        ensures
            runtime.mode() == ThreadWaker::Threaded(worker_thread),
    {
        Runtime { waker: ThreadWaker::threaded(worker_thread) }
    }

    /// The number of worker threads of a threaded executor; `None` for an
    /// executor that runs on the thread of its caller.
    pub fn workers(&self) -> (r: Option<usize>)
        ensures
            r == match self.mode() {
                ThreadWaker::Current => None,
                ThreadWaker::Threaded(workers) => Some(workers),
            },
    {
        match *self.waker {
            ThreadWaker::Current => None,
            ThreadWaker::Threaded(workers) => Some(workers),
        }
    }

    /// Sets up the run of a root computation: a fresh queue, installed as the
    /// queue of the calling thread, and what the mode asks for besides. A
    /// threaded executor needs at least one worker.
    pub fn block_on<F, T>(&self) -> (run: BlockOn<F, T>)
        requires
            self.mode() matches ThreadWaker::Threaded(workers) ==> workers >= 1,
        ensures
            match self.mode() {
                ThreadWaker::Current => run matches BlockOn::Current(current) && current.wf()
                    && current.queue() == Seq::<F>::empty()
                    && current.batch() == Seq::<F>::empty() && !current.sweeping(),
                ThreadWaker::Threaded(workers) => run matches BlockOn::Threaded(threaded)
                    && threaded.wf() && threaded.queue() == Seq::<F>::empty()
                    && threaded.workers().len() == workers && (forall|i: int|
                    0 <= i < workers ==> !(#[trigger] threaded.workers()[i]).waiting)
                    && threaded.root().fresh(),
            },
    {
        let mut local = ThreadLocal::new();
        FutureQueue::new().set_thread_local(&mut local);
        match *self.waker {
            ThreadWaker::Current => BlockOn::Current(
                BlockOnCurrent { local, batch: VecDeque::new(), sweeping: false },
            ),
            ThreadWaker::Threaded(worker_thread) => {
                let mut workers: Vec<Worker> = Vec::new();
                while workers.len() < worker_thread
                    invariant
                        workers@.len() <= worker_thread,
                        forall|i: int|
                            0 <= i < workers@.len() ==> !(#[trigger] workers@[i]).waiting,
                    decreases worker_thread - workers@.len(),
                {
                    workers.push(Worker::new());
                }
                BlockOn::Threaded(BlockOnThreaded { local, workers, root: RootCell::new() })
            },
        }
    }
}

/// What the thread that runs the executor on its own does next.
#[derive(Debug)]
pub enum Turn<F> {
    /// Poll the root computation and report the outcome with `root_polled`.
    PollRoot,
    /// Poll this spawned computation and hand it back with `task_polled`.
    PollTask(F),
    /// Pause for this long.
    Sleep(Duration),
}

/// A run on the caller's thread alone.
///
/// The run goes round and round: the root is polled; while it is pending, the
/// computations that are queued at that moment are taken out and polled one
/// by one in the order of the queue, each that is still pending going back to
/// the end of the queue; then the thread pauses for a millisecond.
#[derive(Debug)]
pub struct BlockOnCurrent<F> {
    local: ThreadLocal<F>,
    batch: VecDeque<F>,
    sweeping: bool,
}

impl<F> BlockOnCurrent<F> {
    /// A run always has its queue installed.
    pub closed spec fn wf(&self) -> bool {
        self.local.installed() is Some
    }

    /// The spawned computations that are queued.
    pub closed spec fn queue(&self) -> Seq<F> {
        self.local.installed()->0@
    }

    /// The computations taken out for this round that are still to be polled.
    pub closed spec fn batch(&self) -> Seq<F> {
        self.batch@
    }

    /// Whether the round has passed the root and is polling the batch.
    pub closed spec fn sweeping(&self) -> bool {
        self.sweeping
    }

    /// The next thing to do.
    pub fn turn(&mut self) -> (r: Turn<F>)
        requires
            old(self).wf(),
        ensures
            final(self).wf(),
            final(self).queue() == old(self).queue(),
            !old(self).sweeping() ==> r is PollRoot && final(self).batch() == old(self).batch()
                && !final(self).sweeping(),
            old(self).sweeping() && old(self).batch().len() > 0 ==> r == Turn::PollTask(
                old(self).batch()[0],
            ) && final(self).batch() == old(self).batch().skip(1) && final(self).sweeping(),
            old(self).sweeping() && old(self).batch().len() == 0 ==> r == Turn::<F>::Sleep(
                Duration { nanos: (IDLE_MILLIS * crate::time::NANOS_PER_MILLI) as u128 },
            ) && final(self).batch() == old(self).batch() && !final(self).sweeping(),
    {
        if !self.sweeping {
            Turn::PollRoot
        } else {
            match self.batch.pop_front() {
                Some(task) => {
                    assert(self.batch@ =~= old(self).batch@.skip(1));
                    Turn::PollTask(task)
                },
                None => {
                    self.sweeping = false;
                    Turn::Sleep(Duration::from_millis(IDLE_MILLIS))
                },
            }
        }
    }

    /// The root was polled and is pending: the computations that are queued
    /// now make up the batch of this round.
    pub fn root_pending(&mut self)
        requires
            old(self).wf(),
        ensures
            final(self).wf(),
            final(self).batch() == old(self).batch() + old(self).queue(),
            final(self).queue() == Seq::<F>::empty(),
            final(self).sweeping(),
    {
        let queue = FutureQueue::get_thread_local(&mut self.local);
        let mut taken = queue.drain();
        let ghost head = self.batch@;
        let ghost all = taken@;
        let mut rest: VecDeque<F> = VecDeque::new();
        while taken.len() > 0
            invariant
                taken@ + rest@ == all,
            decreases taken@.len(),
        {
            let ghost before = taken@;
            let last = taken.pop().unwrap();
            rest.push_front(last);
            assert(taken@ + rest@ =~= all) by {
                assert(before =~= taken@.push(last));
            }
        }
        assert(rest@ =~= all);
        self.batch.append(&mut rest);
        self.sweeping = true;
    }

    /// The root was polled. A root that is ready ends the run: its value is
    /// handed out for `block_on` to return, and the run stays as it is. A
    /// root that is pending lets the round go on, as `root_pending` says.
    pub fn root_polled<T>(&mut self, outcome: Poll<T>) -> (r: Option<T>)
        requires
            old(self).wf(),
        ensures
            final(self).wf(),
            match outcome {
                Poll::Ready(value) => {
                    &&& r == Some(value)
                    &&& final(self).queue() == old(self).queue()
                    &&& final(self).batch() == old(self).batch()
                    &&& final(self).sweeping() == old(self).sweeping()
                },
                Poll::Pending => {
                    &&& r is None
                    &&& final(self).batch() == old(self).batch() + old(self).queue()
                    &&& final(self).queue() == Seq::<F>::empty()
                    &&& final(self).sweeping()
                },
            },
    {
        match outcome {
            Poll::Ready(value) => Some(value),
            Poll::Pending => {
                self.root_pending();
                None
            },
        }
    }

    /// A computation of the batch was polled: it goes back to the queue as
    /// `FutureQueue::polled` says.
    pub fn task_polled(&mut self, task: F, outcome: Poll<()>) -> (wake: Wake)
        requires
            old(self).wf(),
        ensures
            final(self).wf(),
            final(self).queue() == if outcome is Pending {
                old(self).queue().push(task)
            } else {
                old(self).queue()
            },
            final(self).batch() == old(self).batch(),
            final(self).sweeping() == old(self).sweeping(),
            wake == Wake::after(outcome is Pending),
    {
        FutureQueue::get_thread_local(&mut self.local).polled(task, outcome)
    }

    /// The installed queue, onto which the computations that are being polled
    /// spawn others.
    pub fn local(&mut self) -> (local: &mut ThreadLocal<F>)
        requires
            old(self).wf(),
        ensures
            local.installed() is Some,
            local.installed()->0@ == old(self).queue(),
            final(local).installed() is Some ==> final(self).wf() && final(self).queue()
                == final(local).installed()->0@,
            final(self).batch() == old(self).batch(),
            final(self).sweeping() == old(self).sweeping(),
    {
        &mut self.local
    }
}

/// What a worker thread does next.
#[derive(Debug)]
pub enum WorkerTurn<F> {
    /// Poll this computation and hand it back to the queue with `polled`.
    PollTask(F),
    /// Wait on the queue in this way.
    Wait(Wait),
}

/// A worker thread of a threaded run: it takes one computation from the
/// queue, polls it, puts it back if it is pending, waits on the queue, and
/// starts over.
#[derive(Clone, Copy, Debug, PartialEq, Eq, Structural)]
pub struct Worker {
    /// Whether the worker has had its computation in this round and waits next.
    pub waiting: bool,
}

impl Worker {
    pub fn new() -> (worker: Worker)
        ensures
            !worker.waiting,
    {
        Worker { waiting: false }
    }

    /// The next thing to do, given the queue that the workers share.
    pub fn turn<F>(&mut self, queue: &mut FutureQueue<F>) -> (r: WorkerTurn<F>)
        ensures
            !old(self).waiting && old(queue)@.len() > 0 ==> r == WorkerTurn::PollTask(
                old(queue)@[0],
            ) && final(queue)@ == old(queue)@.skip(1) && final(self).waiting,
            old(self).waiting || old(queue)@.len() == 0 ==> r == WorkerTurn::<F>::Wait(
                FutureQueue::<F>::spec_wait(old(queue)@.len()),
            ) && final(queue)@ == old(queue)@ && !final(self).waiting,
    {
        if !self.waiting {
            match queue.get() {
                Some(task) => {
                    self.waiting = true;
                    return WorkerTurn::PollTask(task);
                },
                None => {},
            }
        }
        self.waiting = false;
        WorkerTurn::Wait(queue.wait())
    }
}

/// The place in which a threaded run hands the value of the root computation
/// to the thread that called `block_on`.
///
/// The task that drives the root stores the value and then arrives at a
/// barrier for two; the calling thread arrives at the same barrier and takes
/// the value once the barrier lets it go.
#[derive(Debug)]
pub struct RootCell<T> {
    value: Option<T>,
    taken: bool,
    barrier: Barrier,
    root: BarrierWaiter,
    main: BarrierWaiter,
}

impl<T> RootCell<T> {
    /// The value that is stored and not taken yet.
    pub closed spec fn value(&self) -> Option<T> {
        self.value
    }

    /// Whether the value has been taken out.
    pub closed spec fn taken(&self) -> bool {
        self.taken
    }

    /// Whether the root's task has stored the value and arrived.
    pub closed spec fn root_arrived(&self) -> bool {
        self.root.entry is Some
    }

    /// Whether the calling thread has arrived.
    pub closed spec fn main_arrived(&self) -> bool {
        self.main.entry is Some
    }

    /// A cell before anything has happened to it.
    pub open spec fn fresh(&self) -> bool {
        &&& self.wf()
        &&& self.value() is None
        &&& !self.taken()
        &&& !self.root_arrived()
        &&& !self.main_arrived()
    }

    /// The cell is in order: the barrier has counted exactly the parties that
    /// have arrived, each party knows the generation it arrived in, and the
    /// value is there from the root's arrival until it is taken.
    pub closed spec fn wf(&self) -> bool {
        let arrivals: nat = if self.root.entry is Some { 1nat } else { 0nat } + if self.main.entry
            is Some { 1nat } else { 0nat };
        &&& self.barrier.parties() == 2
        &&& self.barrier.state() == BarrierState::after(2, arrivals)
        &&& self.root.entry matches Some(entry) ==> entry.1 == 0
        &&& self.main.entry matches Some(entry) ==> entry.1 == 0
        &&& self.value is Some <==> self.root.entry is Some && !self.taken
        &&& self.taken ==> self.root.entry is Some && self.main.entry is Some
    }

    pub fn new() -> (cell: RootCell<T>)
        ensures
            cell.fresh(),
    {
        RootCell {
            value: None,
            taken: false,
            barrier: Barrier::new(2),
            root: BarrierWaiter::new(),
            main: BarrierWaiter::new(),
        }
    }

    /// The end of the root's task: `value` is what the root computation came
    /// to. It is stored, and the task arrives at the barrier; the result is one
    /// poll of its wait there.
    pub fn publish(&mut self, value: T) -> (r: Poll<()>)
        requires
            old(self).wf(),
            !old(self).root_arrived(),
        ensures
            final(self).wf(),
            final(self).value() == Some(value),
            final(self).root_arrived(),
            final(self).main_arrived() == old(self).main_arrived(),
            !final(self).taken(),
            r is Ready <==> old(self).main_arrived(),
    {
        proof {
            lemma_two_party_counts();
        }
        self.value = Some(value);
        match self.barrier.wait(&mut self.root) {
            Poll::Ready(_) => Poll::Ready(()),
            Poll::Pending => Poll::Pending,
        }
    }

    /// A later poll of the wait of the root's task at the barrier.
    pub fn root_wait(&mut self) -> (r: Poll<()>)
        requires
            old(self).wf(),
            old(self).root_arrived(),
        ensures
            final(self).wf(),
            final(self).value() == old(self).value(),
            final(self).taken() == old(self).taken(),
            final(self).root_arrived(),
            final(self).main_arrived() == old(self).main_arrived(),
            r is Ready <==> old(self).main_arrived(),
    {
        proof {
            lemma_two_party_counts();
        }
        match self.barrier.wait(&mut self.root) {
            Poll::Ready(_) => Poll::Ready(()),
            Poll::Pending => Poll::Pending,
        }
    }

    /// One poll of the calling thread's wait for the value: it arrives at the
    /// barrier if it has not yet, and takes the value as soon as the root's
    /// task has arrived too.
    pub fn join(&mut self) -> (r: Poll<T>)
        requires
            old(self).wf(),
            !old(self).taken(),
        ensures
            final(self).wf(),
            final(self).main_arrived(),
            final(self).root_arrived() == old(self).root_arrived(),
            old(self).root_arrived() ==> r == Poll::Ready(old(self).value()->0)
                && final(self).taken() && final(self).value() is None,
            !old(self).root_arrived() ==> r is Pending && !final(self).taken()
                && final(self).value() is None,
    {
        proof {
            lemma_two_party_counts();
        }
        match self.barrier.wait(&mut self.main) {
            Poll::Ready(_) => {
                self.taken = true;
                Poll::Ready(self.value.take().unwrap())
            },
            Poll::Pending => Poll::Pending,
        }
    }
}

/// The counts of a barrier for two after no, one and two arrivals.
proof fn lemma_two_party_counts()
    ensures
        BarrierState::after(2, 0) == (BarrierState { counter: 0, generation: 0 }),
        BarrierState::after(2, 1) == (BarrierState { counter: 1, generation: 0 }),
        BarrierState::after(2, 2) == (BarrierState { counter: 0, generation: 1 }),
{
    reveal_with_fuel(BarrierState::after, 3);
}

/// A threaded run: the queue that all its threads share, its workers, and the
/// cell for the root's value.
#[derive(Debug)]
pub struct BlockOnThreaded<F, T> {
    local: ThreadLocal<F>,
    workers: Vec<Worker>,
    root: RootCell<T>,
}

impl<F, T> BlockOnThreaded<F, T> {
    /// A run always has its queue installed.
    pub closed spec fn wf(&self) -> bool {
        self.local.installed() is Some && self.root.wf()
    }

    /// The spawned computations that are queued.
    pub closed spec fn queue(&self) -> Seq<F> {
        self.local.installed()->0@
    }

    /// The workers of the run.
    pub closed spec fn workers(&self) -> Seq<Worker> {
        self.workers@
    }

    /// The cell for the root's value.
    pub closed spec fn root(&self) -> RootCell<T> {
        self.root
    }

    /// Takes the run apart, for the threads that each get their share of it:
    /// the installed queue, the workers, and the cell.
    pub fn into_parts(self) -> (parts: (ThreadLocal<F>, Vec<Worker>, RootCell<T>))
        requires
            self.wf(),
        ensures
            parts.0.installed() is Some,
            parts.0.installed()->0@ == self.queue(),
            parts.1@ == self.workers(),
            parts.2 == self.root(),
    {
        (self.local, self.workers, self.root)
    }
}

} // verus!
