use crate::poll::Poll;
use vstd::prelude::*;

verus! {

/// What a party learns when it leaves a barrier.
#[derive(Debug)]
pub struct BarrierWaitResult(pub bool);

impl BarrierWaitResult {
    /// Whether this party was the first to arrive in its round.
    pub fn is_leader(&self) -> (r: bool)
        ensures
            r == self.0,
    {
        self.0
    }
}

/// The count of a barrier: the parties that have arrived in the round that is
/// running, and the rounds that are complete.
#[derive(Clone, Copy, Debug, PartialEq, Eq, Structural)]
pub struct BarrierState {
    pub counter: usize,
    pub generation: usize,
}

impl BarrierState {
    /// The count after one more party has arrived at a barrier for `n` parties:
    /// the arrival that fills the round empties the counter and completes the
    /// generation.
    pub open spec fn arrive(self, n: usize) -> BarrierState {
        if self.counter + 1 >= n {
            BarrierState { counter: 0, generation: (self.generation + 1) as usize }
        } else {
            BarrierState { counter: (self.counter + 1) as usize, generation: self.generation }
        }
    }

    /// The count after `k` arrivals at a barrier for `n` parties that started
    /// out empty.
    pub open spec fn after(n: usize, k: nat) -> BarrierState
        decreases k,
    {
        if k == 0 {
            BarrierState { counter: 0, generation: 0 }
        } else {
            Self::after(n, (k - 1) as nat).arrive(n)
        }
    }
}

/// A meeting point for `n` parties: who arrives waits until the round is full.
#[derive(Debug)]
pub struct Barrier {
    n: usize,
    state: BarrierState,
}

/// The progress of one party's wait at a barrier: nothing before its arrival,
/// afterwards whether it arrived first and the generation it arrived in.
#[derive(Debug)]
pub struct BarrierWaiter {
    pub entry: Option<(bool, usize)>,
}

impl BarrierWaiter {
    /// A party that has not arrived yet.
    pub fn new() -> (waiter: BarrierWaiter)
        ensures
            waiter.entry is None,
    {
        BarrierWaiter { entry: None }
    }
}

impl Barrier {
    /// The number of parties of a round.
    pub closed spec fn parties(&self) -> usize {
        self.n
    }

    /// The count of the barrier.
    pub closed spec fn state(&self) -> BarrierState {
        self.state
    }

    /// In a barrier that is in order the round that is running is never full.
    pub open spec fn wf(&self) -> bool {
        self.state().counter == 0 || self.state().counter < self.parties()
    }

    pub fn new(n: usize) -> (barrier: Barrier)
        ensures
            barrier.parties() == n,
            barrier.state() == (BarrierState { counter: 0, generation: 0 }),
            barrier.wf(),
    {
        Barrier { n, state: BarrierState { counter: 0, generation: 0 } }
    }

    /// The generation that is running, for a caller that has to know whether
    /// another round can still be counted.
    pub fn generation(&self) -> (g: usize)
        ensures
            g == self.state().generation,
    {
        self.state.generation
    }

    /// One poll of a party's wait.
    ///
    /// The first poll is the arrival: the party notes whether the round was
    /// empty and which generation was running, and is counted. Every poll then
    /// asks whether a later generation is running by now: if so the wait is
    /// over, and its result tells whether the party was its round's first.
    /// A party can arrive only while the generations can still be counted.
    pub fn wait(&mut self, waiter: &mut BarrierWaiter) -> (r: Poll<BarrierWaitResult>)
        requires
            old(self).wf(),
            old(waiter).entry is None ==> old(self).state().generation < usize::MAX,
        ensures
            final(self).wf(),
            final(self).parties() == old(self).parties(),
            final(self).state() == if old(waiter).entry is None {
                old(self).state().arrive(old(self).parties())
            } else {
                old(self).state()
            },
            final(waiter).entry == if old(waiter).entry is None {
                Some((old(self).state().counter == 0, old(self).state().generation))
            } else {
                old(waiter).entry
            },
            final(waiter).entry matches Some(entry) && r == if final(self).state().generation
                > entry.1 {
                Poll::Ready(BarrierWaitResult(entry.0))
            } else {
                Poll::Pending
            },
    {
        let (leader, generation) = match waiter.entry {
            Some(entry) => entry,
            None => {
                let entry = (self.state.counter == 0, self.state.generation);
                if self.state.counter + 1 >= self.n {
                    self.state = BarrierState {
                        counter: 0,
                        generation: self.state.generation + 1,
                    };
                } else {
                    self.state = BarrierState {
                        counter: self.state.counter + 1,
                        generation: self.state.generation,
                    };
                }
                waiter.entry = Some(entry);
                entry
            },
        };
        if self.state.generation > generation {
            Poll::Ready(BarrierWaitResult(leader))
        } else {
            Poll::Pending
        }
    }
}

/// The count of a barrier for `n >= 1` parties after `k` arrivals: `k % n`
/// parties wait in the round that is running, and `k / n` rounds are complete.
pub proof fn lemma_barrier_count(n: usize, k: nat)
    requires
        n >= 1,
        k / (n as nat) <= usize::MAX,
    ensures
        BarrierState::after(n, k) == (BarrierState {
            counter: (k % (n as nat)) as usize,
            generation: (k / (n as nat)) as usize,
        }),
    decreases k,
{
    let m = n as nat;
    if k > 0 {
        let j = (k - 1) as nat;
        lemma_step(j as int, m as int);
        lemma_barrier_count(n, j);
        vstd::arithmetic::div_mod::lemma_mod_bound(j as int, m as int);
    } else {
        assert(0nat % m == 0 && 0nat / m == 0) by {
            vstd::arithmetic::div_mod::lemma_small_mod(0, m);
            vstd::arithmetic::div_mod::lemma_basic_div(0, m as int);
        }
    }
}

/// Division and remainder of `j + 1`, from those of `j`.
proof fn lemma_step(j: int, m: int)
    requires
        j >= 0,
        m >= 1,
    ensures
        j % m + 1 == m ==> (j + 1) % m == 0 && (j + 1) / m == j / m + 1,
        j % m + 1 != m ==> (j + 1) % m == j % m + 1 && (j + 1) / m == j / m,
{
    vstd::arithmetic::div_mod::lemma_fundamental_div_mod(j, m);
    vstd::arithmetic::div_mod::lemma_mod_bound(j, m);
    let q = j / m;
    let r = j % m;
    if r + 1 == m {
        assert(j + 1 == (q + 1) * m + 0) by (nonlinear_arith)
            requires
                j == m * q + r,
                r + 1 == m,
        ;
        vstd::arithmetic::div_mod::lemma_fundamental_div_mod_converse(j + 1, m, q + 1, 0);
    } else {
        assert(j + 1 == q * m + (r + 1)) by (nonlinear_arith)
            requires
                j == m * q + r,
        ;
        vstd::arithmetic::div_mod::lemma_fundamental_div_mod_converse(j + 1, m, q, r + 1);
    }
}

/// The rendezvous: at a barrier for `n >= 1` parties the arrival number `k`
/// (counted from zero) leads its round exactly if it is the first of its `n`,
/// and once `m` parties have arrived its wait is over exactly if all `n` of
/// its round are among them.
pub proof fn lemma_barrier_rendezvous(n: usize, k: nat, m: nat)
    requires
        n >= 1,
        k < m,
        m / (n as nat) <= usize::MAX,
    ensures
        (BarrierState::after(n, k).counter == 0) == (k % (n as nat) == 0),
        (BarrierState::after(n, m).generation > BarrierState::after(n, k).generation) == (m >= (k
            / (n as nat) + 1) * n),
{
    let d = n as nat;
    vstd::arithmetic::div_mod::lemma_div_is_ordered(k as int, m as int, d as int);
    lemma_barrier_count(n, k);
    lemma_barrier_count(n, m);
    vstd::arithmetic::div_mod::lemma_fundamental_div_mod(m as int, d as int);
    vstd::arithmetic::div_mod::lemma_mod_bound(m as int, d as int);
    let q = k / d;
    let p = m / d;
    assert((p > q) == (m >= (q + 1) * d)) by (nonlinear_arith)
        requires
            m == d * p + m % d,
            0 <= m % d < d,
            d >= 1,
    ;
}

} // verus!
