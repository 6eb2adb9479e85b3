use crate::io::error::{Error, ErrorKind};
use crate::poll::Poll;
use crate::time::Duration;
use std::collections::VecDeque;
use vstd::prelude::*;

verus! {

/// The timeout of the first connection attempt, in milliseconds.
pub const FIRST_TIMEOUT_MILLIS: u64 = 50;

/// What a caller has to do to carry a connection walk one step further.
#[derive(Debug)]
pub enum Attempt<A> {
    /// Try to connect to this address, waiting no longer than the given time,
    /// and report the outcome with `resolve`.
    Connect(A, Duration),
    /// The walk is over without a connection.
    Fail(Error),
}

/// A walk over the addresses that a name resolved to, in search of one that
/// accepts a connection.
///
/// Every attempt is given a timeout. It starts at 50 ms and doubles each time
/// an attempt times out, up to `max_timeout`; an address that timed out is
/// tried again later with the longer timeout, until an attempt with the full
/// `max_timeout` has timed out too. An address that fails in another way is
/// given up at once. The failure seen last is kept for the end of the walk.
#[derive(Debug)]
pub struct ConnectTimeout<A> {
    addresses: VecDeque<A>,
    error: Option<Error>,
    timeout: Duration,
    max_timeout: Duration,
}

/// The state of a walk, as contracts speak of it.
pub struct ConnectState<A> {
    /// The addresses still to be tried, the next one first.
    pub addresses: Seq<A>,
    /// The failure recorded last, if any.
    pub error: Option<Error>,
    /// The timeout that the next attempt gets.
    pub timeout: Duration,
    /// The longest timeout that an attempt may get.
    pub max_timeout: Duration,
}

impl<A> View for ConnectTimeout<A> {
    type V = ConnectState<A>;

    closed spec fn view(&self) -> ConnectState<A> {
        ConnectState {
            addresses: self.addresses@,
            error: self.error,
            timeout: self.timeout,
            max_timeout: self.max_timeout,
        }
    }
}

impl<A> ConnectState<A> {
    /// The state after an attempt on `address` has failed with `error`.
    pub open spec fn after_failure(self, address: A, error: Error) -> ConnectState<A> {
        if error.kind == ErrorKind::TimedOut && self.timeout.nanos < self.max_timeout.nanos {
            ConnectState {
                addresses: self.addresses.push(address),
                timeout: self.timeout.spec_doubled_up_to(self.max_timeout),
                ..self
            }
        } else {
            ConnectState { error: Some(error), ..self }
        }
    }

    /// A bound on the attempts that can still fail before the walk runs dry:
    /// every failure either gives an address up or doubles the timeout, and the
    /// timeout can only double so many times.
    pub open spec fn attempts_left(self) -> nat {
        self.addresses.len() + doublings_left(
            self.timeout.nanos as nat,
            self.max_timeout.nanos as nat,
        )
    }
}

/// How often `timeout` can be doubled before it reaches `max`.
pub open spec fn doublings_left(timeout: nat, max: nat) -> nat
    decreases max - timeout,
{
    if timeout == 0 || timeout >= max {
        0
    } else if 2 * timeout >= max {
        1
    } else {
        1 + doublings_left(2 * timeout, max)
    }
}

/// A walk comes to its end: taking the next address and seeing the attempt on it
/// fail lowers the bound on the failures that are left, whatever the failure
/// was, and keeps the timeout above zero.
pub proof fn lemma_failed_attempt_uses_budget<A>(state: ConnectState<A>, error: Error)
    requires
        state.addresses.len() > 0,
        state.timeout.nanos > 0,
    ensures
        ({
            let tried = ConnectState { addresses: state.addresses.skip(1), ..state };
            let after = tried.after_failure(state.addresses[0], error);
            after.attempts_left() < state.attempts_left() && after.timeout.nanos > 0
        }),
{
    let timeout = state.timeout.nanos as nat;
    let max = state.max_timeout.nanos as nat;
    if timeout < max {
        assert(doublings_left(max, max) == 0);
    }
}

impl<A> ConnectTimeout<A> {
    /// Starts a walk over `addresses`, in their order, with a first timeout of
    /// 50 ms.
    pub fn new(addresses: Vec<A>, max_timeout: Duration) -> (walk: ConnectTimeout<A>)
        ensures
            walk@.addresses == addresses@,
            walk@.error is None,
            walk@.timeout.nanos == FIRST_TIMEOUT_MILLIS * crate::time::NANOS_PER_MILLI,
            walk@.max_timeout == max_timeout,
    {
        let mut source = addresses;
        let mut queue: VecDeque<A> = VecDeque::new();
        let ghost all = source@;
        while source.len() > 0
            invariant
                source@ == all.subrange(0, source@.len() as int),
                queue@ == all.subrange(source@.len() as int, all.len() as int),
                source@.len() <= all.len(),
            decreases source@.len(),
        {
            let last = source.pop().unwrap();
            queue.push_front(last);
            assert(source@ =~= all.subrange(0, source@.len() as int));
            assert(queue@ =~= all.subrange(source@.len() as int, all.len() as int));
        }
        assert(queue@ =~= all);
        ConnectTimeout {
            addresses: queue,
            error: None,
            timeout: Duration::from_millis(FIRST_TIMEOUT_MILLIS),
            max_timeout,
        }
    }

    /// The first half of a poll: the next address with the timeout of its
    /// attempt. Once no address is left the walk fails, with the failure
    /// recorded last or, if none was recorded, because no address is available.
    pub fn next(&mut self) -> (r: Attempt<A>)
        ensures
            old(self)@.addresses.len() > 0 ==> r == Attempt::Connect(
                old(self)@.addresses[0],
                old(self)@.timeout,
            ) && final(self)@ == (ConnectState {
                addresses: old(self)@.addresses.skip(1),
                ..old(self)@
            }),
            old(self)@.addresses.len() == 0 ==> final(self)@ == (ConnectState {
                error: None,
                ..old(self)@
            }) && match old(self)@.error {
                Some(error) => r == Attempt::<A>::Fail(error),
                None => (r matches Attempt::Fail(e) && e@ == (
                    ErrorKind::AddrNotAvailable,
                    "No SocketAddr provided"@,
                )),
            },
    {
        match self.addresses.pop_front() {
            Some(address) => {
                proof {
                    assert(self.addresses@ =~= old(self).addresses@.skip(1));
                }
                Attempt::Connect(address, self.timeout)
            },
            None => {
                match self.error.take() {
                    Some(error) => Attempt::Fail(error),
                    None => Attempt::Fail(
                        Error::new(ErrorKind::AddrNotAvailable, "No SocketAddr provided"),
                    ),
                }
            },
        }
    }

    /// The second half of a poll: the outcome of the attempt on `address`.
    ///
    /// A stream that was connected comes with the outcome of putting it into
    /// non-blocking mode: it is handed out if that worked, and the poll ends
    /// with that failure if it did not. A failed attempt leaves the poll
    /// pending and changes the walk as `after_failure` says.
    pub fn resolve<S>(
        &mut self,
        address: A,
        outcome: Result<(S, Result<(), Error>), Error>,
    ) -> (r: Poll<Result<S, Error>>)
        ensures
            match outcome {
                Ok((stream, Ok(()))) => r == Poll::Ready(Ok::<S, Error>(stream)) && final(self)@
                    == old(self)@,
                Ok((stream, Err(error))) => r == Poll::Ready(Err::<S, Error>(error))
                    && final(self)@ == old(self)@,
                Err(error) => r is Pending && final(self)@ == old(self)@.after_failure(
                    address,
                    error,
                ),
            },
    {
        match outcome {
            Ok((stream, Ok(()))) => Poll::Ready(Ok(stream)),
            Ok((_, Err(error))) => Poll::Ready(Err(error)),
            Err(error) => {
                match error.kind {
                    ErrorKind::TimedOut => {
                        if self.timeout.nanos < self.max_timeout.nanos {
                            self.timeout = self.timeout.doubled_up_to(self.max_timeout);
                            self.addresses.push_back(address);
                        } else {
                            self.error = Some(error);
                        }
                    },
                    _ => {
                        self.error = Some(error);
                    },
                }
                Poll::Pending
            },
        }
    }
}

} // verus!
