use crate::poll::Poll;
use crate::sync::mpsc::{Channel, ChannelView, RecvError, RecvTimeoutError, TryRecvError};
use crate::time::{Duration, Instant};
use std::marker::PhantomData;
use vstd::prelude::*;

verus! {

/// The receiving handle of a channel.
#[derive(Debug)]
pub struct Receiver<T> {
    marker: PhantomData<T>,
}

impl<T> Receiver<T> {
    /// The receiver of `channel`.
    pub fn new(channel: &mut Channel<T>) -> (receiver: Receiver<T>)
        ensures
            final(channel)@ == (ChannelView { receiver: true, ..old(channel)@ }),
    {
        channel.set_receiver(true);
        Receiver { marker: PhantomData }
    }

    /// The end of the receiver: from now on every send fails.
    pub fn drop(self, channel: &mut Channel<T>)
        ensures
            final(channel)@ == (ChannelView { receiver: false, ..old(channel)@ }),
    {
        channel.set_receiver(false);
    }

    /// One poll of receiving: the oldest value if one is queued; failure if
    /// none is and no sender is left; `Pending` while senders are left and
    /// nothing is queued.
    pub fn recv(&self, channel: &mut Channel<T>) -> (r: Poll<Result<T, RecvError>>)
        ensures
            final(channel)@ == old(channel)@.received(),
            if old(channel)@.queue.len() > 0 {
                r == Poll::Ready(Ok::<T, RecvError>(old(channel)@.queue[0])) && final(channel)@
                    == old(channel)@.popped()
            } else if old(channel)@.senders == 0 {
                r == Poll::Ready(Err::<T, RecvError>(RecvError)) && final(channel)@ == old(channel)@
            } else {
                r is Pending && final(channel)@ == old(channel)@
            },
    {
        match channel.pop() {
            Some(value) => Poll::Ready(Ok(value)),
            None => {
                if channel.senders() == 0 {
                    Poll::Ready(Err(RecvError))
                } else {
                    Poll::Pending
                }
            },
        }
    }

    /// One poll of a receive that began at `started` and gives up once
    /// `timeout` has gone by. A channel that is disconnected fails as such;
    /// next, a receive whose time is up fails with `Timeout`, whatever is
    /// queued; otherwise the poll is that of `recv`.
    pub fn recv_timeout(
        &self,
        channel: &mut Channel<T>,
        started: Instant,
        timeout: Duration,
        now: Instant,
    ) -> (r: Poll<Result<T, RecvTimeoutError>>)
        ensures
            if old(channel)@.disconnected() {
                r == Poll::Ready(Err::<T, RecvTimeoutError>(RecvTimeoutError::Disconnected))
                    && final(channel)@ == old(channel)@
            } else if started.spec_elapsed(now).nanos >= timeout.nanos {
                r == Poll::Ready(Err::<T, RecvTimeoutError>(RecvTimeoutError::Timeout))
                    && final(channel)@ == old(channel)@
            } else if old(channel)@.queue.len() > 0 {
                r == Poll::Ready(Ok::<T, RecvTimeoutError>(old(channel)@.queue[0]))
                    && final(channel)@ == old(channel)@.popped()
            } else {
                r is Pending && final(channel)@ == old(channel)@
            },
    {
        if channel.senders() == 0 && channel.len() == 0 {
            return Poll::Ready(Err(RecvTimeoutError::Disconnected));
        }
        if started.elapsed(now).nanos >= timeout.nanos {
            return Poll::Ready(Err(RecvTimeoutError::Timeout));
        }
        match channel.pop() {
            Some(value) => Poll::Ready(Ok(value)),
            None => Poll::Pending,
        }
    }

    /// Receives without waiting: the oldest value if one is queued, else
    /// `Disconnected` if no sender is left and `Empty` if one is.
    pub fn try_recv(&self, channel: &mut Channel<T>) -> (r: Result<T, TryRecvError>)
        ensures
            final(channel)@ == old(channel)@.received(),
            if old(channel)@.queue.len() > 0 {
                r == Ok::<T, TryRecvError>(old(channel)@.queue[0])
                    && final(channel)@ == old(channel)@.popped()
            } else if old(channel)@.senders == 0 {
                r == Err::<T, TryRecvError>(TryRecvError::Disconnected)
                    && final(channel)@ == old(channel)@
            } else {
                r == Err::<T, TryRecvError>(TryRecvError::Empty) && final(channel)@ == old(channel)@
            },
    {
        match channel.pop() {
            Some(value) => Ok(value),
            None => {
                if channel.senders() == 0 {
                    Err(TryRecvError::Disconnected)
                } else {
                    Err(TryRecvError::Empty)
                }
            },
        }
    }
}

} // verus!
