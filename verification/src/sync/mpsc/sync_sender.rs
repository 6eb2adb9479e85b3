use crate::poll::Poll;
use crate::sync::mpsc::{Channel, ChannelView, SendError, TrySendError};
use std::marker::PhantomData;
use vstd::prelude::*;

verus! {

/// A sending handle of a channel with a bound.
#[derive(Debug)]
pub struct SyncSender<T> {
    bound: usize,
    marker: PhantomData<T>,
}

impl<T> SyncSender<T> {
    /// The bound: this sender waits while more values than this are queued.
    pub closed spec fn bound(&self) -> usize {
        self.bound
    }

    /// A new sender of `channel`.
    pub fn new(channel: &mut Channel<T>, bound: usize) -> (sender: SyncSender<T>)
        requires
            old(channel)@.senders < usize::MAX,
        ensures
            sender.bound() == bound,
            final(channel)@ == (ChannelView {
                senders: old(channel)@.senders + 1,
                ..old(channel)@
            }),
    {
        channel.add_sender();
        SyncSender { bound, marker: PhantomData }
    }

    /// One more sender of the same channel, with the same bound.
    pub fn clone(&self, channel: &mut Channel<T>) -> (sender: SyncSender<T>)
        requires
            old(channel)@.senders < usize::MAX,
        ensures
            sender.bound() == self.bound(),
            final(channel)@ == (ChannelView {
                senders: old(channel)@.senders + 1,
                ..old(channel)@
            }),
    {
        SyncSender::new(channel, self.bound)
    }

    /// The end of this sender.
    pub fn drop(self, channel: &mut Channel<T>)
        requires
            old(channel)@.senders >= 1,
        ensures
            final(channel)@ == (ChannelView {
                senders: (old(channel)@.senders - 1) as nat,
                ..old(channel)@
            }),
    {
        channel.remove_sender();
    }

    /// One poll of sending what `value` holds.
    ///
    /// If the receiver is gone the send fails and hands the value back. While
    /// more values than the bound are queued the send is pending and the value
    /// stays in `value`. Otherwise the value is queued. A send whose value is
    /// gone already has nothing left to do.
    pub fn send(&self, channel: &mut Channel<T>, value: &mut Option<T>) -> (r: Poll<
        Result<(), SendError<T>>,
    >)
        ensures
            *old(value) matches Some(item) ==> final(channel)@ == old(channel)@.offered(
                self.bound(),
                item,
            ),
            match *old(value) {
                None => r == Poll::Ready(Ok::<(), SendError<T>>(()))
                    && final(channel)@ == old(channel)@ && *final(value) is None,
                Some(item) => if !old(channel)@.receiver {
                    r == Poll::Ready(Err::<(), SendError<T>>(SendError(item))) && final(channel)@
                        == old(channel)@ && *final(value) is None
                } else if old(channel)@.queue.len() > self.bound() {
                    r is Pending && final(channel)@ == old(channel)@ && *final(value) == Some(item)
                } else {
                    r == Poll::Ready(Ok::<(), SendError<T>>(()))
                        && final(channel)@ == old(channel)@.pushed(item)
                        && *final(value) is None
                },
            },
    {
        match value.take() {
            None => Poll::Ready(Ok(())),
            Some(item) => {
                if !channel.has_receiver() {
                    Poll::Ready(Err(SendError(item)))
                } else if channel.len() > self.bound {
                    *value = Some(item);
                    Poll::Pending
                } else {
                    channel.push(item);
                    Poll::Ready(Ok(()))
                }
            },
        }
    }

    /// Queues `value` without waiting, or hands it back: as `Disconnected` if
    /// the receiver is gone, as `Full` if more values than the bound are
    /// queued.
    pub fn try_send(&self, channel: &mut Channel<T>, value: T) -> (r: Result<(), TrySendError<T>>)
        ensures
            final(channel)@ == old(channel)@.offered(self.bound(), value),
            if !old(channel)@.receiver {
                r == Err::<(), TrySendError<T>>(TrySendError::Disconnected(value))
                    && final(channel)@ == old(channel)@
            } else if old(channel)@.queue.len() > self.bound() {
                r == Err::<(), TrySendError<T>>(TrySendError::Full(value)) && final(channel)@
                    == old(channel)@
            } else {
                r is Ok && final(channel)@ == old(channel)@.pushed(value)
            },
    {
        if !channel.has_receiver() {
            Err(TrySendError::Disconnected(value))
        } else if channel.len() > self.bound {
            Err(TrySendError::Full(value))
        } else {
            channel.push(value);
            Ok(())
        }
    }
}

} // verus!
