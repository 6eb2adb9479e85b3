use crate::sync::mpsc::{Channel, ChannelView, SendError};
use std::marker::PhantomData;
use vstd::prelude::*;

verus! {

/// A sending handle of a channel without a bound.
#[derive(Debug)]
pub struct Sender<T> {
    marker: PhantomData<T>,
}

impl<T> Sender<T> {
    /// A new sender of `channel`.
    pub fn new(channel: &mut Channel<T>) -> (sender: Sender<T>)
        requires
            old(channel)@.senders < usize::MAX,
        ensures
            final(channel)@ == (ChannelView {
                senders: old(channel)@.senders + 1,
                ..old(channel)@
            }),
    {
        channel.add_sender();
        Sender { marker: PhantomData }
    }

    /// One more sender of the same channel.
    pub fn clone(&self, channel: &mut Channel<T>) -> (sender: Sender<T>)
        requires
            old(channel)@.senders < usize::MAX,
        ensures
            final(channel)@ == (ChannelView {
                senders: old(channel)@.senders + 1,
                ..old(channel)@
            }),
    {
        Sender::new(channel)
    }

    /// The end of this sender.
    pub fn drop(self, channel: &mut Channel<T>)
        requires
            old(channel)@.senders >= 1,
        ensures
            final(channel)@ == (ChannelView {
                senders: (old(channel)@.senders - 1) as nat,
                ..old(channel)@
            }),
    {
        channel.remove_sender();
    }

    /// Queues `value`, unless the receiver is gone: then the value comes back.
    /// A send never waits.
    pub fn send(&self, channel: &mut Channel<T>, value: T) -> (r: Result<(), SendError<T>>)
        ensures
            old(channel)@.receiver ==> r is Ok && final(channel)@ == old(channel)@.pushed(value),
            !old(channel)@.receiver ==> r == Err::<(), SendError<T>>(SendError(value))
                && final(channel)@ == old(channel)@,
    {
        if channel.has_receiver() {
            channel.push(value);
            Ok(())
        } else {
            Err(SendError(value))
        }
    }
}

} // verus!
