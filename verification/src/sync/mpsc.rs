pub mod receiver;
pub mod sender;
pub mod sync_sender;

pub use receiver::Receiver;
pub use sender::Sender;
pub use sync_sender::SyncSender;

use std::collections::VecDeque;
use vstd::prelude::*;

verus! {

/// The failure of a send: the receiver is gone. The value comes back.
#[derive(Debug)]
pub struct SendError<T>(pub T);

/// The failure of a receive: the channel is empty and no sender is left.
#[derive(Clone, Copy, Debug, PartialEq, Eq, Structural)]
pub struct RecvError;

/// The failure of a receive that does not wait.
#[derive(Clone, Copy, Debug, PartialEq, Eq, Structural)]
pub enum TryRecvError {
    /// Nothing is queued, but a sender is left.
    Empty,
    /// Nothing is queued and no sender is left.
    Disconnected,
}

/// The failure of a receive that waits for a limited time.
#[derive(Clone, Copy, Debug, PartialEq, Eq, Structural)]
pub enum RecvTimeoutError {
    /// The time ran out.
    Timeout,
    /// Nothing is queued and no sender is left.
    Disconnected,
}

/// The failure of a send that does not wait. The value comes back.
#[derive(Debug)]
pub enum TrySendError<T> {
    /// The channel holds more than its bound.
    Full(T),
    /// The receiver is gone.
    Disconnected(T),
}

/// What the handles of a channel share: the queue of the values under way,
/// the number of senders that are alive, and whether the receiver is.
#[derive(Debug)]
pub struct Channel<T> {
    queue: VecDeque<T>,
    senders: usize,
    receiver: bool,
}

/// A channel, as contracts speak of it.
pub struct ChannelView<T> {
    /// The values under way, the oldest first.
    pub queue: Seq<T>,
    /// The senders that are alive.
    pub senders: nat,
    /// Whether the receiver is alive.
    pub receiver: bool,
}

impl<T> View for Channel<T> {
    type V = ChannelView<T>;

    closed spec fn view(&self) -> ChannelView<T> {
        ChannelView {
            queue: self.queue@,
            senders: self.senders as nat,
            receiver: self.receiver,
        }
    }
}

impl<T> ChannelView<T> {
    /// Whether a receive finds the channel disconnected: nothing is queued and
    /// no sender is left to queue anything.
    pub open spec fn disconnected(self) -> bool {
        self.senders == 0 && self.queue.len() == 0
    }

    /// The channel after `value` was queued.
    pub open spec fn pushed(self, value: T) -> ChannelView<T> {
        ChannelView { queue: self.queue.push(value), ..self }
    }

    /// The channel after a sender with the bound `bound` has offered `value`:
    /// the value is queued unless the receiver is gone or more values than the
    /// bound are queued already.
    pub open spec fn offered(self, bound: usize, value: T) -> ChannelView<T> {
        if self.receiver && self.queue.len() <= bound {
            self.pushed(value)
        } else {
            self
        }
    }

    /// The channel after a receive: the oldest value is taken out if there is
    /// one.
    pub open spec fn received(self) -> ChannelView<T> {
        if self.queue.len() > 0 {
            self.popped()
        } else {
            self
        }
    }

    /// The channel after the oldest value was taken out.
    pub open spec fn popped(self) -> ChannelView<T> {
        ChannelView { queue: self.queue.skip(1), ..self }
    }
}

impl<T> Channel<T> {
    /// A channel without handles and without values.
    pub fn new() -> (channel: Channel<T>)
        ensures
            channel@ == (ChannelView { queue: Seq::<T>::empty(), senders: 0, receiver: false }),
    {
        Channel { queue: VecDeque::new(), senders: 0, receiver: false }
    }

    /// How many values are under way.
    pub fn len(&self) -> (n: usize)
        ensures
            n == self@.queue.len(),
    {
        self.queue.len()
    }

    /// How many senders are alive.
    pub fn senders(&self) -> (n: usize)
        ensures
            n == self@.senders,
    {
        self.senders
    }

    /// Whether the receiver is alive.
    pub fn has_receiver(&self) -> (r: bool)
        ensures
            r == self@.receiver,
    {
        self.receiver
    }

    /// Counts one more sender.
    pub(crate) fn add_sender(&mut self)
        requires
            old(self)@.senders < usize::MAX,
        ensures
            final(self)@ == (ChannelView { senders: old(self)@.senders + 1, ..old(self)@ }),
    {
        self.senders = self.senders + 1;
    }

    /// Counts one sender less.
    pub(crate) fn remove_sender(&mut self)
        requires
            old(self)@.senders >= 1,
        ensures
            final(self)@ == (ChannelView {
                senders: (old(self)@.senders - 1) as nat,
                ..old(self)@
            }),
    {
        self.senders = self.senders - 1;
    }

    /// Notes whether the receiver is alive.
    pub(crate) fn set_receiver(&mut self, alive: bool)
        ensures
            final(self)@ == (ChannelView { receiver: alive, ..old(self)@ }),
    {
        self.receiver = alive;
    }

    /// Queues a value.
    pub(crate) fn push(&mut self, value: T)
        ensures
            final(self)@ == old(self)@.pushed(value),
    {
        self.queue.push_back(value);
    }

    /// Takes the oldest value out, if there is one.
    pub(crate) fn pop(&mut self) -> (r: Option<T>)
        ensures
            old(self)@.queue.len() == 0 ==> r is None && final(self)@ == old(self)@,
            old(self)@.queue.len() > 0 ==> r == Some(old(self)@.queue[0])
                && final(self)@ == old(self)@.popped(),
    {
        let r = self.queue.pop_front();
        proof {
            if old(self)@.queue.len() > 0 {
                assert(self.queue@ =~= old(self)@.queue.skip(1));
            }
        }
        r
    }
}

/// A channel without a bound, with its first sender and its receiver.
pub fn channel<T>() -> (r: (Sender<T>, Receiver<T>, Channel<T>))
    ensures
        r.2@ == (ChannelView { queue: Seq::<T>::empty(), senders: 1, receiver: true }),
{
    let mut shared = Channel::new();
    let sender = Sender::new(&mut shared);
    let receiver = Receiver::new(&mut shared);
    (sender, receiver, shared)
}

/// A channel whose senders wait while it holds more than `bound` values, with
/// its first sender and its receiver. Such a channel holds `bound + 1` values
/// at most.
pub fn sync_channel<T>(bound: usize) -> (r: (SyncSender<T>, Receiver<T>, Channel<T>))
    ensures
        r.0.bound() == bound,
        r.2@ == (ChannelView { queue: Seq::<T>::empty(), senders: 1, receiver: true }),
{
    let mut shared = Channel::new();
    let sender = SyncSender::new(&mut shared, bound);
    let receiver = Receiver::new(&mut shared);
    (sender, receiver, shared)
}

/// What happens to a channel, one thing after the other.
pub enum ChannelEvent<T> {
    /// A sender queues a value.
    Send(T),
    /// A sender with a bound offers a value.
    Offer(usize, T),
    /// The receiver polls for a value.
    Recv,
}

/// A channel together with everything that was queued and everything that
/// was received, each in its order.
pub struct ChannelHistory<T> {
    pub channel: ChannelView<T>,
    pub queued: Seq<T>,
    pub received: Seq<T>,
}

impl<T> ChannelHistory<T> {
    /// The channel and its records after the event.
    pub open spec fn step(self, event: ChannelEvent<T>) -> ChannelHistory<T> {
        match event {
            ChannelEvent::Send(value) => ChannelHistory {
                channel: self.channel.pushed(value),
                queued: self.queued.push(value),
                ..self
            },
            ChannelEvent::Offer(bound, value) => ChannelHistory {
                channel: self.channel.offered(bound, value),
                queued: if self.channel.offered(bound, value) == self.channel.pushed(value) {
                    self.queued.push(value)
                } else {
                    self.queued
                },
                ..self
            },
            ChannelEvent::Recv => ChannelHistory {
                channel: self.channel.received(),
                received: if self.channel.queue.len() > 0 {
                    self.received.push(self.channel.queue[0])
                } else {
                    self.received
                },
                ..self
            },
        }
    }

    /// A new channel with its receiver after the events, in their order.
    pub open spec fn after(events: Seq<ChannelEvent<T>>) -> ChannelHistory<T>
        decreases events.len(),
    {
        if events.len() == 0 {
            ChannelHistory {
                channel: ChannelView { queue: Seq::empty(), senders: 1, receiver: true },
                queued: Seq::empty(),
                received: Seq::empty(),
            }
        } else {
            Self::after(events.drop_last()).step(events.last())
        }
    }
}

/// First in, first out: what was received and what is still under way make
/// up, in this order, exactly what was queued.
pub proof fn lemma_channel_fifo<T>(events: Seq<ChannelEvent<T>>)
    ensures
        ({
            let history = ChannelHistory::after(events);
            history.queued == history.received + history.channel.queue
        }),
    decreases events.len(),
{
    if events.len() > 0 {
        let before = ChannelHistory::after(events.drop_last());
        let history = ChannelHistory::after(events);
        lemma_channel_fifo(events.drop_last());
        assert(history.queued =~= history.received + history.channel.queue);
    } else {
        let history = ChannelHistory::<T>::after(events);
        assert(history.queued =~= history.received + history.channel.queue);
    }
}

/// Nothing is lost and nothing comes twice: once the channel is empty, what
/// was received is exactly what was queued, value for value and in the order
/// in which it was queued.
pub proof fn lemma_channel_delivers_all<T>(events: Seq<ChannelEvent<T>>)
    requires
        ChannelHistory::after(events).channel.queue.len() == 0,
    ensures
        ChannelHistory::after(events).received == ChannelHistory::after(events).queued,
{
    let history = ChannelHistory::after(events);
    lemma_channel_fifo(events);
    assert(history.received + history.channel.queue =~= history.received);
}

/// First in, first out for each sender: of the values that one sender has
/// queued (those that `from_sender` holds of) the receiver has seen a first
/// part, in the order in which they were sent; the rest is still under way.
pub proof fn lemma_channel_fifo_per_sender<T>(
    events: Seq<ChannelEvent<T>>,
    from_sender: spec_fn(T) -> bool,
)
    ensures
        ({
            let history = ChannelHistory::after(events);
            history.queued.filter(from_sender) == history.received.filter(from_sender)
                + history.channel.queue.filter(from_sender)
        }),
{
    let history = ChannelHistory::after(events);
    lemma_channel_fifo(events);
    Seq::filter_distributes_over_add(history.received, history.channel.queue, from_sender);
}

/// Capacity: a channel whose senders all have the bound `bound` never holds
/// more than `bound + 1` values.
pub proof fn lemma_channel_capacity<T>(events: Seq<ChannelEvent<T>>, bound: usize)
    requires
        forall|i: int|
            0 <= i < events.len() ==> (#[trigger] events[i] matches ChannelEvent::Offer(b, _) && b
                == bound) || events[i] is Recv,
    ensures
        ChannelHistory::after(events).channel.queue.len() <= bound + 1,
    decreases events.len(),
{
    if events.len() > 0 {
        assert forall|i: int| 0 <= i < events.drop_last().len() implies (
        #[trigger] events.drop_last()[i] matches ChannelEvent::Offer(b, _) && b == bound)
            || events.drop_last()[i] is Recv by {
            assert(events.drop_last()[i] == events[i]);
        }
        lemma_channel_capacity(events.drop_last(), bound);
        let last = events[events.len() - 1];
        assert(last == events.last());
    }
}

/// Backpressure: offered to a channel that holds `bound + 1` values, one more
/// value is not queued; after one receive it is.
pub proof fn lemma_channel_backpressure<T>(channel: ChannelView<T>, bound: usize, value: T)
    requires
        channel.receiver,
        channel.queue.len() == bound + 1,
    ensures
        channel.offered(bound, value) == channel,
        channel.received().offered(bound, value) == channel.received().pushed(value),
{
}

} // verus!
