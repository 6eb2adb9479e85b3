use crate::io::error::Error;
use crate::io::read::AsyncRead;
use crate::poll::Poll;
use vstd::prelude::*;

verus! {

/// Two sources in a row: `reader` is read to its end, then `next`.
#[derive(Debug)]
pub struct Chain<T, U> {
    pub reader: T,
    pub next: U,
    pub first: bool,
}

impl<T, U> Chain<T, U> {
    pub fn new(reader: T, next: U) -> (chain: Chain<T, U>)
        ensures
            chain.reader == reader,
            chain.next == next,
            chain.first,
    {
        Chain { reader, next, first: true }
    }

    pub fn into_inner(self) -> (r: (T, U))
        ensures
            r == (self.reader, self.next),
    {
        (self.reader, self.next)
    }

    pub fn get_ref(&self) -> (r: (&T, &U))
        ensures
            *r.0 == self.reader,
            *r.1 == self.next,
    {
        (&self.reader, &self.next)
    }

    pub fn get_mut(&mut self) -> (r: (&mut T, &mut U))
        ensures
            *r.0 == old(self).reader,
            *r.1 == old(self).next,
            final(self).reader == *final(r.0),
            final(self).next == *final(r.1),
            final(self).first == old(self).first,
    {
        (&mut self.reader, &mut self.next)
    }
}

/// What the outcome of a read of the first source means for the chain: a read
/// of no bytes says that the first source is at its end, so that the second
/// takes over; every other outcome is the outcome of the chain's read.
pub fn first_outcome(outcome: Poll<Result<usize, Error>>) -> (r: Option<Poll<Result<usize, Error>>>)
    ensures
        r == if outcome matches Poll::Ready(Ok(length)) && length == 0 {
            None
        } else {
            Some(outcome)
        },
{
    match outcome {
        Poll::Ready(Ok(length)) => {
            if length == 0 {
                None
            } else {
                Some(Poll::Ready(Ok(length)))
            }
        },
        other => Some(other),
    }
}

impl<T: AsyncRead, U: AsyncRead> AsyncRead for Chain<T, U> {
    /// While the chain is at its first source, a read of the chain is a read
    /// of that source: its outcome is the chain's, unless it brought no bytes.
    /// Then the chain goes over to the second source, and a read of the
    /// second source, into the buffer as the first left it, follows at once.
    /// From then on a read of the chain is a read of the second source.
    open spec fn reads(
        &self,
        after: Self,
        before: Seq<u8>,
        filled: Seq<u8>,
        outcome: Poll<Result<usize, Error>>,
    ) -> bool {
        if self.first {
            exists|seen: Seq<u8>, first: Poll<Result<usize, Error>>|
                {
                    &&& #[trigger] self.reader.reads(after.reader, before, seen, first)
                    &&& if first == Poll::Ready(Ok::<usize, Error>(0)) {
                        !after.first && self.next.reads(after.next, seen, filled, outcome)
                    } else {
                        after.first && after.next == self.next && filled == seen && outcome
                            == first
                    }
                }
        } else {
            &&& !after.first
            &&& after.reader == self.reader
            &&& self.next.reads(after.next, before, filled, outcome)
        }
    }

    /// Reads from the first source until `first_outcome` says that it is at
    /// its end; from then on, and in that same poll already, reads from the
    /// second.
    fn read(&mut self, buf: &mut Vec<u8>) -> (r: Poll<Result<usize, Error>>) {
        if self.first {
            let first = self.reader.read(buf);
            let ghost seen = buf@;
            let ghost first_seen = first;
            match first_outcome(first) {
                Some(outcome) => {
                    proof {
                        assert(old(self).reader.reads(self.reader, old(buf)@, seen, first_seen));
                        assert(old(self).reads(*self, old(buf)@, buf@, outcome));
                    }
                    outcome
                },
                None => {
                    self.first = false;
                    let second = self.next.read(buf);
                    proof {
                        assert(old(self).reader.reads(self.reader, old(buf)@, seen, first_seen));
                        assert(old(self).reads(*self, old(buf)@, buf@, second));
                    }
                    second
                },
            }
        } else {
            let second = self.next.read(buf);
            assert(old(self).reads(*self, old(buf)@, buf@, second));
            second
        }
    }
}

} // verus!
