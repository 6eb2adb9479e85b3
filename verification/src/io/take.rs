use crate::io::error::Error;
use crate::io::read::{place, zeros, AsyncRead};
use crate::poll::Poll;
use vstd::prelude::*;

verus! {

/// A source that is cut off after `limit` bytes; `total` counts the bytes that
/// have come through.
#[derive(Debug)]
pub struct Take<T> {
    pub reader: T,
    pub limit: u64,
    pub total: u64,
}

impl<T> Take<T> {
    pub fn new(reader: T, limit: u64) -> (take: Take<T>)
        ensures
            take.reader == reader,
            take.limit == limit,
            take.total == 0,
    {
        Take { reader, limit, total: 0 }
    }

    pub fn limit(&self) -> (r: u64)
        ensures
            r == self.limit,
    {
        self.limit
    }

    pub fn set_limit(&mut self, limit: u64)
        ensures
            final(self).limit == limit,
            final(self).reader == old(self).reader,
            final(self).total == old(self).total,
    {
        self.limit = limit;
    }

    pub fn into_inner(self) -> (r: T)
        ensures
            r == self.reader,
    {
        self.reader
    }

    pub fn get_ref(&self) -> (r: &T)
        ensures
            *r == self.reader,
    {
        &self.reader
    }

    pub fn get_mut(&mut self) -> (r: &mut T)
        ensures
            *r == old(self).reader,
            final(self).reader == *final(r),
            final(self).limit == old(self).limit,
            final(self).total == old(self).total,
    {
        &mut self.reader
    }

    /// The bytes that may still come through.
    pub open spec fn remaining(&self) -> nat {
        if self.limit >= self.total {
            (self.limit - self.total) as nat
        } else {
            0
        }
    }

    /// How much of a buffer of `len` bytes a read may fill: all of it, but no
    /// more than may still come through.
    pub open spec fn spec_room(&self, len: nat) -> nat {
        if self.remaining() < len {
            self.remaining()
        } else {
            len
        }
    }

    /// How much of a buffer of `len` bytes a read may fill: all of it, but no
    /// more than may still come through.
    pub fn room(&self, len: usize) -> (r: usize)
        ensures
            r == self.spec_room(len as nat),
    {
        let remaining: u64 = if self.limit >= self.total {
            self.limit - self.total
        } else {
            0
        };
        if remaining < len as u64 {
            remaining as usize
        } else {
            len
        }
    }
}

impl<T: AsyncRead> AsyncRead for Take<T> {
    /// A read of a cut-off source is a read of the source itself into a
    /// window of zeros as long as `room` allows. Its outcome is the outcome of
    /// the cut-off source; the bytes that it brought stand at the front of the
    /// buffer, whose rest stays, and are counted.
    open spec fn reads(
        &self,
        after: Self,
        before: Seq<u8>,
        filled: Seq<u8>,
        outcome: Poll<Result<usize, Error>>,
    ) -> bool {
        let room = self.spec_room(before.len());
        &&& after.limit == self.limit
        &&& exists|window: Seq<u8>|
            {
                &&& #[trigger] self.reader.reads(
                    after.reader,
                    zeros(self.spec_room(before.len())),
                    window,
                    outcome,
                )
                &&& match outcome {
                    Poll::Ready(Ok(length)) => {
                        &&& length <= room
                        &&& after.total == self.total + length
                        &&& filled == window.subrange(0, length as int) + before.subrange(
                            length as int,
                            before.len() as int,
                        )
                    },
                    _ => after.total == self.total && filled == before,
                }
            }
    }

    /// Reads from the source into the front of `buf`, no further than `room`
    /// allows, and counts what was read.
    fn read(&mut self, buf: &mut Vec<u8>) -> (r: Poll<Result<usize, Error>>) {
        let room = self.room(buf.len());
        let mut window: Vec<u8> = vec![0u8; room];
        assert(window@ =~= zeros(room as nat));
        let outcome = self.reader.read(&mut window);
        let ghost seen = outcome;
        let r = match outcome {
            Poll::Ready(Ok(length)) => {
                place(buf, 0, &window, length);
                self.total = self.total + length as u64;
                assert(buf@ =~= window@.subrange(0, length as int) + old(buf)@.subrange(
                    length as int,
                    old(buf)@.len() as int,
                ));
                Poll::Ready(Ok(length))
            },
            other => other,
        };
        proof {
            assert(r == seen);
            assert(old(self).reader.reads(
                self.reader,
                zeros(old(self).spec_room(old(buf)@.len())),
                window@,
                r,
            ));
            assert(old(self).reads(*self, old(buf)@, buf@, r));
        }
        r
    }
}

} // verus!
