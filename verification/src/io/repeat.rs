use crate::io::error::Error;
use crate::io::read::AsyncRead;
use crate::poll::Poll;
use vstd::prelude::*;

verus! {

/// A source that yields one byte over and over.
#[derive(Debug)]
pub struct Repeat {
    pub byte: u8,
}

/// Sets every byte of `buf` to `byte`.
pub fn fill(buf: &mut Vec<u8>, byte: u8)
    ensures
        final(buf)@ == Seq::new(old(buf)@.len(), |i: int| byte),
{
    let length = buf.len();
    let mut i: usize = 0;
    while i < length
        invariant
            i <= length == buf@.len() == old(buf)@.len(),
            forall|j: int| 0 <= j < i ==> buf@[j] == byte,
        decreases length - i,
    {
        buf[i] = byte;
        i += 1;
    }
    assert(buf@ =~= Seq::new(old(buf)@.len(), |i: int| byte));
}

impl AsyncRead for Repeat {
    /// A read fills the whole buffer with the byte and leaves the source as
    /// it is.
    open spec fn reads(
        &self,
        after: Self,
        before: Seq<u8>,
        filled: Seq<u8>,
        outcome: Poll<Result<usize, Error>>,
    ) -> bool {
        &&& after == *self
        &&& filled == Seq::new(before.len(), |i: int| self.byte)
        &&& outcome == Poll::Ready(Ok::<usize, Error>(before.len() as usize))
    }

    /// Fills `buf` with the byte; the source has no end.
    fn read(&mut self, buf: &mut Vec<u8>) -> (r: Poll<Result<usize, Error>>)
        ensures
            *final(self) == *old(self),
            r == Poll::Ready(Ok::<usize, Error>(old(buf)@.len() as usize)),
            final(buf)@ == Seq::new(old(buf)@.len(), |i: int| old(self).byte),
    {
        fill(buf, self.byte);
        let r = Poll::Ready(Ok(buf.len()));
        assert(self.reads(*self, old(buf)@, buf@, r));
        r
    }
}

} // verus!
