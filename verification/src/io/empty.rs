use crate::io::error::Error;
use crate::io::read::AsyncRead;
use crate::io::repeat::fill;
use crate::io::write::AsyncWrite;
use crate::poll::Poll;
use vstd::prelude::*;

verus! {

/// A source of zero bytes without end, and a sink that swallows everything.
#[derive(Clone, Copy, Debug, Default)]
pub struct Empty;

impl AsyncRead for Empty {
    /// A read fills the whole buffer with zeros.
    open spec fn reads(
        &self,
        after: Self,
        before: Seq<u8>,
        filled: Seq<u8>,
        outcome: Poll<Result<usize, Error>>,
    ) -> bool {
        &&& filled == Seq::new(before.len(), |i: int| 0u8)
        &&& outcome == Poll::Ready(Ok::<usize, Error>(before.len() as usize))
    }

    /// Fills `buf` with zeros.
    fn read(&mut self, buf: &mut Vec<u8>) -> (r: Poll<Result<usize, Error>>)
        ensures
            r == Poll::Ready(Ok::<usize, Error>(old(buf)@.len() as usize)),
            final(buf)@ == Seq::new(old(buf)@.len(), |i: int| 0u8),
    {
        fill(buf, 0);
        let r = Poll::Ready(Ok(buf.len()));
        assert(self.reads(*self, old(buf)@, buf@, r));
        r
    }
}

impl AsyncWrite for Empty {
    /// A write takes all that is offered.
    open spec fn writes(&self, after: Self, buf: Seq<u8>, outcome: Poll<Result<usize, Error>>)
        -> bool {
        outcome == Poll::Ready(Ok::<usize, Error>(buf.len() as usize))
    }

    /// Accepts all of `buf`.
    fn write(&mut self, buf: &[u8]) -> (r: Poll<Result<usize, Error>>)
        ensures
            r == Poll::Ready(Ok::<usize, Error>(buf@.len() as usize)),
    {
        let r = Poll::Ready(Ok(buf.len()));
        assert(self.writes(*self, buf@, r));
        r
    }

    fn flush(&mut self) -> (r: Poll<Result<(), Error>>)
        ensures
            r == Poll::Ready(Ok::<(), Error>(())),
    {
        Poll::Ready(Ok(()))
    }
}

} // verus!
