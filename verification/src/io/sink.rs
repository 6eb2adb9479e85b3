use crate::io::error::Error;
use crate::io::write::AsyncWrite;
use crate::poll::Poll;
use vstd::prelude::*;

verus! {

/// A sink that swallows everything.
#[derive(Clone, Copy, Debug, Default)]
pub struct Sink;

impl AsyncWrite for Sink {
    /// A write takes all that is offered.
    open spec fn writes(&self, after: Self, buf: Seq<u8>, outcome: Poll<Result<usize, Error>>)
        -> bool {
        outcome == Poll::Ready(Ok::<usize, Error>(buf.len() as usize))
    }

    /// Accepts all of `buf`.
    fn write(&mut self, buf: &[u8]) -> (r: Poll<Result<usize, Error>>)
        ensures
            r == Poll::Ready(Ok::<usize, Error>(buf@.len() as usize)),
    {
        let r = Poll::Ready(Ok(buf.len()));
        assert(self.writes(*self, buf@, r));
        r
    }

    fn flush(&mut self) -> (r: Poll<Result<(), Error>>)
        ensures
            r == Poll::Ready(Ok::<(), Error>(())),
    {
        Poll::Ready(Ok(()))
    }
}

} // verus!
