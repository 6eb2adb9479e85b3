use crate::io::error::{Error, ErrorKind};
use crate::poll::Poll;
use vstd::prelude::*;

verus! {

/// What the outcome of one write means for a helper that has to write `len`
/// bytes and has written `written` of them: the new count, and the result of
/// the poll if the poll ends here.
///
/// A write that took bytes is counted, and completes the helper if those were
/// the last; a sink that is not ready, took nothing or was interrupted leaves
/// the helper pending; any other failure is the helper's.
pub open spec fn spec_write_all_step(
    written: usize,
    len: usize,
    outcome: Poll<Result<usize, Error>>,
) -> (usize, Option<Poll<Result<(), Error>>>) {
    match outcome {
        Poll::Pending => (written, Some(Poll::Pending)),
        Poll::Ready(Ok(length)) => if length == 0 {
            (written, Some(Poll::Pending))
        } else if written + length == len {
            (len, Some(Poll::Ready(Ok(()))))
        } else {
            ((written + length) as usize, None)
        },
        Poll::Ready(Err(error)) => if error.kind == ErrorKind::Interrupted {
            (written, Some(Poll::Pending))
        } else {
            (written, Some(Poll::Ready(Err(error))))
        },
    }
}

/// The step of `write_all` after one write.
pub fn write_all_step(written: usize, len: usize, outcome: Poll<Result<usize, Error>>) -> (r: (
    usize,
    Option<Poll<Result<(), Error>>>,
))
    requires
        outcome matches Poll::Ready(Ok(length)) ==> written + length <= len,
    ensures
        r == spec_write_all_step(written, len, outcome),
{
    match outcome {
        Poll::Pending => (written, Some(Poll::Pending)),
        Poll::Ready(Ok(length)) => {
            if length == 0 {
                (written, Some(Poll::Pending))
            } else if written + length == len {
                (len, Some(Poll::Ready(Ok(()))))
            } else {
                (written + length, None)
            }
        },
        Poll::Ready(Err(error)) => match error.kind {
            ErrorKind::Interrupted => (written, Some(Poll::Pending)),
            _ => (written, Some(Poll::Ready(Err(error)))),
        },
    }
}

/// Whether a poll of `write_all` can go this way: from the sink `sink`,
/// whose writes go as `writes` says, and with `written` bytes of `buf` taken,
/// the poll leaves the sink as `after` and the count at `count`, and returns
/// `r`.
///
/// With nothing left to write the poll is ready at once. Else the rest of
/// `buf` is offered to the sink, and `spec_write_all_step` says what the
/// outcome means: the poll ends, or goes on from where that write left it.
pub open spec fn write_all_run<W>(
    writes: spec_fn(W, W, Seq<u8>, Poll<Result<usize, Error>>) -> bool,
    sink: W,
    buf: Seq<u8>,
    written: usize,
    after: W,
    count: usize,
    r: Poll<Result<(), Error>>,
) -> bool
    decreases buf.len() - written,
{
    if written >= buf.len() {
        after == sink && count == written && r == Poll::Ready(Ok::<(), Error>(()))
    } else if buf.len() > usize::MAX {
        false
    } else {
        let len = buf.len() as usize;
        exists|next: W, outcome: Poll<Result<usize, Error>>|
            {
                &&& #[trigger] writes(sink, next, buf.subrange(written as int, len as int), outcome)
                &&& outcome matches Poll::Ready(Ok(length)) ==> written + length <= len
                &&& match spec_write_all_step(written, len, outcome).1 {
                    Some(result) => after == next && count == spec_write_all_step(
                        written,
                        len,
                        outcome,
                    ).0 && r == result,
                    None => write_all_run(
                        writes,
                        next,
                        buf,
                        spec_write_all_step(written, len, outcome).0,
                        after,
                        count,
                        r,
                    ),
                }
            }
    }
}

/// The bytes of `bufs`, one buffer after the other.
pub open spec fn gathered(bufs: Seq<Vec<u8>>) -> Seq<u8>
    decreases bufs.len(),
{
    if bufs.len() == 0 {
        Seq::empty()
    } else {
        gathered(bufs.drop_last()) + bufs.last()@
    }
}

/// Gathers the bytes of `bufs` in one buffer.
pub fn gather(bufs: &Vec<Vec<u8>>) -> (r: Vec<u8>)
    ensures
        r@ == gathered(bufs@),
{
    let mut all: Vec<u8> = Vec::new();
    let mut i: usize = 0;
    while i < bufs.len()
        invariant
            i <= bufs@.len(),
            all@ == gathered(bufs@.take(i as int)),
        decreases bufs@.len() - i,
    {
        let ghost so_far = all@;
        all.extend_from_slice(bufs[i].as_slice());
        assert(all@ =~= so_far + bufs@[i as int]@);
        assert(bufs@.take(i + 1).drop_last() =~= bufs@.take(i as int));
        i += 1;
    }
    assert(bufs@.take(i as int) =~= bufs@);
    all
}

/// A sink for bytes that is written by polling.
pub trait AsyncWrite: Sized {
    /// Whether a write to this sink can go this way: offered `buf`, the write
    /// leaves the sink as `after` and returns `outcome`. Each sink says here
    /// what its writes do; a sink that says nothing, because its writes depend
    /// on the world outside, allows every way that they can go.
    open spec fn writes(&self, after: Self, buf: Seq<u8>, outcome: Poll<Result<usize, Error>>)
        -> bool {
        true
    }

    /// One poll of a write of `buf`. `Ready(Ok(n))` says that the first `n`
    /// bytes of `buf` were taken.
    fn write(&mut self, buf: &[u8]) -> (r: Poll<Result<usize, Error>>)
        ensures
            r matches Poll::Ready(Ok(n)) ==> n <= buf@.len(),
            old(self).writes(*final(self), buf@, r),
    ;

    /// One poll of handing on what the sink has buffered.
    fn flush(&mut self) -> (r: Poll<Result<(), Error>>)
    ;

    /// One poll of writing all of `buf`. `written` carries the count of the
    /// bytes taken from poll to poll and starts at zero. The poll goes as
    /// `write_all_run` says, for the writes that it makes.
    fn write_all(&mut self, buf: &[u8], written: &mut usize) -> (r: Poll<Result<(), Error>>)
        requires
            *old(written) <= buf@.len(),
        ensures
            *old(written) <= *final(written) <= buf@.len(),
            r matches Poll::Ready(Ok(_)) ==> *final(written) == buf@.len(),
            write_all_run(
                |sink: Self, after: Self, buf: Seq<u8>, outcome: Poll<Result<usize, Error>>|
                    sink.writes(after, buf, outcome),
                *old(self),
                buf@,
                *old(written),
                *final(self),
                *final(written),
                r,
            ),
    {
        let len = buf.len();
        let ghost writes_of =
            |sink: Self, after: Self, buf: Seq<u8>, outcome: Poll<Result<usize, Error>>|
                sink.writes(after, buf, outcome);
        if *written == len {
            return Poll::Ready(Ok(()));
        }
        loop
            invariant
                *old(written) <= *written < len == buf@.len(),
                writes_of == |
                    sink: Self,
                    after: Self,
                    buf: Seq<u8>,
                    outcome: Poll<Result<usize, Error>>,
                | sink.writes(after, buf, outcome),
                forall|after: Self, count: usize, outcome: Poll<Result<(), Error>>| #[trigger]
                    write_all_run(writes_of, *self, buf@, *written, after, count, outcome)
                        ==> write_all_run(
                        writes_of,
                        *old(self),
                        buf@,
                        *old(written),
                        after,
                        count,
                        outcome,
                    ),
            decreases len - *written,
        {
            let ghost sink = *self;
            let ghost before = *written;
            let rest = vstd::slice::slice_subrange(buf, *written, len);
            let outcome = self.write(rest);
            let ghost seen = outcome;
            let (count, done) = write_all_step(*written, len, outcome);
            *written = count;
            proof {
                assert(writes_of(sink, *self, buf@.subrange(before as int, len as int), seen));
            }
            match done {
                Some(result) => {
                    proof {
                        assert(write_all_run(writes_of, sink, buf@, before, *self, count, result));
                    }
                    return result;
                },
                None => {
                    proof {
                        assert forall|
                            after: Self,
                            count: usize,
                            outcome: Poll<Result<(), Error>>,
                        | #[trigger]
                            write_all_run(
                                writes_of,
                                *self,
                                buf@,
                                *written,
                                after,
                                count,
                                outcome,
                            ) implies write_all_run(
                            writes_of,
                            *old(self),
                            buf@,
                            *old(written),
                            after,
                            count,
                            outcome,
                        ) by {
                            assert(write_all_run(
                                writes_of,
                                sink,
                                buf@,
                                before,
                                after,
                                count,
                                outcome,
                            ));
                        }
                    }
                },
            }
        }
    }

    /// One poll of writing all the bytes of `bufs`, one buffer after the
    /// other: a poll of `write_all` on the bytes gathered. `written` carries
    /// the count of the bytes taken from poll to poll and starts at zero.
    fn write_vectored(&mut self, bufs: &Vec<Vec<u8>>, written: &mut usize) -> (r: Poll<
        Result<(), Error>,
    >)
        requires
            *old(written) <= gathered(bufs@).len(),
        ensures
            *old(written) <= *final(written) <= gathered(bufs@).len(),
            r matches Poll::Ready(Ok(_)) ==> *final(written) == gathered(bufs@).len(),
            write_all_run(
                |sink: Self, after: Self, buf: Seq<u8>, outcome: Poll<Result<usize, Error>>|
                    sink.writes(after, buf, outcome),
                *old(self),
                gathered(bufs@),
                *old(written),
                *final(self),
                *final(written),
                r,
            ),
    {
        let buffer = gather(bufs);
        self.write_all(buffer.as_slice(), written)
    }

    fn by_ref(&mut self) -> (r: &mut Self) where Self: Sized
        ensures
            *r == *old(self),
            *final(self) == *final(r),
    {
        self
    }
}

} // verus!
