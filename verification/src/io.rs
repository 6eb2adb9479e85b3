pub mod chain;
pub mod empty;
pub mod error;
pub mod read;
pub mod repeat;
pub mod sink;
pub mod take;
pub mod write;

pub use chain::Chain;
pub use empty::Empty;
pub use error::{Error, ErrorKind};
pub use read::{brought, read_to_string_run, AsyncRead, ReadToString, INIT_BUFFER_SIZE};
pub use repeat::Repeat;
pub use sink::Sink;
pub use take::Take;
pub use write::AsyncWrite;

use crate::poll::Poll;
use vstd::prelude::*;

verus! {

/// The progress of a `copy`: the buffer with the bytes that were read and are
/// not all written yet, and the count of the bytes read.
#[derive(Debug)]
pub struct CopyProgress {
    /// `buffer[written..filled]` is still to be written.
    pub buffer: Vec<u8>,
    pub filled: usize,
    pub written: usize,
    /// The bytes read so far; the count stops at the largest number it can hold.
    pub length: u64,
}

/// The progress of a `copy`, as contracts speak of it.
pub struct CopyModel {
    /// `buffer[written..filled]` is still to be written.
    pub buffer: Seq<u8>,
    pub filled: usize,
    pub written: usize,
    /// The bytes read so far.
    pub length: u64,
}

impl View for CopyProgress {
    type V = CopyModel;

    open spec fn view(&self) -> CopyModel {
        CopyModel {
            buffer: self.buffer@,
            filled: self.filled,
            written: self.written,
            length: self.length,
        }
    }
}

impl CopyModel {
    pub open spec fn wf(self) -> bool {
        self.written <= self.filled <= self.buffer.len()
    }

    /// The progress after one write of the unwritten bytes, and the result of
    /// the poll if the poll ends here.
    ///
    /// A write that took bytes is counted, and the copy goes on; a sink that
    /// is not ready, took nothing or was interrupted leaves the copy pending;
    /// any other failure is the copy's.
    pub open spec fn wrote(self, outcome: Poll<Result<usize, Error>>) -> (
        CopyModel,
        Option<Poll<Result<u64, Error>>>,
    ) {
        match outcome {
            Poll::Ready(Ok(taken)) => if taken > 0 {
                (CopyModel { written: (self.written + taken) as usize, ..self }, None)
            } else {
                (self, Some(Poll::Pending))
            },
            Poll::Ready(Err(error)) => if error.kind == ErrorKind::Interrupted {
                (self, Some(Poll::Pending))
            } else {
                (self, Some(Poll::Ready(Err(error))))
            },
            Poll::Pending => (self, Some(Poll::Pending)),
        }
    }

    /// The progress after one read into the buffer, and the result of the
    /// poll if the poll ends here.
    ///
    /// A read that brought bytes is counted, and the bytes are to be written
    /// next; the end of the source completes the copy with the count; a
    /// source that is not ready or was interrupted leaves the copy pending;
    /// any other failure is the copy's.
    pub open spec fn read(self, outcome: Poll<Result<usize, Error>>) -> (
        CopyModel,
        Option<Poll<Result<u64, Error>>>,
    ) {
        match outcome {
            Poll::Ready(Ok(length)) => if length > 0 {
                (
                    CopyModel {
                        filled: length,
                        written: 0,
                        length: if self.length + length <= u64::MAX {
                            (self.length + length) as u64
                        } else {
                            u64::MAX
                        },
                        ..self
                    },
                    None,
                )
            } else {
                (self, Some(Poll::Ready(Ok(self.length))))
            },
            Poll::Ready(Err(error)) => if error.kind == ErrorKind::Interrupted {
                (self, Some(Poll::Pending))
            } else {
                (self, Some(Poll::Ready(Err(error))))
            },
            Poll::Pending => (self, Some(Poll::Pending)),
        }
    }
}

/// Whether a poll of `copy` that has read once more may read on: only while
/// the count is short of the largest number it can hold.
pub open spec fn still_may_read(may_read: bool, length: u64) -> bool {
    may_read && length < u64::MAX
}

/// Whether a poll of `copy` can go this way: from the source `reader` and the
/// sink `writer`, whose reads and writes go as `reads` and `writes` say, and
/// from the progress `progress`, the poll leaves the two as `after_reader` and
/// `after_writer` and the progress as `after`, and returns `r`. `may_read`
/// says whether the poll may still read although the count is full.
///
/// While bytes are unwritten they are offered to the sink, and
/// `CopyModel::wrote` says what the outcome means. Else the source is read
/// into the buffer, and `CopyModel::read` says what the outcome means; but
/// with the count at the largest number it can hold a poll reads once only
/// and is pending when it comes to read again.
pub open spec fn copy_run<R, W>(
    reads: spec_fn(R, R, Seq<u8>, Seq<u8>, Poll<Result<usize, Error>>) -> bool,
    writes: spec_fn(W, W, Seq<u8>, Poll<Result<usize, Error>>) -> bool,
    reader: R,
    writer: W,
    progress: CopyModel,
    may_read: bool,
    after_reader: R,
    after_writer: W,
    after: CopyModel,
    r: Poll<Result<u64, Error>>,
) -> bool
    decreases u64::MAX - progress.length, if may_read { 1nat } else { 0nat }, progress.filled
            - progress.written,
{
    if !progress.wf() {
        false
    } else if progress.written < progress.filled {
        exists|next: W, outcome: Poll<Result<usize, Error>>|
            {
                &&& #[trigger] writes(
                    writer,
                    next,
                    progress.buffer.subrange(progress.written as int, progress.filled as int),
                    outcome,
                )
                &&& progress.written + brought(outcome) <= progress.filled
                &&& match progress.wrote(outcome).1 {
                    Some(result) => {
                        &&& after_reader == reader
                        &&& after_writer == next
                        &&& after == progress.wrote(outcome).0
                        &&& r == result
                    },
                    None => copy_run(
                        reads,
                        writes,
                        reader,
                        next,
                        progress.wrote(outcome).0,
                        may_read,
                        after_reader,
                        after_writer,
                        after,
                        r,
                    ),
                }
            }
    } else if progress.length == u64::MAX && !may_read {
        after_reader == reader && after_writer == writer && after == progress && r is Pending
    } else {
        exists|next: R, filled: Seq<u8>, outcome: Poll<Result<usize, Error>>|
            {
                &&& #[trigger] reads(reader, next, progress.buffer, filled, outcome)
                &&& filled.len() == progress.buffer.len()
                &&& brought(outcome) <= filled.len()
                &&& match (CopyModel { buffer: filled, ..progress }).read(outcome).1 {
                    Some(result) => {
                        &&& after_reader == next
                        &&& after_writer == writer
                        &&& after == (CopyModel { buffer: filled, ..progress }).read(outcome).0
                        &&& r == result
                    },
                    None => copy_run(
                        reads,
                        writes,
                        next,
                        writer,
                        (CopyModel { buffer: filled, ..progress }).read(outcome).0,
                        still_may_read(may_read, progress.length),
                        after_reader,
                        after_writer,
                        after,
                        r,
                    ),
                }
            }
    }
}

impl CopyProgress {
    pub open spec fn wf(&self) -> bool {
        self@.wf()
    }

    pub fn new() -> (progress: CopyProgress)
        ensures
            progress.wf(),
            progress.buffer@.len() == INIT_BUFFER_SIZE,
            progress.filled == 0,
            progress.written == 0,
            progress.length == 0,
    {
        CopyProgress { buffer: vec![0u8; INIT_BUFFER_SIZE], filled: 0, written: 0, length: 0 }
    }
}

/// `length + more`, or the largest count if that cannot be held.
pub fn count_up(length: u64, more: usize) -> (r: u64)
    ensures
        r == if length + more <= u64::MAX {
            (length + more) as u64
        } else {
            u64::MAX
        },
{
    let more = more as u64;
    if more <= u64::MAX - length {
        length + more
    } else {
        u64::MAX
    }
}

impl CopyProgress {
    /// Whether bytes that were read are still to be written.
    pub fn unwritten(&self) -> (r: bool)
        ensures
            r == (self.written < self.filled),
    {
        self.written < self.filled
    }

    /// The step of `copy` after one write of the unwritten bytes.
    pub fn wrote(&mut self, outcome: Poll<Result<usize, Error>>) -> (r: Option<
        Poll<Result<u64, Error>>,
    >)
        requires
            old(self).wf(),
            outcome matches Poll::Ready(Ok(taken)) ==> old(self).written + taken
                <= old(self).filled,
        ensures
            (final(self)@, r) == old(self)@.wrote(outcome),
    {
        match outcome {
            Poll::Ready(Ok(taken)) => {
                if taken == 0 {
                    Some(Poll::Pending)
                } else {
                    self.written = self.written + taken;
                    None
                }
            },
            Poll::Ready(Err(error)) => match error.kind {
                ErrorKind::Interrupted => Some(Poll::Pending),
                _ => Some(Poll::Ready(Err(error))),
            },
            Poll::Pending => Some(Poll::Pending),
        }
    }

    /// The step of `copy` after one read into the buffer.
    pub fn read(&mut self, outcome: Poll<Result<usize, Error>>) -> (r: Option<
        Poll<Result<u64, Error>>,
    >)
        requires
            outcome matches Poll::Ready(Ok(length)) ==> length <= old(self).buffer@.len(),
        ensures
            (final(self)@, r) == old(self)@.read(outcome),
    {
        match outcome {
            Poll::Ready(Ok(length)) => {
                if length == 0 {
                    Some(Poll::Ready(Ok(self.length)))
                } else {
                    self.filled = length;
                    self.written = 0;
                    self.length = count_up(self.length, length);
                    None
                }
            },
            Poll::Ready(Err(error)) => match error.kind {
                ErrorKind::Interrupted => Some(Poll::Pending),
                _ => Some(Poll::Ready(Err(error))),
            },
            Poll::Pending => Some(Poll::Pending),
        }
    }
}

/// One poll of copying `reader` to its end into `writer`.
///
/// The bytes go through the buffer of `progress`: what was read is written
/// out, in as many writes as it takes, before more is read. The poll goes as
/// `copy_run` says, for the reads and writes that it makes.
pub fn copy<R: AsyncRead, W: AsyncWrite>(
    reader: &mut R,
    writer: &mut W,
    progress: &mut CopyProgress,
) -> (r: Poll<Result<u64, Error>>)
    requires
        old(progress).wf(),
    ensures
        final(progress).wf(),
        final(progress).buffer@.len() == old(progress).buffer@.len(),
        final(progress).length >= old(progress).length,
        r matches Poll::Ready(Ok(n)) ==> n == final(progress).length && final(progress).written
            == final(progress).filled,
        copy_run(
            |
                source: R,
                after: R,
                before: Seq<u8>,
                filled: Seq<u8>,
                outcome: Poll<Result<usize, Error>>,
            | source.reads(after, before, filled, outcome),
            |sink: W, after: W, buf: Seq<u8>, outcome: Poll<Result<usize, Error>>|
                sink.writes(after, buf, outcome),
            *old(reader),
            *old(writer),
            old(progress)@,
            true,
            *final(reader),
            *final(writer),
            final(progress)@,
            r,
        ),
{
    let ghost reads_of = |
        source: R,
        after: R,
        before: Seq<u8>,
        filled: Seq<u8>,
        outcome: Poll<Result<usize, Error>>,
    | source.reads(after, before, filled, outcome);
    let ghost writes_of = |sink: W, after: W, buf: Seq<u8>, outcome: Poll<Result<usize, Error>>|
        sink.writes(after, buf, outcome);
    let mut may_read = true;
    loop
        invariant
            progress.wf(),
            progress.buffer@.len() == old(progress).buffer@.len(),
            progress.length >= old(progress).length,
            reads_of == |
                source: R,
                after: R,
                before: Seq<u8>,
                filled: Seq<u8>,
                outcome: Poll<Result<usize, Error>>,
            | source.reads(after, before, filled, outcome),
            writes_of == |sink: W, after: W, buf: Seq<u8>, outcome: Poll<Result<usize, Error>>|
                sink.writes(after, buf, outcome),
            forall|
                after_reader: R,
                after_writer: W,
                after: CopyModel,
                end: Poll<Result<u64, Error>>,
            | #[trigger]
                copy_run(
                    reads_of,
                    writes_of,
                    *reader,
                    *writer,
                    progress@,
                    may_read,
                    after_reader,
                    after_writer,
                    after,
                    end,
                ) ==> copy_run(
                    reads_of,
                    writes_of,
                    *old(reader),
                    *old(writer),
                    old(progress)@,
                    true,
                    after_reader,
                    after_writer,
                    after,
                    end,
                ),
        decreases u64::MAX - progress.length, if may_read { 1nat } else { 0nat }, progress.filled
                - progress.written,
    {
        let ghost source = *reader;
        let ghost sink = *writer;
        let ghost before = progress@;
        let ghost might = may_read;
        // Reading the length tells the verifier that it fits a `usize`.
        let _ = progress.buffer.len();
        let done = if progress.unwritten() {
            let rest = vstd::slice::slice_subrange(
                progress.buffer.as_slice(),
                progress.written,
                progress.filled,
            );
            let outcome = writer.write(rest);
            let ghost seen = outcome;
            let done = progress.wrote(outcome);
            proof {
                lemma_copy_wrote(
                    reads_of,
                    writes_of,
                    source,
                    sink,
                    before,
                    might,
                    *writer,
                    seen,
                );
                assert(progress@ == before.wrote(seen).0);
                assert(done is None ==> forall|
                    after_reader: R,
                    after_writer: W,
                    after: CopyModel,
                    end: Poll<Result<u64, Error>>,
                | #[trigger]
                    copy_run(
                        reads_of,
                        writes_of,
                        *reader,
                        *writer,
                        progress@,
                        may_read,
                        after_reader,
                        after_writer,
                        after,
                        end,
                    ) ==> copy_run(
                        reads_of,
                        writes_of,
                        source,
                        sink,
                        before,
                        might,
                        after_reader,
                        after_writer,
                        after,
                        end,
                    ));
            }
            done
        } else {
            if progress.length == u64::MAX {
                if !may_read {
                    assert(copy_run(
                        reads_of,
                        writes_of,
                        source,
                        sink,
                        before,
                        might,
                        *reader,
                        *writer,
                        progress@,
                        Poll::Pending,
                    ));
                    return Poll::Pending;
                }
                may_read = false;
            }
            let outcome = reader.read(&mut progress.buffer);
            let ghost seen = outcome;
            let ghost filled = progress.buffer@;
            let done = progress.read(outcome);
            proof {
                lemma_copy_read(
                    reads_of,
                    writes_of,
                    source,
                    sink,
                    before,
                    might,
                    *reader,
                    filled,
                    seen,
                );
                assert(may_read == still_may_read(might, before.length));
                assert(progress@ == (CopyModel { buffer: filled, ..before }).read(seen).0);
                assert(done is None ==> forall|
                    after_reader: R,
                    after_writer: W,
                    after: CopyModel,
                    end: Poll<Result<u64, Error>>,
                | #[trigger]
                    copy_run(
                        reads_of,
                        writes_of,
                        *reader,
                        *writer,
                        progress@,
                        may_read,
                        after_reader,
                        after_writer,
                        after,
                        end,
                    ) ==> copy_run(
                        reads_of,
                        writes_of,
                        source,
                        sink,
                        before,
                        might,
                        after_reader,
                        after_writer,
                        after,
                        end,
                    ));
            }
            done
        };
        match done {
            Some(result) => {
                assert(copy_run(
                    reads_of,
                    writes_of,
                    source,
                    sink,
                    before,
                    might,
                    *reader,
                    *writer,
                    progress@,
                    result,
                ));
                return result;
            },
            None => {
                assert forall|
                    after_reader: R,
                    after_writer: W,
                    after: CopyModel,
                    end: Poll<Result<u64, Error>>,
                | #[trigger]
                    copy_run(
                        reads_of,
                        writes_of,
                        *reader,
                        *writer,
                        progress@,
                        may_read,
                        after_reader,
                        after_writer,
                        after,
                        end,
                    ) implies copy_run(
                    reads_of,
                    writes_of,
                    *old(reader),
                    *old(writer),
                    old(progress)@,
                    true,
                    after_reader,
                    after_writer,
                    after,
                    end,
                ) by {
                    assert(copy_run(
                        reads_of,
                        writes_of,
                        source,
                        sink,
                        before,
                        might,
                        after_reader,
                        after_writer,
                        after,
                        end,
                    ));
                }
            },
        }
    }
}

/// One write carries a poll of `copy` on as `copy_run` says: it ends the poll,
/// or the poll goes on from the progress that the write left.
proof fn lemma_copy_wrote<R, W>(
    reads: spec_fn(R, R, Seq<u8>, Seq<u8>, Poll<Result<usize, Error>>) -> bool,
    writes: spec_fn(W, W, Seq<u8>, Poll<Result<usize, Error>>) -> bool,
    reader: R,
    writer: W,
    progress: CopyModel,
    may_read: bool,
    next: W,
    outcome: Poll<Result<usize, Error>>,
)
    requires
        progress.wf(),
        progress.written < progress.filled,
        writes(
            writer,
            next,
            progress.buffer.subrange(progress.written as int, progress.filled as int),
            outcome,
        ),
        progress.written + brought(outcome) <= progress.filled,
    ensures
        progress.wrote(outcome).1 matches Some(result) ==> copy_run(
            reads,
            writes,
            reader,
            writer,
            progress,
            may_read,
            reader,
            next,
            progress.wrote(outcome).0,
            result,
        ),
        progress.wrote(outcome).1 is None ==> forall|
            after_reader: R,
            after_writer: W,
            after: CopyModel,
            end: Poll<Result<u64, Error>>,
        | #[trigger]
            copy_run(
                reads,
                writes,
                reader,
                next,
                progress.wrote(outcome).0,
                may_read,
                after_reader,
                after_writer,
                after,
                end,
            ) ==> copy_run(
                reads,
                writes,
                reader,
                writer,
                progress,
                may_read,
                after_reader,
                after_writer,
                after,
                end,
            ),
{
}

/// One read carries a poll of `copy` on as `copy_run` says: it ends the poll,
/// or the poll goes on from the progress that the read left.
proof fn lemma_copy_read<R, W>(
    reads: spec_fn(R, R, Seq<u8>, Seq<u8>, Poll<Result<usize, Error>>) -> bool,
    writes: spec_fn(W, W, Seq<u8>, Poll<Result<usize, Error>>) -> bool,
    reader: R,
    writer: W,
    progress: CopyModel,
    may_read: bool,
    next: R,
    filled: Seq<u8>,
    outcome: Poll<Result<usize, Error>>,
)
    requires
        progress.wf(),
        progress.written >= progress.filled,
        !(progress.length == u64::MAX && !may_read),
        reads(reader, next, progress.buffer, filled, outcome),
        filled.len() == progress.buffer.len(),
        brought(outcome) <= filled.len(),
    ensures
        (CopyModel { buffer: filled, ..progress }).read(outcome).1 matches Some(result)
            ==> copy_run(
            reads,
            writes,
            reader,
            writer,
            progress,
            may_read,
            next,
            writer,
            (CopyModel { buffer: filled, ..progress }).read(outcome).0,
            result,
        ),
        (CopyModel { buffer: filled, ..progress }).read(outcome).1 is None ==> forall|
            after_reader: R,
            after_writer: W,
            after: CopyModel,
            end: Poll<Result<u64, Error>>,
        | #[trigger]
            copy_run(
                reads,
                writes,
                next,
                writer,
                (CopyModel { buffer: filled, ..progress }).read(outcome).0,
                still_may_read(may_read, progress.length),
                after_reader,
                after_writer,
                after,
                end,
            ) ==> copy_run(
                reads,
                writes,
                reader,
                writer,
                progress,
                may_read,
                after_reader,
                after_writer,
                after,
                end,
            ),
{
}

/// A source of zero bytes without end, which is a sink that swallows
/// everything too.
pub fn empty() -> Empty {
    Empty
}

/// One poll of reading `reader` to its end as text; the bytes are gathered in
/// `progress` from poll to poll. The poll goes as `read_to_string_run` says
/// for a string that starts out empty, and hands the string out in place of
/// the number of the bytes.
pub fn read_to_string<R: AsyncRead>(reader: &mut R, progress: &mut ReadToString) -> (r: Poll<
    Result<String, Error>,
>)
    requires
        old(progress).total == old(progress).bytes@.len(),
    ensures
        final(progress).total == final(progress).bytes@.len(),
        final(progress).bytes@.subrange(0, old(progress).bytes@.len() as int)
            == old(progress).bytes@,
        read_to_string_run(
            |
                source: R,
                after: R,
                before: Seq<u8>,
                filled: Seq<u8>,
                outcome: Poll<Result<usize, Error>>,
            | source.reads(after, before, filled, outcome),
            *old(reader),
            old(progress).bytes@,
            old(progress).total,
            Seq::<char>::empty(),
            *final(reader),
            final(progress).bytes@,
            final(progress).total,
            match r {
                Poll::Ready(Ok(text)) => text@,
                _ => Seq::<char>::empty(),
            },
            match r {
                Poll::Ready(Ok(text)) => Poll::Ready(Ok(final(progress).total)),
                Poll::Ready(Err(error)) => Poll::Ready(Err(error)),
                Poll::Pending => Poll::Pending,
            },
        ),
{
    let mut buffer = String::new();
    match reader.read_to_string(&mut buffer, progress) {
        Poll::Pending => Poll::Pending,
        Poll::Ready(Err(error)) => Poll::Ready(Err(error)),
        Poll::Ready(Ok(_)) => {
            assert(buffer@ =~= Seq::<char>::empty() + vstd::utf8::decode_utf8(progress.bytes@));
            Poll::Ready(Ok(buffer))
        },
    }
}

/// A source that yields `byte` over and over.
pub fn repeat(byte: u8) -> (r: Repeat)
    ensures
        r.byte == byte,
{
    Repeat { byte }
}

/// A sink that swallows everything.
pub fn sink() -> Sink {
    Sink
}

} // verus!
