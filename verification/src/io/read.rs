use crate::io::chain::Chain;
use crate::io::error::{Error, ErrorKind};
use crate::io::take::Take;
use crate::poll::Poll;
use vstd::prelude::*;
use vstd::string::StringExecFns;

verus! {

/// The size of the buffer through which the helpers move bytes.
pub const INIT_BUFFER_SIZE: usize = 4096;

/// The error of `String::from_utf8` of the standard library. Nothing is said
/// of what it holds: the library only tells it from success.
#[verifier::external_type_specification]
#[verifier::external_body]
pub struct ExFromUtf8Error(std::string::FromUtf8Error);

/// `String::from_utf8` of the standard library: it accepts exactly the byte
/// vectors that are valid UTF-8, and the string it returns holds the characters
/// that the bytes encode.
pub assume_specification[ String::from_utf8 ](vec: Vec<u8>) -> (r: Result<
    String,
    std::string::FromUtf8Error,
>)
    ensures
        r is Ok <==> vstd::utf8::valid_utf8(vec@),
        r matches Ok(s) ==> s@ == vstd::utf8::decode_utf8(vec@),
;

/// What the outcome of one read means for a helper that has read `total`
/// bytes so far and goes on until the source is at its end: the new count,
/// and the result of the poll if the poll ends here.
///
/// A read that brought bytes is counted and followed by another; the end of
/// the source (a read of no bytes) completes the helper with the count; a
/// source that is not ready or was interrupted leaves the helper pending; any
/// other failure is the helper's.
pub open spec fn spec_read_to_end_step(total: usize, outcome: Poll<Result<usize, Error>>) -> (
    usize,
    Option<Poll<Result<usize, Error>>>,
) {
    match outcome {
        Poll::Pending => (total, Some(Poll::Pending)),
        Poll::Ready(Ok(length)) => if length == 0 {
            (total, Some(Poll::Ready(Ok(total))))
        } else {
            ((total + length) as usize, None)
        },
        Poll::Ready(Err(error)) => if error.kind == ErrorKind::Interrupted {
            (total, Some(Poll::Pending))
        } else {
            (total, Some(Poll::Ready(Err(error))))
        },
    }
}

/// The step of `read_to_end` after one read.
pub fn read_to_end_step(total: usize, outcome: Poll<Result<usize, Error>>) -> (r: (
    usize,
    Option<Poll<Result<usize, Error>>>,
))
    requires
        outcome matches Poll::Ready(Ok(length)) ==> total + length <= usize::MAX,
    ensures
        r == spec_read_to_end_step(total, outcome),
{
    match outcome {
        Poll::Pending => (total, Some(Poll::Pending)),
        Poll::Ready(Ok(length)) => {
            if length == 0 {
                (total, Some(Poll::Ready(Ok(total))))
            } else {
                (total + length, None)
            }
        },
        Poll::Ready(Err(error)) => match error.kind {
            ErrorKind::Interrupted => (total, Some(Poll::Pending)),
            _ => (total, Some(Poll::Ready(Err(error)))),
        },
    }
}

/// What the outcome of one read means for a helper that fills a buffer of
/// `len` bytes and has `total` of them: the new count, and the result of the
/// poll if the poll ends here.
///
/// A read that brought bytes is counted and followed by another; at the end of
/// the source the helper is complete if the buffer is full and fails with
/// `UnexpectedEof` if it is not; a source that is not ready or was interrupted
/// leaves the helper pending; any other failure is the helper's.
pub fn read_exact_step(total: usize, len: usize, outcome: Poll<Result<usize, Error>>) -> (r: (
    usize,
    Option<Poll<Result<(), Error>>>,
))
    requires
        outcome matches Poll::Ready(Ok(length)) ==> total + length <= usize::MAX,
    ensures
        match outcome {
            Poll::Pending => r == (total, Some(Poll::<Result<(), Error>>::Pending)),
            Poll::Ready(Ok(length)) => if length > 0 {
                r == ((total + length) as usize, None::<Poll<Result<(), Error>>>)
            } else if total == len {
                r == (total, Some(Poll::Ready(Ok::<(), Error>(()))))
            } else {
                r.0 == total && (r.1 matches Some(Poll::Ready(Err(e))) && e@ == (
                    ErrorKind::UnexpectedEof,
                    Seq::<char>::empty(),
                ))
            },
            Poll::Ready(Err(error)) => if error.kind == ErrorKind::Interrupted {
                r == (total, Some(Poll::<Result<(), Error>>::Pending))
            } else {
                r == (total, Some(Poll::Ready(Err::<(), Error>(error))))
            },
        },
{
    match outcome {
        Poll::Pending => (total, Some(Poll::Pending)),
        Poll::Ready(Ok(length)) => {
            if length == 0 {
                if total != len {
                    let error = Error::new(ErrorKind::UnexpectedEof, "");
                    proof {
                        reveal_strlit("");
                        assert(error.message@ =~= Seq::<char>::empty());
                    }
                    (total, Some(Poll::Ready(Err(error))))
                } else {
                    (total, Some(Poll::Ready(Ok(()))))
                }
            } else {
                (total + length, None)
            }
        },
        Poll::Ready(Err(error)) => match error.kind {
            ErrorKind::Interrupted => (total, Some(Poll::Pending)),
            _ => (total, Some(Poll::Ready(Err(error)))),
        },
    }
}

/// The end of `read_to_string`: the bytes that were read become text at the
/// end of `buf`, and the helper returns their number; bytes that are no text
/// make it fail with `InvalidData` and leave `buf` as it was.
pub fn append_text(buf: &mut String, bytes: Vec<u8>) -> (r: Result<usize, Error>)
    ensures
        vstd::utf8::valid_utf8(bytes@) ==> r == Ok::<usize, Error>(bytes@.len() as usize)
            && final(buf)@ == old(buf)@ + vstd::utf8::decode_utf8(bytes@),
        !vstd::utf8::valid_utf8(bytes@) ==> (r matches Err(e) && e@ == (
            ErrorKind::InvalidData,
            "stream did not contain valid UTF-8"@,
        )) && final(buf)@ == old(buf)@,
{
    let length = bytes.len();
    match String::from_utf8(bytes) {
        Ok(text) => {
            buf.append(text.as_str());
            Ok(length)
        },
        Err(_) => Err(Error::new(ErrorKind::InvalidData, "stream did not contain valid UTF-8")),
    }
}

/// Copies the first `length` bytes of `chunk` into `buf`, from `at` on.
pub fn place(buf: &mut Vec<u8>, at: usize, chunk: &Vec<u8>, length: usize)
    requires
        length <= chunk@.len(),
        at + length <= old(buf)@.len(),
    ensures
        final(buf)@ == placed(old(buf)@, at as int, chunk@, length as int),
{
    // Reading the length tells the verifier that it fits a `usize`.
    let size = buf.len();
    let mut i: usize = 0;
    while i < length
        invariant
            i <= length <= chunk@.len(),
            at + length <= buf@.len() == size,
            buf@.len() == old(buf)@.len(),
            forall|j: int| 0 <= j < at ==> buf@[j] == old(buf)@[j],
            forall|j: int| at <= j < at + i ==> buf@[j] == chunk@[j - at],
            forall|j: int| at + i <= j < buf@.len() ==> buf@[j] == old(buf)@[j],
        decreases length - i,
    {
        buf[at + i] = chunk[i];
        i += 1;
    }
    assert(buf@ =~= old(buf)@.subrange(0, at as int) + chunk@.subrange(0, length as int)
        + old(buf)@.subrange(at + length, old(buf)@.len() as int));
}

/// The progress of `read_to_string`: the bytes read so far and their number.
#[derive(Debug)]
pub struct ReadToString {
    pub bytes: Vec<u8>,
    pub total: usize,
}

impl ReadToString {
    pub fn new() -> (progress: ReadToString)
        ensures
            progress.bytes@ == Seq::<u8>::empty(),
            progress.total == 0,
    {
        ReadToString { bytes: Vec::new(), total: 0 }
    }
}

/// A buffer of `len` zeros, as the helpers hand it to a read.
pub open spec fn zeros(len: nat) -> Seq<u8> {
    Seq::new(len, |i: int| 0u8)
}

/// The bytes that a read with this outcome brought.
pub open spec fn brought(outcome: Poll<Result<usize, Error>>) -> usize {
    match outcome {
        Poll::Ready(Ok(length)) => length,
        _ => 0,
    }
}

/// The buffer `buf` after the first `length` bytes of `chunk` were put into
/// it, from `at` on.
pub open spec fn placed(buf: Seq<u8>, at: int, chunk: Seq<u8>, length: int) -> Seq<u8> {
    buf.subrange(0, at) + chunk.subrange(0, length) + buf.subrange(at + length, buf.len() as int)
}

/// Whether `r` is how `read_exact` ends on a read that brought no bytes, with
/// `total` of `len` bytes in place: complete if the buffer is full, failed
/// with `UnexpectedEof` if the source is at its end before that, pending if
/// the source is not ready or was interrupted, and failed as the read failed
/// otherwise.
pub open spec fn read_exact_ends(
    total: usize,
    len: usize,
    outcome: Poll<Result<usize, Error>>,
    r: Poll<Result<(), Error>>,
) -> bool {
    match outcome {
        Poll::Pending => r is Pending,
        Poll::Ready(Ok(_)) => if total == len {
            r == Poll::Ready(Ok::<(), Error>(()))
        } else {
            r matches Poll::Ready(Err(e)) && e@ == (
                ErrorKind::UnexpectedEof,
                Seq::<char>::empty(),
            )
        },
        Poll::Ready(Err(error)) => if error.kind == ErrorKind::Interrupted {
            r is Pending
        } else {
            r == Poll::Ready(Err::<(), Error>(error))
        },
    }
}

/// Whether a poll of `read_exact` can go this way: from the source `source`,
/// whose reads go as `reads` says, and with `total` bytes of `buf` in place,
/// the poll leaves the source as `after`, the buffer holding `filled` and the
/// count at `count`, and returns `r`.
///
/// The source is read into a buffer of zeros as long as what is missing. The
/// bytes that the read brought are put in place and counted, and the poll
/// goes on from there; a read that brought none ends the poll as
/// `read_exact_ends` says.
pub open spec fn read_exact_run<R>(
    reads: spec_fn(R, R, Seq<u8>, Seq<u8>, Poll<Result<usize, Error>>) -> bool,
    source: R,
    buf: Seq<u8>,
    total: usize,
    after: R,
    filled: Seq<u8>,
    count: usize,
    r: Poll<Result<(), Error>>,
) -> bool
    decreases buf.len() - total,
{
    if total > buf.len() || buf.len() > usize::MAX {
        false
    } else {
        let len = buf.len() as usize;
        exists|next: R, chunk: Seq<u8>, outcome: Poll<Result<usize, Error>>|
            {
                &&& #[trigger] reads(source, next, zeros((len - total) as nat), chunk, outcome)
                &&& chunk.len() == len - total
                &&& total + brought(outcome) <= len
                &&& if brought(outcome) > 0 {
                    read_exact_run(
                        reads,
                        next,
                        placed(buf, total as int, chunk, brought(outcome) as int),
                        (total + brought(outcome)) as usize,
                        after,
                        filled,
                        count,
                        r,
                    )
                } else {
                    &&& after == next
                    &&& filled == buf
                    &&& count == total
                    &&& read_exact_ends(total, len, outcome, r)
                }
            }
    }
}

/// Whether a poll of `read_to_end` can go this way: from the source
/// `source`, whose reads go as `reads` says, with `buf` gathered and `total`
/// bytes counted so far, the poll leaves the source as `after`, the buffer
/// holding `filled` and the count at `count`, and returns `r`.
///
/// The source is read into a buffer of `INIT_BUFFER_SIZE` zeros. The bytes
/// that the read brought are appended and counted, and the poll goes on from
/// there; a read that brought none ends the poll as `spec_read_to_end_step`
/// says.
pub open spec fn read_to_end_run<R>(
    reads: spec_fn(R, R, Seq<u8>, Seq<u8>, Poll<Result<usize, Error>>) -> bool,
    source: R,
    buf: Seq<u8>,
    total: usize,
    after: R,
    filled: Seq<u8>,
    count: usize,
    r: Poll<Result<usize, Error>>,
) -> bool
    decreases usize::MAX - buf.len(),
{
    exists|next: R, chunk: Seq<u8>, outcome: Poll<Result<usize, Error>>|
        {
            &&& #[trigger] reads(source, next, zeros(INIT_BUFFER_SIZE as nat), chunk, outcome)
            &&& chunk.len() == INIT_BUFFER_SIZE
            &&& brought(outcome) <= INIT_BUFFER_SIZE
            &&& total + brought(outcome) <= usize::MAX
            &&& buf.len() + brought(outcome) <= usize::MAX
            &&& if brought(outcome) > 0 {
                read_to_end_run(
                    reads,
                    next,
                    buf + chunk.subrange(0, brought(outcome) as int),
                    (total + brought(outcome)) as usize,
                    after,
                    filled,
                    count,
                    r,
                )
            } else {
                &&& after == next
                &&& filled == buf
                &&& count == total
                &&& spec_read_to_end_step(total, outcome).1 == Some(r)
            }
        }
}

/// Whether a poll of `read_to_string` can go this way: from the source
/// `source`, whose reads go as `reads` says, with `bytes` gathered and `total`
/// of them counted so far and `text` in the string, the poll leaves the source
/// as `after`, the bytes as `gathered`, the count at `count` and the string
/// holding `appended`, and returns `r`.
///
/// The poll is one of `read_to_end`. While that is pending, or if it fails,
/// so does this poll, and the string stays. When it is complete, the bytes
/// gathered are appended to the string as text and their number is returned;
/// if they are no text, the poll fails with `InvalidData` and the string
/// stays.
pub open spec fn read_to_string_run<R>(
    reads: spec_fn(R, R, Seq<u8>, Seq<u8>, Poll<Result<usize, Error>>) -> bool,
    source: R,
    bytes: Seq<u8>,
    total: usize,
    text: Seq<char>,
    after: R,
    gathered: Seq<u8>,
    count: usize,
    appended: Seq<char>,
    r: Poll<Result<usize, Error>>,
) -> bool {
    let complete = read_to_end_run(
        reads,
        source,
        bytes,
        total,
        after,
        gathered,
        count,
        Poll::Ready(Ok::<usize, Error>(count)),
    );
    match r {
        Poll::Pending => appended == text && read_to_end_run(
            reads,
            source,
            bytes,
            total,
            after,
            gathered,
            count,
            Poll::Pending,
        ),
        Poll::Ready(Ok(length)) => {
            &&& complete
            &&& vstd::utf8::valid_utf8(gathered)
            &&& length == gathered.len()
            &&& appended == text + vstd::utf8::decode_utf8(gathered)
        },
        Poll::Ready(Err(error)) => {
            &&& appended == text
            &&& {
                ||| read_to_end_run(
                    reads,
                    source,
                    bytes,
                    total,
                    after,
                    gathered,
                    count,
                    Poll::Ready(Err::<usize, Error>(error)),
                )
                ||| complete && !vstd::utf8::valid_utf8(gathered) && error@ == (
                    ErrorKind::InvalidData,
                    "stream did not contain valid UTF-8"@,
                )
            }
        },
    }
}

/// A read that brought no bytes ends a poll of `read_exact`.
proof fn lemma_read_exact_ends<R>(
    reads: spec_fn(R, R, Seq<u8>, Seq<u8>, Poll<Result<usize, Error>>) -> bool,
    source: R,
    buf: Seq<u8>,
    total: usize,
    next: R,
    chunk: Seq<u8>,
    outcome: Poll<Result<usize, Error>>,
    r: Poll<Result<(), Error>>,
)
    requires
        total <= buf.len() <= usize::MAX,
        reads(source, next, zeros((buf.len() - total) as nat), chunk, outcome),
        chunk.len() == buf.len() - total,
        brought(outcome) == 0,
        read_exact_ends(total, buf.len() as usize, outcome, r),
    ensures
        read_exact_run(reads, source, buf, total, next, buf, total, r),
{
}

/// A source of bytes that is read by polling.
pub trait AsyncRead: Sized {
    /// Whether a read of this source can go this way: handed a buffer that
    /// holds `before`, the read leaves the source as `after` and the buffer
    /// holding `filled`, and returns `outcome`. Each source says here what its
    /// reads do; a source that says nothing, because its reads depend on the
    /// world outside, allows every way that they can go.
    open spec fn reads(
        &self,
        after: Self,
        before: Seq<u8>,
        filled: Seq<u8>,
        outcome: Poll<Result<usize, Error>>,
    ) -> bool {
        true
    }

    /// One poll of a read into `buf`. `Ready(Ok(n))` says that the first `n`
    /// bytes of `buf` were read from the source, and `n == 0` that the source
    /// is at its end (or `buf` is empty). The length of `buf` stays.
    fn read(&mut self, buf: &mut Vec<u8>) -> (r: Poll<Result<usize, Error>>)
        ensures
            final(buf)@.len() == old(buf)@.len(),
            r matches Poll::Ready(Ok(n)) ==> n <= old(buf)@.len(),
            old(self).reads(*final(self), old(buf)@, final(buf)@, r),
    ;

    /// One poll of reading to the end of the source, appending to `buf`.
    /// `total` carries the count of the bytes read from poll to poll and starts
    /// at zero. The poll goes as `read_to_end_run` says, for the reads that it
    /// makes.
    fn read_to_end(&mut self, buf: &mut Vec<u8>, total: &mut usize) -> (r: Poll<
        Result<usize, Error>,
    >)
        requires
            *old(total) <= old(buf)@.len(),
        ensures
            *final(total) - *old(total) == final(buf)@.len() - old(buf)@.len(),
            *final(total) >= *old(total),
            final(buf)@.subrange(0, old(buf)@.len() as int) == old(buf)@,
            r matches Poll::Ready(Ok(n)) ==> n == *final(total),
            read_to_end_run(
                |
                    source: Self,
                    after: Self,
                    before: Seq<u8>,
                    filled: Seq<u8>,
                    outcome: Poll<Result<usize, Error>>,
                | source.reads(after, before, filled, outcome),
                *old(self),
                old(buf)@,
                *old(total),
                *final(self),
                final(buf)@,
                *final(total),
                r,
            ),
    {
        let ghost reads_of = |
            source: Self,
            after: Self,
            before: Seq<u8>,
            filled: Seq<u8>,
            outcome: Poll<Result<usize, Error>>,
        | source.reads(after, before, filled, outcome);
        // Reading the length tells the verifier that it fits a `usize`.
        let _ = buf.len();
        loop
            invariant
                *old(total) <= old(buf)@.len(),
                buf@.len() <= usize::MAX,
                *total - *old(total) == buf@.len() - old(buf)@.len(),
                *total >= *old(total),
                buf@.subrange(0, old(buf)@.len() as int) == old(buf)@,
                reads_of == |
                    source: Self,
                    after: Self,
                    before: Seq<u8>,
                    filled: Seq<u8>,
                    outcome: Poll<Result<usize, Error>>,
                | source.reads(after, before, filled, outcome),
                forall|
                    after: Self,
                    filled: Seq<u8>,
                    count: usize,
                    end: Poll<Result<usize, Error>>,
                | #[trigger]
                    read_to_end_run(reads_of, *self, buf@, *total, after, filled, count, end)
                        ==> read_to_end_run(
                        reads_of,
                        *old(self),
                        old(buf)@,
                        *old(total),
                        after,
                        filled,
                        count,
                        end,
                    ),
            decreases usize::MAX - buf@.len(),
        {
            let ghost source = *self;
            let ghost gathered = buf@;
            let ghost counted = *total;
            let mut chunk: Vec<u8> = vec![0u8; INIT_BUFFER_SIZE];
            assert(chunk@ =~= zeros(INIT_BUFFER_SIZE as nat));
            let outcome = self.read(&mut chunk);
            let ghost seen = outcome;
            match outcome {
                Poll::Ready(Ok(length)) => {
                    let filled = vstd::slice::slice_subrange(chunk.as_slice(), 0, length);
                    buf.extend_from_slice(filled);
                    let _ = buf.len();
                    assert(buf@ =~= gathered + chunk@.subrange(0, length as int));
                    assert(buf@.subrange(0, old(buf)@.len() as int) =~= old(buf)@) by {
                        assert forall|i: int| 0 <= i < old(buf)@.len() implies buf@[i]
                            == old(buf)@[i] by {
                            assert(gathered.subrange(0, old(buf)@.len() as int)[i] == gathered[i]);
                        }
                    }
                },
                _ => {},
            }
            let (count, done) = read_to_end_step(*total, outcome);
            *total = count;
            proof {
                assert(reads_of(source, *self, zeros(INIT_BUFFER_SIZE as nat), chunk@, seen));
                if brought(seen) == 0 {
                    assert(buf@ =~= gathered);
                }
            }
            match done {
                Some(result) => {
                    proof {
                        assert(read_to_end_run(
                            reads_of,
                            source,
                            gathered,
                            counted,
                            *self,
                            buf@,
                            count,
                            result,
                        ));
                    }
                    return result;
                },
                None => {
                    proof {
                        assert forall|
                            after: Self,
                            filled: Seq<u8>,
                            count: usize,
                            end: Poll<Result<usize, Error>>,
                        | #[trigger]
                            read_to_end_run(
                                reads_of,
                                *self,
                                buf@,
                                *total,
                                after,
                                filled,
                                count,
                                end,
                            ) implies read_to_end_run(
                            reads_of,
                            *old(self),
                            old(buf)@,
                            *old(total),
                            after,
                            filled,
                            count,
                            end,
                        ) by {
                            assert(read_to_end_run(
                                reads_of,
                                source,
                                gathered,
                                counted,
                                after,
                                filled,
                                count,
                                end,
                            ));
                        }
                    }
                },
            }
        }
    }

    /// One poll of reading to the end of the source as text. The bytes are
    /// gathered in `progress` from poll to poll. The poll goes as
    /// `read_to_string_run` says, for the reads that it makes.
    fn read_to_string(&mut self, buf: &mut String, progress: &mut ReadToString) -> (r: Poll<
        Result<usize, Error>,
    >)
        requires
            old(progress).total == old(progress).bytes@.len(),
        ensures
            final(progress).total == final(progress).bytes@.len(),
            final(progress).bytes@.subrange(0, old(progress).bytes@.len() as int)
                == old(progress).bytes@,
            read_to_string_run(
                |
                    source: Self,
                    after: Self,
                    before: Seq<u8>,
                    filled: Seq<u8>,
                    outcome: Poll<Result<usize, Error>>,
                | source.reads(after, before, filled, outcome),
                *old(self),
                old(progress).bytes@,
                old(progress).total,
                old(buf)@,
                *final(self),
                final(progress).bytes@,
                final(progress).total,
                final(buf)@,
                r,
            ),
    {
        match self.read_to_end(&mut progress.bytes, &mut progress.total) {
            Poll::Pending => Poll::Pending,
            Poll::Ready(Err(error)) => Poll::Ready(Err(error)),
            Poll::Ready(Ok(_)) => Poll::Ready(append_text(buf, progress.bytes.clone())),
        }
    }

    /// One poll of filling `buf` from the source. `total` carries the count of
    /// the bytes that are in place from poll to poll and starts at zero. The
    /// poll goes as `read_exact_run` says, for the reads that it makes.
    fn read_exact(&mut self, buf: &mut Vec<u8>, total: &mut usize) -> (r: Poll<Result<(), Error>>)
        requires
            *old(total) <= old(buf)@.len(),
        ensures
            final(buf)@.len() == old(buf)@.len(),
            *old(total) <= *final(total) <= final(buf)@.len(),
            final(buf)@.subrange(0, *old(total) as int) == old(buf)@.subrange(
                0,
                *old(total) as int,
            ),
            r matches Poll::Ready(Ok(_)) ==> *final(total) == final(buf)@.len(),
            read_exact_run(
                |
                    source: Self,
                    after: Self,
                    before: Seq<u8>,
                    filled: Seq<u8>,
                    outcome: Poll<Result<usize, Error>>,
                | source.reads(after, before, filled, outcome),
                *old(self),
                old(buf)@,
                *old(total),
                *final(self),
                final(buf)@,
                *final(total),
                r,
            ),
    {
        let ghost reads_of = |
            source: Self,
            after: Self,
            before: Seq<u8>,
            filled: Seq<u8>,
            outcome: Poll<Result<usize, Error>>,
        | source.reads(after, before, filled, outcome);
        let len = buf.len();
        loop
            invariant
                buf@.len() == len == old(buf)@.len(),
                *old(total) <= *total <= len,
                buf@.subrange(0, *old(total) as int) == old(buf)@.subrange(0, *old(total) as int),
                reads_of == |
                    source: Self,
                    after: Self,
                    before: Seq<u8>,
                    filled: Seq<u8>,
                    outcome: Poll<Result<usize, Error>>,
                | source.reads(after, before, filled, outcome),
                forall|
                    after: Self,
                    filled: Seq<u8>,
                    count: usize,
                    end: Poll<Result<(), Error>>,
                | #[trigger]
                    read_exact_run(reads_of, *self, buf@, *total, after, filled, count, end)
                        ==> read_exact_run(
                        reads_of,
                        *old(self),
                        old(buf)@,
                        *old(total),
                        after,
                        filled,
                        count,
                        end,
                    ),
            decreases len - *total,
        {
            let ghost source = *self;
            let ghost before = buf@;
            let ghost counted = *total;
            let mut chunk: Vec<u8> = vec![0u8; len - *total];
            assert(chunk@ =~= zeros((len - *total) as nat));
            let outcome = self.read(&mut chunk);
            let ghost seen = outcome;
            match outcome {
                Poll::Ready(Ok(length)) => {
                    place(buf, *total, &chunk, length);
                    assert(buf@.subrange(0, *old(total) as int) =~= before.subrange(
                        0,
                        *old(total) as int,
                    ));
                },
                _ => {},
            }
            let (count, done) = read_exact_step(*total, len, outcome);
            *total = count;
            proof {
                assert(reads_of(source, *self, zeros((len - counted) as nat), chunk@, seen));
                if brought(seen) == 0 {
                    assert(buf@ =~= before);
                }
            }
            match done {
                Some(result) => {
                    proof {
                        lemma_read_exact_ends(
                            reads_of,
                            source,
                            before,
                            counted,
                            *self,
                            chunk@,
                            seen,
                            result,
                        );
                    }
                    return result;
                },
                None => {
                    proof {
                        assert forall|
                            after: Self,
                            filled: Seq<u8>,
                            count: usize,
                            end: Poll<Result<(), Error>>,
                        | #[trigger]
                            read_exact_run(
                                reads_of,
                                *self,
                                buf@,
                                *total,
                                after,
                                filled,
                                count,
                                end,
                            ) implies read_exact_run(
                            reads_of,
                            *old(self),
                            old(buf)@,
                            *old(total),
                            after,
                            filled,
                            count,
                            end,
                        ) by {
                            assert(read_exact_run(
                                reads_of,
                                source,
                                before,
                                counted,
                                after,
                                filled,
                                count,
                                end,
                            ));
                        }
                    }
                },
            }
        }
    }

    fn by_ref(&mut self) -> (r: &mut Self) where Self: Sized
        ensures
            *r == *old(self),
            *final(self) == *final(r),
    {
        self
    }

    /// This source followed by `next`.
    fn chain<R>(self, next: R) -> (r: Chain<Self, R>)
        ensures
            r.reader == self,
            r.next == next,
            r.first,
    {
        Chain::new(self, next)
    }

    /// This source, cut off after `limit` bytes.
    fn take(self, limit: u64) -> (r: Take<Self>)
        ensures
            r.reader == self,
            r.limit == limit,
            r.total == 0,
    {
        Take::new(self, limit)
    }
}

} // verus!
