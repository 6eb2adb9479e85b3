use crate::io::error::{Error, ErrorKind};
use crate::poll::Poll;
use crate::time::{Duration, Instant};
use vstd::prelude::*;

verus! {

/// The kind of socket that an operation runs on; it names the socket in the
/// message of a timeout.
#[derive(Clone, Copy, Debug, PartialEq, Eq, Structural)]
pub enum SocketKind {
    TcpStream,
    UdpSocket,
}

impl SocketKind {
    pub open spec fn spec_timeout_message(self) -> Seq<char> {
        match self {
            SocketKind::TcpStream => "TcpStream timed out"@,
            SocketKind::UdpSocket => "UdpSocket timed out"@,
        }
    }

    /// The error that an operation on this kind of socket ends with when its
    /// timeout has run out.
    pub fn timeout_error(self) -> (e: Error)
        ensures
            e@ == (ErrorKind::TimedOut, self.spec_timeout_message()),
    {
        match self {
            SocketKind::TcpStream => Error::new(ErrorKind::TimedOut, "TcpStream timed out"),
            SocketKind::UdpSocket => Error::new(ErrorKind::TimedOut, "UdpSocket timed out"),
        }
    }
}

/// What one non-blocking attempt means for the computation that made it: a value
/// or a failure completes it, while "would block" and "interrupted" leave it
/// pending, to be tried again at the next poll.
pub open spec fn spec_resolve<V>(outcome: Result<V, Error>) -> Poll<Result<V, Error>> {
    match outcome {
        Ok(value) => Poll::Ready(Ok(value)),
        Err(error) => if error.kind == ErrorKind::WouldBlock || error.kind
            == ErrorKind::Interrupted {
            Poll::Pending
        } else {
            Poll::Ready(Err(error))
        },
    }
}

/// Turns the outcome of one non-blocking attempt into the result of the poll
/// that made it.
pub fn resolve<V>(outcome: Result<V, Error>) -> (r: Poll<Result<V, Error>>)
    ensures
        r == spec_resolve(outcome),
{
    match outcome {
        Ok(value) => Poll::Ready(Ok(value)),
        Err(error) => match error.kind {
            ErrorKind::WouldBlock => Poll::Pending,
            ErrorKind::Interrupted => Poll::Pending,
            _ => Poll::Ready(Err(error)),
        },
    }
}

/// One network operation in flight: the socket it runs on and, where a timeout
/// is configured for its direction, the instant at which it gives up.
#[derive(Debug)]
pub struct NetOp {
    pub socket: SocketKind,
    pub deadline: Option<Instant>,
}

impl NetOp {
    /// Begins an operation at `now`. `timeout` is what the socket reports as the
    /// timeout of the direction concerned: a timeout of zero is refused, any other
    /// sets the deadline, and without a readable timeout the operation never
    /// gives up.
    pub fn start(socket: SocketKind, timeout: Result<Option<Duration>, Error>, now: Instant) -> (r:
        Result<NetOp, Error>)
        requires
            timeout matches Ok(Some(span)) ==> now.nanos + span.nanos <= u128::MAX,
        ensures
            match timeout {
                Ok(Some(span)) => if span.nanos == 0 {
                    r matches Err(e) && e@ == (
                        ErrorKind::InvalidInput,
                        "Timeout duration can't be zero"@,
                    )
                } else {
                    r matches Ok(op) && op.socket == socket && op.deadline == Some(
                        Instant { nanos: (now.nanos + span.nanos) as u128 },
                    )
                },
                _ => r matches Ok(op) && op.socket == socket && op.deadline is None,
            },
    {
        match timeout {
            Ok(Some(span)) => {
                if span.is_zero() {
                    Err(Error::new(ErrorKind::InvalidInput, "Timeout duration can't be zero"))
                } else {
                    Ok(NetOp { socket, deadline: now.checked_add(span) })
                }
            },
            _ => Ok(NetOp { socket, deadline: None }),
        }
    }

    /// Whether the operation has run out of time at `now`.
    pub open spec fn spec_expired(self, now: Instant) -> bool {
        self.deadline matches Some(deadline) && deadline.spec_has_passed(now)
    }

    /// The check that opens every poll: once `now` lies past the deadline the
    /// operation ends with a timeout, and the socket is not tried again.
    pub fn timed_out(&self, now: Instant) -> (r: Option<Error>)
        ensures
            self.spec_expired(now) ==> (r matches Some(e) && e@ == (
                ErrorKind::TimedOut,
                self.socket.spec_timeout_message(),
            )),
            !self.spec_expired(now) ==> r is None,
    {
        match self.deadline {
            Some(deadline) => {
                if deadline.has_passed(now) {
                    Some(self.socket.timeout_error())
                } else {
                    None
                }
            },
            None => None,
        }
    }

    /// One whole poll, for an attempt whose outcome is at hand: the deadline is
    /// looked at first, and only an operation that still has time takes the
    /// attempt's outcome.
    pub fn poll<V>(&self, now: Instant, outcome: Result<V, Error>) -> (r: Poll<Result<V, Error>>)
        ensures
            self.spec_expired(now) ==> (r matches Poll::Ready(Err(e)) && e@ == (
                ErrorKind::TimedOut,
                self.socket.spec_timeout_message(),
            )),
            !self.spec_expired(now) ==> r == spec_resolve(outcome),
    {
        match self.timed_out(now) {
            Some(error) => Poll::Ready(Err(error)),
            None => resolve(outcome),
        }
    }
}

} // verus!
