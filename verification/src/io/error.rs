use vstd::prelude::*;

verus! {

/// The classes of failure that the runtime tells apart.
#[derive(Clone, Copy, Debug, PartialEq, Eq, Structural)]
pub enum ErrorKind {
    /// The operation cannot complete now; it is never handed to a caller, a
    /// poll answers it with `Pending`.
    WouldBlock,
    /// The operation was interrupted and is simply tried again.
    Interrupted,
    /// A timeout that the user configured has run out.
    TimedOut,
    /// The source ended before the requested bytes were read.
    UnexpectedEof,
    /// The bytes read are not valid text.
    InvalidData,
    /// An argument that cannot be used, such as a timeout of zero.
    InvalidInput,
    /// No address was there to connect to.
    AddrNotAvailable,
    /// Any other failure reported by the system.
    Other,
}

/// A failure: its class and a message for the reader.
#[derive(Debug)]
pub struct Error {
    pub kind: ErrorKind,
    pub message: String,
}

impl View for Error {
    type V = (ErrorKind, Seq<char>);

    open spec fn view(&self) -> (ErrorKind, Seq<char>) {
        (self.kind, self.message@)
    }
}

impl Error {
    pub fn new(kind: ErrorKind, message: &str) -> (e: Error)
        ensures
            e@ == (kind, message@),
    {
        Error { kind, message: message.to_owned() }
    }

    pub fn kind(&self) -> (k: ErrorKind)
        ensures
            k == self.kind,
    {
        self.kind
    }

    pub fn message(&self) -> (m: &str)
        ensures
            m@ == self.message@,
    {
        self.message.as_str()
    }
}

} // verus!
