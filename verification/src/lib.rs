//! A small cooperative concurrency runtime, as a set of verified state machines.
//!
//! Every primitive is a value whose operations are single polls: a poll either
//! completes or reports that it has to be repeated. The executor, the locks, the
//! channels and the socket helpers are all expressed that way, so that each
//! scheduling decision has a contract.

pub mod poll;
pub mod time;
pub mod io;
pub mod net;
pub mod runtime;
pub mod sync;
pub mod thread;
