pub mod connect;
pub mod op;

pub use connect::{Attempt, ConnectTimeout};
pub use op::{resolve, NetOp, SocketKind};
