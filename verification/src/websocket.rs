//! The chat protocol's message vocabulary and error codes. The transport
//! itself (sockets, framing, JSON) lives outside the verified core.

pub mod protocol;
pub mod server;

pub use self::protocol::ProtocolMessage;
pub use self::server::User;
