//! The connection task, the message helpers and the acceptor's retry rule.

pub use crate::frame::CipherMode;
pub use connection::Connection;
pub use connection::UdpConnection;

pub mod connection;
pub mod message;
pub mod server;
