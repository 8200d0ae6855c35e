//! The session core of a client's connection to one server node.
//!
//! The core owns everything about a connection that is a decision: which
//! transport to open, when the connection counts as idle, how many bytes were
//! read since the last bookmark, how the staging buffer is sized, and whether
//! the authentication handshake lets the connection out at all. The host owns
//! the socket. It performs each transport operation and reports the outcome
//! to the core, which answers with the next state.

pub mod buffer;
pub mod clock;
pub mod connection;
pub mod error;
pub mod laws;
pub mod policy;
pub mod tls;

pub use buffer::Buffer;
pub use connection::Connection;
pub use error::{AuthFailure, ConnectionError, IoFailure};
pub use policy::{ClientPolicy, TlsSettings, Transport};
