//! A verified core for a SOCKS5 CONNECT proxy.
//!
//! The library holds the protocol logic of the proxy: method negotiation,
//! request parsing, the address codec, reply encoding, the per-direction
//! relay decisions, and the session state machine that sequences them.
//! The sockets themselves, and the threads that pump them, live outside
//! the library and drive it through `session::session_step`.

pub mod codec;
pub mod error;
pub mod negotiate;
pub mod relay;
pub mod reply;
pub mod request;
pub mod session;
