//! Local TCP tunnels relayed over a WebSocket tunnelling protocol.
//!
//! The library holds the decisions of the tunnel manager: the wire codec that
//! builds the remote tunnel address, the handshake and relay rules of a relay
//! session, the state machine of a tunnel runner and the registry of tunnels.
//! Sockets, tasks and timers live with the caller.
pub mod text;
pub mod urlencoding;
pub mod codec;
pub mod config;
pub mod error;
pub mod session;
pub mod runner;
pub mod tunnel;
