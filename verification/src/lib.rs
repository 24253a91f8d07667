//! Decision logic of `tow`, a tunnel that carries TCP streams and UDP
//! datagrams over WebSocket connections.
//!
//! The library holds what the proxy decides: how a tunnel announces and
//! recognises its transport, what each pump does with the frame or chunk it
//! has just read, and how the client keeps one tunnel per local UDP address
//! and retires tunnels whose socket went away or fell idle. Sockets, tasks
//! and timers live with the program that drives these functions.

pub mod endpoint;
pub mod registry;
pub mod socket_table;
pub mod handshake;
pub mod pump;
pub mod monitor;
pub mod trace;
pub mod laws;
