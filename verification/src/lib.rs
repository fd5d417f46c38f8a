//! A TLS-terminating command-dispatch server, modelled as a verified library.
//!
//! The library holds the protocol logic: classifying a received line as a
//! command token, and the per-connection state machine that decides, for every
//! observed transport event, the next state and the action the surrounding
//! runtime must perform. The runtime itself (sockets, the TLS handshake,
//! running privileged actions) lives outside the library and feeds plain
//! values in and out.

pub mod cmus;
pub mod command;
pub mod session;
pub mod text;
