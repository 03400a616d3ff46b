//! Client side of a supervisor's control gateway, and the coordinator that
//! keeps the supervisor's own build current.
//!
//! The library holds the decisions and the data formats: the framing of
//! control messages, the handshake and command sequence of one request, the
//! resolution of the gateway secret, and the self-update watch. Sockets,
//! timers and threads belong to the program that drives these pieces.

pub mod cli;
pub mod client;
pub mod codec;
pub mod error;
pub mod ident;
pub mod numeric;
pub mod proto;
pub mod secret;
pub mod text;
pub mod updater;
