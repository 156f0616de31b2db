//! A bridge between a remote terminal client and a local shell running on a
//! pseudo-terminal: shell resolution, control-message decoding, spawn
//! planning and the per-connection session rules.

pub mod text;
pub mod shell;
pub mod probe;
pub mod protocol;
pub mod spawn;
pub mod connection;
pub mod cli;
pub mod server;
