//! The decisions of a small local solver daemon and of the command-line
//! client that talks to it.
//!
//! A client connects to a Unix domain socket, writes one command, closes its
//! write side and reads the one response that the daemon sends before it closes
//! the connection. Everything here is free of input and output: the callers
//! own the sockets and hand over bytes, text and events.
pub mod client;
pub mod command;
pub mod dispatch;
pub mod endpoint;
pub mod listener;
pub mod schedule;
pub mod session;
pub mod state;
pub mod text;
pub mod wire;
