//! Session orchestration for a dedicated, named terminal-multiplexer server.
//!
//! The crate decides where the current process runs, addresses the managed
//! server, drives the bootstrap handshake and maps command-line verbs to
//! these behaviours. It performs no input or output itself: every effect is
//! described as a value that the embedding program carries out.

pub mod command;
pub mod context;
pub mod exec;
pub mod handshake;
pub mod os;
pub mod sentinel;
pub mod session;
pub mod text;
pub mod theorems;
pub mod tmux;
