//! Pseudo-terminal sessions, the multiplexer behind the persistent ones, and
//! the relay that forwards what they print.

pub mod commands;
pub mod error;
pub mod locate;
pub mod relay;
pub mod session;
pub mod steps;
pub mod table;
pub mod tmux;
