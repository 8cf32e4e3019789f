//! Session management for pseudo-terminal processes, with optional
//! persistence through a terminal multiplexer.
//!
//! The library decides; it performs nothing. It holds the table of live
//! sessions, builds every command that is to be run and every terminal that
//! is to be brought up, and reads what came of them. Whoever uses it runs
//! the commands, opens the terminals and relays their output, and reports
//! back in plain values.
//!
//! - [`pty::session`] is the session manager and its table.
//! - [`pty::steps`] is the exchange by which a session enters the table.
//! - [`pty::table`] says what finding, inserting, removing and sweeping mean.
//! - [`pty::tmux`] builds and reads the multiplexer's commands.
//! - [`pty::locate`] is the search for the multiplexer's binary.
//! - [`pty::relay`] says what becomes of each read from a terminal.
//! - [`pty::commands`] and [`storage::database`] hold what the command layer
//!   and the store need of plain records.
//! - [`process`] and [`text`] are the values and the text operations that
//!   the rest is written in.

pub mod process;
pub mod pty;
pub mod storage;
pub mod text;
