//! A status line for a terminal multiplexer pane that shows the state of a
//! version-control workspace: its client, whether a session is open, and the
//! files with pending changes.
//!
//! The library decides what the line says. Reading files and running the
//! version-control tool is left to the caller, who hands over what was read.

pub mod text;
pub mod config;
pub mod p4;
pub mod format;
