//! Session management for a remotely debuggable browser.
//!
//! The crate decides; it performs no input or output of its own. Every
//! operation that has to touch the network, the file system or a process is a
//! small state machine: it names the next [`effects::Effect`] to perform and is
//! advanced with the [`effects::Outcome`] that the caller observed.

pub mod apps;
pub mod catalog;
pub mod commands;
pub mod diagnosis;
pub mod discovery;
pub mod effects;
pub mod errors;
pub mod json;
pub mod launcher;
pub mod manager;
pub mod ports;
pub mod probe;
pub mod session;
pub mod skills;
pub mod text;
