//! Incremental reconstruction of game play sessions from an append-only
//! event log: a line classifier, an entity resolver, a log parser, a session
//! state machine with per-player combat statistics, and the decision core of
//! the background log reader.

pub mod aspects;
pub mod classify;
pub mod events;
pub mod parser;
pub mod reader;
pub mod session;
pub mod stats;
pub mod text;
