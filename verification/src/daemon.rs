//! The daemon's side: the table of sessions, the engine that serves one
//! attached client, and the timers that end sessions.

pub mod exit_notify;
pub mod lifecycle;
pub mod server;
pub mod shell;
pub mod spawn;
pub mod ttl_reaper;
