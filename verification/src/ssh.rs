//! The commands that bridge a session over a remote login.

pub mod remote_cmd;
