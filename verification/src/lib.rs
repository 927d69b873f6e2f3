//! Verified core of a shell session pool: the rules by which a daemon keeps
//! named shells alive and decides who may attach to them.

pub mod attach;
pub mod config;
pub mod daemon;
pub mod protocol;
pub mod seqs;
pub mod ssh;
