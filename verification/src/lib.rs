//! Verified core of a local client/daemon rendezvous layer.
//!
//! A short-lived client must ensure that exactly one long-lived daemon is
//! running on the host, reach it over a local socket, and hand work to it.
//! The file system (an advisory lock file, a pid file, a socket path) is the
//! sole coordination medium between processes.  This crate holds the logic of
//! that protocol — path resolution, lock arbitration, the client rendezvous
//! loop and the daemon serve loop as state machines — with contracts proved
//! by Verus.  The operating-system calls themselves (file locks, sockets,
//! process spawning) live in the unverified binary around this crate, which
//! drives these state machines and performs the actions they decide on.

pub mod client;
pub mod config;
pub mod error;
pub mod host;
pub mod llm;
pub mod lock;
pub mod protocol;
pub mod server;
pub mod shell;
pub mod spawn;
