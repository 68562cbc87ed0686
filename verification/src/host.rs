//! A model of the coordination state the file system holds between processes.
//!
//! The lock file's lock state, the socket path and the pid file are the only
//! shared state of the whole system; every cross-process guarantee of the
//! rendezvous protocol is a statement about how the state machines in
//! [`crate::server`] and [`crate::client`] move this state.  The model is
//! executable so that scenarios can be run as ordinary tests.

use vstd::prelude::*;

verus! {

/// What stands at the socket path.
#[derive(Clone, Copy, Debug, PartialEq, Eq, Structural)]
pub enum SocketFile {
    /// No file at the socket path.
    Absent,
    /// A leftover file from a daemon that exited without cleanup; nobody is
    /// listening behind it.
    Stale,
    /// A live listening endpoint bound by the daemon with this pid.
    Bound(u64),
}

/// The shared coordination state: who holds the advisory exclusive lock,
/// what stands at the socket path, and what the pid file records.
#[derive(Clone, Copy, Debug, PartialEq, Eq, Structural)]
pub struct HostState {
    /// The pid of the process holding the exclusive lock, if any.  Lock
    /// state lives in the kernel's lock table and dies with its holder;
    /// the lock file itself persists and is never read for content.
    pub lock_holder: Option<u64>,
    /// The socket path's entry.
    pub socket: SocketFile,
    /// The pid recorded in the pid file, if that file exists.
    pub pid_file: Option<u64>,
}

impl HostState {
    /// A runtime directory nobody has touched yet.
    pub fn empty() -> (r: HostState)
        ensures
            r == (HostState { lock_holder: None, socket: SocketFile::Absent, pid_file: None }),
    {
        HostState { lock_holder: None, socket: SocketFile::Absent, pid_file: None }
    }
}

/// One lock probe, as the client performs it on the real lock file: try the
/// non-blocking exclusive lock; if it was granted, release it at once and
/// report "not held"; if it was refused by contention, report "held".
///
/// The probe is side-effect-free: the state after the probe is the state
/// before it, whether or not the lock was transiently taken.
pub fn probe_lock(h: &HostState, prober: u64) -> (r: (HostState, bool))
    ensures
        r.0 == *h,
        r.1 == (h.lock_holder is Some),
{
    if h.lock_holder.is_some() {
        (*h, true)
    } else {
        let transient = HostState { lock_holder: Some(prober), socket: h.socket, pid_file: h.pid_file };
        let released = HostState { lock_holder: None, socket: transient.socket, pid_file: transient.pid_file };
        (released, false)
    }
}

/// Probing any number of times leaves the state exactly as it was: in
/// particular, probing while no one holds the lock never leaves it held.
pub fn probe_lock_repeatedly(h: &HostState, prober: u64, times: usize) -> (r: HostState)
    ensures
        r == *h,
{
    let mut cur: HostState = *h;
    let mut i: usize = 0;
    while i < times
        invariant
            cur == *h,
            i <= times,
        decreases times - i,
    {
        let (next, _held) = probe_lock(&cur, prober);
        cur = next;
        i = i + 1;
    }
    cur
}

} // verus!
