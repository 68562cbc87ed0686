//! The lock manager's decisions.
//!
//! The advisory exclusive lock on the lock file is the sole arbiter of which
//! process is the daemon.  The operating-system call itself — open the lock
//! file (creating it if absent) and try a non-blocking exclusive lock — is
//! performed by the surrounding binary, which reports its outcome as a
//! [`LockAttempt`]; the functions here turn that outcome into the answers
//! the protocol is built on.

use vstd::prelude::*;

use crate::error::BbError;

verus! {

/// The outcome of one non-blocking exclusive try-lock on the lock file, as
/// the surrounding binary reports it.
#[derive(Debug)]
pub enum LockAttempt {
    /// The lock was taken: nobody else held it.  A probe must release it
    /// again at once; a starting daemon keeps it for its whole life.
    Acquired,
    /// The attempt was refused because another process holds the lock.
    AlreadyLocked,
    /// The attempt failed for any other reason (permissions, I/O); the
    /// payload is the rendered failure.
    Failed(String),
}

/// The lock probe: whether some other process currently holds the
/// exclusive lock.  A probe that managed to take the lock releases it at
/// once (the release is the reporting binary's duty), so the probe leaves
/// the lock exactly as free as it found it; refusal by contention means a
/// holder exists; anything else is a hard error.
pub fn is_lock_held_exclusively(attempt: LockAttempt) -> (r: Result<bool, BbError>)
    ensures
        attempt is Acquired ==> r == Ok::<bool, BbError>(false),
        attempt is AlreadyLocked ==> r == Ok::<bool, BbError>(true),
        attempt matches LockAttempt::Failed(m) ==> (r matches Err(BbError::Io(m2)) && m2@ == m@),
{
    match attempt {
        LockAttempt::Acquired => Ok(false),
        LockAttempt::AlreadyLocked => Ok(true),
        LockAttempt::Failed(m) => Err(BbError::Io(m)),
    }
}

/// A starting daemon's reading of its one lock-acquisition attempt.
/// Success means this process now holds the lock for its lifetime.
/// Contention is the distinct, non-fatal "another instance is authoritative"
/// condition, reported under the lock path so the caller can exit quietly;
/// any other failure is a hard error.
pub fn acquire_daemon_lock(lock_path: &str, attempt: LockAttempt) -> (r: Result<(), BbError>)
    ensures
        attempt is Acquired ==> r == Ok::<(), BbError>(()),
        attempt is AlreadyLocked ==> (r matches Err(BbError::AlreadyLocked(p)) && p@ == lock_path@),
        attempt matches LockAttempt::Failed(m) ==> (r matches Err(BbError::Io(m2)) && m2@ == m@),
{
    match attempt {
        LockAttempt::Acquired => Ok(()),
        LockAttempt::AlreadyLocked => Err(BbError::AlreadyLocked(lock_path.to_owned())),
        LockAttempt::Failed(m) => Err(BbError::Io(m)),
    }
}

} // verus!
