//! The library's error type.
//!
//! Lock contention is deliberately its own variant: it is an expected,
//! non-fatal condition ("another instance won the race"), distinguishable
//! from a broken environment, and callers treat it as a quiet no-op.

use vstd::prelude::*;

verus! {

/// Everything that can go wrong in the rendezvous core.
#[derive(Debug)]
pub enum BbError {
    /// An operating-system I/O failure; the payload names the failed
    /// operation and the offending path.
    Io(String),
    /// A serialization failure, already rendered.
    Serde(String),
    /// The system reached a state the protocol does not allow.
    InvalidState(String),
    /// Another process already holds the exclusive daemon lock at this path.
    /// Non-fatal: the other instance is authoritative.
    AlreadyLocked(String),
}

impl BbError {
    /// The rendered message of each variant.
    pub open spec fn spec_message(self) -> Seq<char> {
        match self {
            BbError::Io(m) => "io error: "@ + m@,
            BbError::Serde(m) => "serialization error: "@ + m@,
            BbError::InvalidState(m) => "invalid state: "@ + m@,
            BbError::AlreadyLocked(p) => "daemon lock is already held: "@ + p@,
        }
    }

    /// Renders the error for the user: a fixed prefix naming the kind,
    /// then the detail.
    pub fn message(&self) -> (r: String)
        ensures
            r@ == self.spec_message(),
    {
        match self {
            BbError::Io(m) => {
                let mut s = String::from_str("io error: ");
                s.append(m.as_str());
                s
            }
            BbError::Serde(m) => {
                let mut s = String::from_str("serialization error: ");
                s.append(m.as_str());
                s
            }
            BbError::InvalidState(m) => {
                let mut s = String::from_str("invalid state: ");
                s.append(m.as_str());
                s
            }
            BbError::AlreadyLocked(p) => {
                let mut s = String::from_str("daemon lock is already held: ");
                s.append(p.as_str());
                s
            }
        }
    }
}

} // verus!
