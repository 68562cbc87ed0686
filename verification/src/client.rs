//! The rendezvous client loop: probe the lock, spawn a daemon if nobody
//! holds it, then poll-connect with a bounded budget.
//!
//! The probe is an optimization, not the correctness mechanism: two clients
//! may both see the lock free and both spawn, and that is safe because the
//! lock acquisition inside each spawned daemon (see [`crate::server`]) is
//! the actual arbiter.  The poll loop is the only automatic retry in the
//! core, and it is bounded: a fixed attempt count, a fixed inter-attempt
//! delay, and a per-attempt timeout, so a hung socket cannot stall a client
//! forever.

use vstd::prelude::*;

use crate::error::BbError;
use crate::host::HostState;

verus! {

/// How many connect attempts a client makes before giving up.
pub const POLL_ATTEMPTS: usize = 30;

/// The fixed delay between two attempts, in milliseconds.
pub const POLL_DELAY_MS: u64 = 100;

/// The timeout on each single connect attempt, in milliseconds.
pub const POLL_ATTEMPT_TIMEOUT_MS: u64 = 100;

/// Whether one of the first `n` connect attempts succeeds.  `outcomes[i]`
/// says whether the daemon would answer attempt `i`; an attempt past the end
/// of `outcomes` finds nobody listening.
pub open spec fn reachable_within(outcomes: Seq<bool>, n: int) -> bool {
    exists|i: int| 0 <= i < n && i < outcomes.len() && outcomes[i]
}

/// The failure a client reports when every attempt is exhausted.  It names
/// both configured paths, because from the outside it is ambiguous whether
/// the daemon failed to start or is merely slow.
pub open spec fn poll_failure_message(lock_path: Seq<char>, socket_path: Seq<char>) -> Seq<char> {
    "daemon lock/socket check failed: lock_path="@ + lock_path + ", socket_path="@ + socket_path
}

/// What one whole poll run reports.
#[derive(Debug)]
pub struct PollReport {
    /// Whether a connect attempt succeeded within the budget.
    pub connected: bool,
    /// How many attempts were made, the successful one included.
    pub attempts_used: usize,
    /// Worst-case wall-clock spent, in milliseconds: every attempt is
    /// charged its full per-attempt timeout, every failed one also the
    /// inter-attempt delay.
    pub elapsed_ms: u64,
    /// The failure message, present exactly when the budget ran out.
    pub error: Option<String>,
}

/// The contract of a poll run over `outcomes`: connection is reported if and
/// only if an attempt within the budget succeeds, the first success stops
/// the loop, the budget is never exceeded, and the total wall-clock is
/// bounded by `attempts x (delay + per-attempt timeout)`.
pub open spec fn poll_report_valid(
    r: PollReport,
    outcomes: Seq<bool>,
    lock_path: Seq<char>,
    socket_path: Seq<char>,
) -> bool {
    &&& r.connected == reachable_within(outcomes, POLL_ATTEMPTS as int)
    &&& r.attempts_used <= POLL_ATTEMPTS
    &&& r.elapsed_ms <= POLL_ATTEMPTS * (POLL_ATTEMPT_TIMEOUT_MS + POLL_DELAY_MS)
    &&& r.connected ==> {
        &&& 1 <= r.attempts_used
        &&& r.attempts_used - 1 < outcomes.len() && outcomes[r.attempts_used - 1]
        &&& forall|i: int| 0 <= i < r.attempts_used - 1 && i < outcomes.len() ==> !outcomes[i]
        &&& r.elapsed_ms == (r.attempts_used - 1) * (POLL_ATTEMPT_TIMEOUT_MS + POLL_DELAY_MS)
            + POLL_ATTEMPT_TIMEOUT_MS
        &&& r.error is None
    }
    &&& !r.connected ==> {
        &&& r.attempts_used == POLL_ATTEMPTS
        &&& r.elapsed_ms == POLL_ATTEMPTS * (POLL_ATTEMPT_TIMEOUT_MS + POLL_DELAY_MS)
        &&& r.error matches Some(m) && m@ == poll_failure_message(lock_path, socket_path)
    }
}

/// The bounded poll-connect loop.  `outcomes[i]` reports what attempt `i`
/// against the real socket would find; the loop stops at the first success
/// or when the attempt budget is exhausted, never later.
pub fn wait_for_daemon_socket(outcomes: &Vec<bool>, lock_path: &str, socket_path: &str) -> (r: PollReport)
    ensures
        poll_report_valid(r, outcomes@, lock_path@, socket_path@),
{
    let mut i: usize = 0;
    let mut elapsed: u64 = 0;
    while i < POLL_ATTEMPTS
        invariant
            i <= POLL_ATTEMPTS,
            elapsed == 200 * i,
            elapsed == i * (POLL_ATTEMPT_TIMEOUT_MS + POLL_DELAY_MS),
            forall|j: int| 0 <= j < i && j < outcomes@.len() ==> !outcomes@[j],
        decreases POLL_ATTEMPTS - i,
    {
        let success = i < outcomes.len() && outcomes[i];
        if success {
            return PollReport {
                connected: true,
                attempts_used: i + 1,
                elapsed_ms: elapsed + POLL_ATTEMPT_TIMEOUT_MS,
                error: None,
            };
        }
        elapsed = elapsed + POLL_ATTEMPT_TIMEOUT_MS + POLL_DELAY_MS;
        i = i + 1;
    }
    let mut msg = String::from_str("daemon lock/socket check failed: lock_path=");
    msg.append(lock_path);
    msg.append(", socket_path=");
    msg.append(socket_path);
    assert(msg@ =~= poll_failure_message(lock_path@, socket_path@));
    PollReport { connected: false, attempts_used: POLL_ATTEMPTS, elapsed_ms: elapsed, error: Some(msg) }
}

/// The client's states, as in the rendezvous table: check the lock, maybe
/// spawn, poll, and end connected or failed.
#[derive(Clone, Copy, Debug, PartialEq, Eq, Structural)]
pub enum ClientPhase {
    CheckLock,
    SpawnDaemon,
    PollConnect,
    Connected,
    Failed,
}

/// What the surrounding binary reports back to the client loop.
#[derive(Clone, Copy, Debug, PartialEq, Eq, Structural)]
pub enum ClientEvent {
    /// The probe found the lock held: a daemon is (presumably) running.
    LockHeld,
    /// The probe found the lock free: no daemon; one must be spawned.
    LockFree,
    /// The operating system confirmed the daemon process was created.
    SpawnOk,
    /// The operating system could not create the process.
    SpawnFailed,
    /// A connect attempt succeeded and the liveness read came back.
    ConnectOk,
    /// Every attempt of the poll budget failed.
    AttemptsExhausted,
}

/// Whether `ev` is an event the phase `p` can consume.
pub open spec fn client_event_fits(p: ClientPhase, ev: ClientEvent) -> bool {
    match p {
        ClientPhase::CheckLock => ev is LockHeld || ev is LockFree,
        ClientPhase::SpawnDaemon => ev is SpawnOk || ev is SpawnFailed,
        ClientPhase::PollConnect => ev is ConnectOk || ev is AttemptsExhausted,
        ClientPhase::Connected | ClientPhase::Failed => false,
    }
}

/// The client loop's transition table: a held lock skips the spawn, a free
/// one requires it; spawn failure is fatal with no retry; polling ends
/// connected or failed.
pub open spec fn spec_client_step(p: ClientPhase, ev: ClientEvent) -> ClientPhase {
    match p {
        ClientPhase::CheckLock => {
            if ev is LockHeld {
                ClientPhase::PollConnect
            } else {
                ClientPhase::SpawnDaemon
            }
        }
        ClientPhase::SpawnDaemon => {
            if ev is SpawnOk {
                ClientPhase::PollConnect
            } else {
                ClientPhase::Failed
            }
        }
        ClientPhase::PollConnect => {
            if ev is ConnectOk {
                ClientPhase::Connected
            } else {
                ClientPhase::Failed
            }
        }
        ClientPhase::Connected | ClientPhase::Failed => p,
    }
}

/// One decision of the client loop, executable so the surrounding binary
/// can drive it event by event.
pub fn client_step(p: ClientPhase, ev: ClientEvent) -> (r: ClientPhase)
    requires
        client_event_fits(p, ev),
    ensures
        r == spec_client_step(p, ev),
{
    match p {
        ClientPhase::CheckLock => match ev {
            ClientEvent::LockHeld => ClientPhase::PollConnect,
            _ => ClientPhase::SpawnDaemon,
        },
        ClientPhase::SpawnDaemon => match ev {
            ClientEvent::SpawnOk => ClientPhase::PollConnect,
            _ => ClientPhase::Failed,
        },
        ClientPhase::PollConnect => match ev {
            ClientEvent::ConnectOk => ClientPhase::Connected,
            _ => ClientPhase::Failed,
        },
        ClientPhase::Connected | ClientPhase::Failed => p,
    }
}

/// What one whole client run did and reported.
#[derive(Debug)]
pub struct ClientRun {
    /// The shared state after the run: the client never changes it.
    pub end: HostState,
    /// Whether the client invoked the daemon spawner.
    pub spawned: bool,
    /// The poll report, or the error that stopped the run before polling.
    pub outcome: Result<PollReport, BbError>,
    /// The success indicator, emitted exactly on a connected ping run.
    pub output: Option<String>,
}

/// One whole client run on the model: probe the lock (side-effect-free),
/// spawn exactly when nobody holds it, give up at once if the spawn fails,
/// else poll within the budget.  `spawn_result` is what the operating
/// system answers if and when the spawner is invoked; `outcomes` is what the
/// connect attempts would find.
pub fn run_client(
    h: &HostState,
    prober: u64,
    ping: bool,
    spawn_result: Result<(), String>,
    outcomes: &Vec<bool>,
    lock_path: &str,
    socket_path: &str,
) -> (r: ClientRun)
    ensures
        r.end == *h,
        r.spawned == (h.lock_holder is None),
        h.lock_holder is None ==> (spawn_result matches Err(m) ==> (r.outcome matches Err(
            BbError::Io(m2),
        ) && m2@ == m@ && r.output is None)),
        (h.lock_holder is Some || spawn_result is Ok) ==> (r.outcome matches Ok(rep)
            && poll_report_valid(rep, outcomes@, lock_path@, socket_path@)),
        r.output matches Some(s) ==> s@ == "ok"@,
        r.output is Some <==> ((h.lock_holder is Some || spawn_result is Ok) && ping
            && reachable_within(outcomes@, POLL_ATTEMPTS as int)),
{
    let (end, held) = crate::host::probe_lock(h, prober);
    let spawned = !held;
    if spawned {
        match spawn_result {
            Err(m) => {
                return ClientRun { end, spawned, outcome: Err(BbError::Io(m)), output: None };
            }
            Ok(()) => {}
        }
    }
    let report = wait_for_daemon_socket(outcomes, lock_path, socket_path);
    let output = if ping && report.connected {
        Some(String::from_str("ok"))
    } else {
        None
    };
    ClientRun { end, spawned, outcome: Ok(report), output }
}

} // verus!
