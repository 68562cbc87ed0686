//! The daemon serve loop as a state machine, and the protocol's guarantees.
//!
//! A starting daemon acquires the exclusive lock or exits quietly, writes its
//! pid file, removes any stale socket and binds a fresh one, then accepts
//! connections until a termination signal or an accept-layer error, and
//! cleans up on every exit path.  The surrounding binary performs each
//! action; [`spec_daemon_step`] is the single definition of what one step
//! does to the shared state, and the lemmas below prove the cross-process
//! guarantees: at most one active daemon, losers leave the state untouched,
//! stale sockets are rebound, cleanup always runs.

use vstd::prelude::*;

use crate::host::{HostState, SocketFile};

verus! {

/// Where one daemon process stands in its life.
#[derive(Clone, Copy, Debug, PartialEq, Eq, Structural)]
pub enum DaemonPhase {
    /// Ensuring the runtime directory and attempting the lock.
    Starting,
    /// Terminal: another instance holds the lock and is authoritative.
    ExitQuiet,
    /// Holds the lock; about to record its pid.
    WritePid,
    /// About to remove a stale socket file and bind a fresh endpoint.
    BindSocket,
    /// Blocked on the termination signal or an inbound connection.
    Accepting,
    /// No longer accepting; cleanup runs next, however accepting ended.
    ShuttingDown,
    /// Terminal: socket and pid file removed, lock released.
    Stopped,
}

/// What wakes a daemon blocked in the accept state.
#[derive(Clone, Copy, Debug, PartialEq, Eq, Structural)]
pub enum DaemonEvent {
    /// The external termination signal.
    Signal,
    /// An inbound connection: acknowledge, close, keep accepting.
    Connection,
    /// The accept operation itself failed.
    AcceptError,
}

/// One daemon process: its pid and its phase.
#[derive(Clone, Copy, Debug, PartialEq, Eq, Structural)]
pub struct DaemonProc {
    pub pid: u64,
    pub phase: DaemonPhase,
}

/// The phases in which a daemon's run has ended: no further step to take.
pub open spec fn phase_terminal(p: DaemonPhase) -> bool {
    p is ExitQuiet || p is Stopped
}

/// The phases in which a daemon holds (must hold) the exclusive lock: from
/// winning it in `Starting` until releasing it in the cleanup step.
pub open spec fn phase_active(p: DaemonPhase) -> bool {
    p is WritePid || p is BindSocket || p is Accepting || p is ShuttingDown
}

/// What one step of the serve loop does to the shared state.  `ev` matters
/// only in the accept state; every other phase has exactly one outcome.
pub open spec fn spec_daemon_step(h: HostState, d: DaemonProc, ev: DaemonEvent) -> (HostState, DaemonProc) {
    match d.phase {
        DaemonPhase::Starting => {
            if h.lock_holder is Some {
                // Another instance won: exit quietly, touching nothing.
                (h, DaemonProc { pid: d.pid, phase: DaemonPhase::ExitQuiet })
            } else {
                (
                    HostState { lock_holder: Some(d.pid), socket: h.socket, pid_file: h.pid_file },
                    DaemonProc { pid: d.pid, phase: DaemonPhase::WritePid },
                )
            }
        }
        DaemonPhase::WritePid => (
            HostState { lock_holder: h.lock_holder, socket: h.socket, pid_file: Some(d.pid) },
            DaemonProc { pid: d.pid, phase: DaemonPhase::BindSocket },
        ),
        DaemonPhase::BindSocket => (
            // A stale socket file is removed before the fresh endpoint is
            // bound; either way the path now carries this daemon's socket.
            HostState { lock_holder: h.lock_holder, socket: SocketFile::Bound(d.pid), pid_file: h.pid_file },
            DaemonProc { pid: d.pid, phase: DaemonPhase::Accepting },
        ),
        DaemonPhase::Accepting => match ev {
            DaemonEvent::Connection => (h, d),
            DaemonEvent::Signal | DaemonEvent::AcceptError => (
                h,
                DaemonProc { pid: d.pid, phase: DaemonPhase::ShuttingDown },
            ),
        },
        DaemonPhase::ShuttingDown => (
            HostState { lock_holder: None, socket: SocketFile::Absent, pid_file: None },
            DaemonProc { pid: d.pid, phase: DaemonPhase::Stopped },
        ),
        DaemonPhase::ExitQuiet | DaemonPhase::Stopped => (h, d),
    }
}

/// One step of the serve loop, executable so scenarios can run it.
pub fn daemon_step(h: &HostState, d: &DaemonProc, ev: &DaemonEvent) -> (r: (HostState, DaemonProc))
    requires
        !phase_terminal(d.phase),
    ensures
        r == spec_daemon_step(*h, *d, *ev),
{
    match d.phase {
        DaemonPhase::Starting => {
            if h.lock_holder.is_some() {
                (*h, DaemonProc { pid: d.pid, phase: DaemonPhase::ExitQuiet })
            } else {
                (
                    HostState { lock_holder: Some(d.pid), socket: h.socket, pid_file: h.pid_file },
                    DaemonProc { pid: d.pid, phase: DaemonPhase::WritePid },
                )
            }
        }
        DaemonPhase::WritePid => (
            HostState { lock_holder: h.lock_holder, socket: h.socket, pid_file: Some(d.pid) },
            DaemonProc { pid: d.pid, phase: DaemonPhase::BindSocket },
        ),
        DaemonPhase::BindSocket => (
            HostState { lock_holder: h.lock_holder, socket: SocketFile::Bound(d.pid), pid_file: h.pid_file },
            DaemonProc { pid: d.pid, phase: DaemonPhase::Accepting },
        ),
        DaemonPhase::Accepting => match ev {
            DaemonEvent::Connection => (*h, *d),
            DaemonEvent::Signal | DaemonEvent::AcceptError => (
                *h,
                DaemonProc { pid: d.pid, phase: DaemonPhase::ShuttingDown },
            ),
        },
        DaemonPhase::ShuttingDown => (
            HostState { lock_holder: None, socket: SocketFile::Absent, pid_file: None },
            DaemonProc { pid: d.pid, phase: DaemonPhase::Stopped },
        ),
        DaemonPhase::ExitQuiet | DaemonPhase::Stopped => (*h, *d),
    }
}

/// The tie between a daemon's phase and the lock: an active daemon is the
/// current lock holder.
pub open spec fn daemon_lock_inv(h: HostState, d: DaemonProc) -> bool {
    phase_active(d.phase) ==> h.lock_holder == Some(d.pid)
}

/// The invariant over a whole family of independently launched daemons.
pub open spec fn family_inv(h: HostState, ds: Seq<DaemonProc>) -> bool {
    forall|i: int| 0 <= i < ds.len() ==> #[trigger] daemon_lock_inv(h, ds[i])
}

/// Distinct processes have distinct pids.
pub open spec fn distinct_pids(ds: Seq<DaemonProc>) -> bool {
    forall|i: int, j: int|
        0 <= i < ds.len() && 0 <= j < ds.len() && i != j ==> ds[i].pid != ds[j].pid
}

/// Mutual exclusion: of any family of daemons with distinct pids satisfying
/// the lock invariant, at most one is active — whatever order the launches
/// and steps interleaved in, at most one daemon serves.
pub proof fn lemma_at_most_one_active(h: HostState, ds: Seq<DaemonProc>)
    requires
        family_inv(h, ds),
        distinct_pids(ds),
    ensures
        forall|i: int, j: int|
            0 <= i < ds.len() && 0 <= j < ds.len()
                && phase_active(ds[i].phase) && phase_active(ds[j].phase) ==> i == j,
{
    assert forall|i: int, j: int|
        0 <= i < ds.len() && 0 <= j < ds.len()
            && phase_active(ds[i].phase) && phase_active(ds[j].phase) implies i == j by {
        assert(daemon_lock_inv(h, ds[i]));
        assert(daemon_lock_inv(h, ds[j]));
        if i != j {
            assert(ds[i].pid != ds[j].pid);
        }
    }
}

/// A step of any one daemon of the family preserves the lock invariant (and
/// the pids): the invariant holds of every reachable interleaving, so
/// `lemma_at_most_one_active` applies throughout every execution.
pub proof fn lemma_step_preserves_family_inv(h: HostState, ds: Seq<DaemonProc>, k: int, ev: DaemonEvent)
    requires
        family_inv(h, ds),
        distinct_pids(ds),
        0 <= k < ds.len(),
    ensures
        ({
            let (h2, d2) = spec_daemon_step(h, ds[k], ev);
            family_inv(h2, ds.update(k, d2)) && distinct_pids(ds.update(k, d2))
        }),
{
    let (h2, d2) = spec_daemon_step(h, ds[k], ev);
    let ds2 = ds.update(k, d2);
    assert(daemon_lock_inv(h, ds[k]));
    assert(d2.pid == ds[k].pid);
    assert forall|j: int| 0 <= j < ds2.len() implies #[trigger] daemon_lock_inv(h2, ds2[j]) by {
        assert(daemon_lock_inv(h, ds[j]));
        if j != k {
            assert(ds2[j] == ds[j]);
            if phase_active(ds[j].phase) {
                // Another daemon is active, so it holds the lock; daemon k
                // therefore neither acquires it (it would have seen it held)
                // nor releases it (it would have to be the holder itself,
                // impossible with distinct pids).
                assert(h.lock_holder == Some(ds[j].pid));
                assert(ds[j].pid != ds[k].pid);
                if ds[k].phase is ShuttingDown {
                    assert(h.lock_holder == Some(ds[k].pid));
                    assert(false);
                }
                assert(h2.lock_holder == Some(ds[j].pid));
            }
        }
    }
    assert forall|i: int, j: int|
        0 <= i < ds2.len() && 0 <= j < ds2.len() && i != j implies ds2[i].pid != ds2[j].pid by {
        assert(ds2[i].pid == ds[i].pid);
        assert(ds2[j].pid == ds[j].pid);
    }
}

/// An interleaving of a family of daemons: at each point, which daemon steps
/// next and what its accept state would see.  An index out of range or a
/// daemon already in a terminal phase takes no step.
pub open spec fn apply_schedule(
    h: HostState,
    ds: Seq<DaemonProc>,
    sched: Seq<(int, DaemonEvent)>,
) -> (HostState, Seq<DaemonProc>)
    decreases sched.len(),
{
    if sched.len() == 0 {
        (h, ds)
    } else {
        let (k, ev) = sched[0];
        let rest = sched.subrange(1, sched.len() as int);
        if 0 <= k < ds.len() && !phase_terminal(ds[k].phase) {
            let (h2, d2) = spec_daemon_step(h, ds[k], ev);
            apply_schedule(h2, ds.update(k, d2), rest)
        } else {
            apply_schedule(h, ds, rest)
        }
    }
}

/// The lock invariant is preserved under every interleaving: whatever order
/// the daemons' steps are scheduled in, every reachable state still ties
/// each active daemon to the lock, and the pids stay distinct.
pub proof fn lemma_schedule_preserves_family_inv(
    h: HostState,
    ds: Seq<DaemonProc>,
    sched: Seq<(int, DaemonEvent)>,
)
    requires
        family_inv(h, ds),
        distinct_pids(ds),
    ensures
        ({
            let (h2, ds2) = apply_schedule(h, ds, sched);
            family_inv(h2, ds2) && distinct_pids(ds2) && ds2.len() == ds.len()
        }),
    decreases sched.len(),
{
    if sched.len() > 0 {
        let (k, ev) = sched[0];
        let rest = sched.subrange(1, sched.len() as int);
        if 0 <= k < ds.len() && !phase_terminal(ds[k].phase) {
            lemma_step_preserves_family_inv(h, ds, k, ev);
            let (h2, d2) = spec_daemon_step(h, ds[k], ev);
            lemma_schedule_preserves_family_inv(h2, ds.update(k, d2), rest);
        } else {
            lemma_schedule_preserves_family_inv(h, ds, rest);
        }
    }
}

/// Concurrent launches elect at most one server: start any number of daemons
/// with distinct pids against an initially daemonless runtime, interleave
/// their steps in any order, and at every reachable point at most one of
/// them is active — the lock, not the clients' probes, is the arbiter.
pub proof fn lemma_concurrent_launches_one_winner(
    h: HostState,
    ds: Seq<DaemonProc>,
    sched: Seq<(int, DaemonEvent)>,
)
    requires
        h.lock_holder is None,
        forall|i: int| 0 <= i < ds.len() ==> (#[trigger] ds[i].phase) is Starting,
        distinct_pids(ds),
    ensures
        ({
            let (h2, ds2) = apply_schedule(h, ds, sched);
            forall|i: int, j: int|
                0 <= i < ds2.len() && 0 <= j < ds2.len()
                    && phase_active(ds2[i].phase) && phase_active(ds2[j].phase) ==> i == j
        }),
{
    assert forall|i: int| 0 <= i < ds.len() implies #[trigger] daemon_lock_inv(h, ds[i]) by {
        assert(ds[i].phase is Starting);
    }
    lemma_schedule_preserves_family_inv(h, ds, sched);
    let (h2, ds2) = apply_schedule(h, ds, sched);
    lemma_at_most_one_active(h2, ds2);
}

/// Cleanup runs on every exit from the accept state: whatever non-connection
/// event ends accepting (the termination signal or an accept-layer error),
/// the next step is the cleanup step, after which neither the socket path
/// nor the pid file exists and the lock is released.
pub proof fn lemma_cleanup_after_accepting(h: HostState, d: DaemonProc, ev: DaemonEvent, ev2: DaemonEvent)
    requires
        d.phase is Accepting,
        !(ev is Connection),
    ensures
        ({
            let (h1, d1) = spec_daemon_step(h, d, ev);
            let (h2, d2) = spec_daemon_step(h1, d1, ev2);
            d1.phase is ShuttingDown && d2.phase is Stopped && h2.socket is Absent
                && h2.pid_file is None && h2.lock_holder is None
        }),
{
}

/// Startup is idempotent with respect to a stale socket: a daemon starting
/// while a stale socket file exists and nobody holds the lock reaches the
/// accept state in three steps, with the stale file replaced by its own
/// bound endpoint and the lock its own.
pub proof fn lemma_stale_socket_rebind(h: HostState, d: DaemonProc, ev: DaemonEvent)
    requires
        d.phase is Starting,
        h.socket is Stale,
        h.lock_holder is None,
    ensures
        ({
            let (h1, d1) = spec_daemon_step(h, d, ev);
            let (h2, d2) = spec_daemon_step(h1, d1, ev);
            let (h3, d3) = spec_daemon_step(h2, d2, ev);
            d3.phase is Accepting && h3.socket == SocketFile::Bound(d.pid)
                && h3.lock_holder == Some(d.pid) && h3.pid_file == Some(d.pid)
        }),
{
}

/// How one daemon's whole run ends.
#[derive(Clone, Copy, Debug, PartialEq, Eq, Structural)]
pub enum DaemonOutcome {
    /// Another instance held the lock; this one exited quietly, a success.
    ExitedQuietly,
    /// This daemon served and has cleaned up.
    Served,
}

/// One daemon's whole life on the model: lock acquisition or quiet exit,
/// pid write, stale-socket removal and bind, the accept loop driven by
/// `events` (running out of events stands for the termination signal), and
/// the unconditional cleanup step.
///
/// A loser leaves the shared state exactly as it found it; a winner serves
/// and ends with socket and pid file removed and the lock released.
pub fn run_daemon(h0: &HostState, pid: u64, events: &Vec<DaemonEvent>) -> (r: (HostState, DaemonOutcome))
    ensures
        h0.lock_holder is Some ==> r == (*h0, DaemonOutcome::ExitedQuietly),
        h0.lock_holder is None ==> r.1 == DaemonOutcome::Served && r.0 == (HostState {
            lock_holder: None,
            socket: SocketFile::Absent,
            pid_file: None,
        }),
{
    let start = DaemonProc { pid, phase: DaemonPhase::Starting };
    let (h1, d1) = daemon_step(h0, &start, &DaemonEvent::Signal);
    let mut h: HostState = h1;
    let mut d: DaemonProc = d1;
    match d.phase {
        DaemonPhase::ExitQuiet => {
            return (h, DaemonOutcome::ExitedQuietly);
        }
        _ => {}
    }
    let (h2, d2) = daemon_step(&h, &d, &DaemonEvent::Signal);
    h = h2;
    d = d2;
    let (h3, d3) = daemon_step(&h, &d, &DaemonEvent::Signal);
    h = h3;
    d = d3;
    let ghost serving = HostState {
        lock_holder: Some(pid),
        socket: SocketFile::Bound(pid),
        pid_file: Some(pid),
    };
    let mut i: usize = 0;
    let mut stopping = false;
    while !stopping && i < events.len()
        invariant
            d.pid == pid,
            !stopping ==> d.phase is Accepting,
            stopping ==> d.phase is ShuttingDown,
            h == serving,
            serving == (HostState {
                lock_holder: Some(pid),
                socket: SocketFile::Bound(pid),
                pid_file: Some(pid),
            }),
            i <= events.len(),
        decreases events.len() - i,
    {
        let ev = events[i];
        let (hn, dn) = daemon_step(&h, &d, &ev);
        h = hn;
        d = dn;
        match d.phase {
            DaemonPhase::ShuttingDown => {
                stopping = true;
            }
            _ => {}
        }
        i = i + 1;
    }
    if !stopping {
        // Out of events: the termination signal arrives.
        let (hn, dn) = daemon_step(&h, &d, &DaemonEvent::Signal);
        h = hn;
        d = dn;
    }
    let (hf, _df) = daemon_step(&h, &d, &DaemonEvent::Signal);
    (hf, DaemonOutcome::Served)
}

} // verus!
