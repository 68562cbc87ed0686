use bb::client::{run_client, wait_for_daemon_socket, client_step, ClientEvent, ClientPhase, POLL_ATTEMPTS};
use bb::error::BbError;
use bb::host::{probe_lock, probe_lock_repeatedly, HostState, SocketFile};
use bb::lock::{acquire_daemon_lock, is_lock_held_exclusively, LockAttempt};
use bb::server::{daemon_step, run_daemon, DaemonEvent, DaemonOutcome, DaemonPhase, DaemonProc};

fn empty_host() -> HostState {
    HostState { lock_holder: None, socket: SocketFile::Absent, pid_file: None }
}

#[test]
fn concurrent_daemons_one_winner() {
    // Three daemons race from an initially daemonless state: the first to
    // take the Starting step wins the lock; the other two exit quietly
    // without touching the socket or pid file, and the winner serves.
    let h0 = empty_host();
    let a = DaemonProc { pid: 11, phase: DaemonPhase::Starting };
    let b = DaemonProc { pid: 22, phase: DaemonPhase::Starting };
    let c = DaemonProc { pid: 33, phase: DaemonPhase::Starting };

    let (h1, a1) = daemon_step(&h0, &a, &DaemonEvent::Signal);
    assert_eq!(a1.phase, DaemonPhase::WritePid);
    assert_eq!(h1.lock_holder, Some(11));

    let (h2, b1) = daemon_step(&h1, &b, &DaemonEvent::Signal);
    assert_eq!(b1.phase, DaemonPhase::ExitQuiet);
    assert_eq!(h2, h1); // the loser corrupts nothing

    let (h3, c1) = daemon_step(&h2, &c, &DaemonEvent::Signal);
    assert_eq!(c1.phase, DaemonPhase::ExitQuiet);
    assert_eq!(h3, h2);

    // The winner runs its whole life and cleans up.
    let events = vec![DaemonEvent::Connection, DaemonEvent::Signal];
    let (h4, a2) = daemon_step(&h3, &a1, &DaemonEvent::Signal); // write pid
    let (h5, a3) = daemon_step(&h4, &a2, &DaemonEvent::Signal); // bind socket
    assert_eq!(a3.phase, DaemonPhase::Accepting);
    assert_eq!(h5.socket, SocketFile::Bound(11));
    assert_eq!(h5.pid_file, Some(11));
    let mut h = h5;
    let mut d = a3;
    for ev in &events {
        let (hn, dn) = daemon_step(&h, &d, ev);
        h = hn;
        d = dn;
    }
    assert_eq!(d.phase, DaemonPhase::ShuttingDown);
    let (hf, df) = daemon_step(&h, &d, &DaemonEvent::Signal);
    assert_eq!(df.phase, DaemonPhase::Stopped);
    assert_eq!(hf, empty_host());
}

#[test]
fn run_daemon_loser_changes_nothing() {
    let h0 = HostState { lock_holder: Some(7), socket: SocketFile::Bound(7), pid_file: Some(7) };
    let (h1, outcome) = run_daemon(&h0, 8, &vec![]);
    assert_eq!(outcome, DaemonOutcome::ExitedQuietly);
    assert_eq!(h1, h0);
}

#[test]
fn stale_socket_is_rebound() {
    // A socket file exists but nobody holds the lock: a fresh daemon removes
    // it, rebinds, and becomes reachable.
    let h0 = HostState { lock_holder: None, socket: SocketFile::Stale, pid_file: Some(99) };
    let d0 = DaemonProc { pid: 5, phase: DaemonPhase::Starting };
    let (h1, d1) = daemon_step(&h0, &d0, &DaemonEvent::Signal);
    let (h2, d2) = daemon_step(&h1, &d1, &DaemonEvent::Signal);
    let (h3, d3) = daemon_step(&h2, &d2, &DaemonEvent::Signal);
    assert_eq!(d3.phase, DaemonPhase::Accepting);
    assert_eq!(h3.socket, SocketFile::Bound(5));
    assert_eq!(h3.lock_holder, Some(5));
    assert_eq!(h3.pid_file, Some(5));
}

#[test]
fn run_daemon_from_stale_socket_serves_and_cleans_up() {
    let h0 = HostState { lock_holder: None, socket: SocketFile::Stale, pid_file: None };
    let (h1, outcome) = run_daemon(&h0, 5, &vec![DaemonEvent::Connection, DaemonEvent::Connection]);
    assert_eq!(outcome, DaemonOutcome::Served);
    assert_eq!(h1, empty_host());
}

#[test]
fn cleanup_runs_after_accept_error() {
    // Cleanup invariant: however the accept loop exits, neither the socket
    // path nor the pid file exists afterwards.
    let h0 = empty_host();
    let (h1, outcome) = run_daemon(&h0, 3, &vec![DaemonEvent::Connection, DaemonEvent::AcceptError]);
    assert_eq!(outcome, DaemonOutcome::Served);
    assert_eq!(h1.socket, SocketFile::Absent);
    assert_eq!(h1.pid_file, None);
    assert_eq!(h1.lock_holder, None);
}

#[test]
fn probe_is_side_effect_free() {
    let free = empty_host();
    let (after, held) = probe_lock(&free, 42);
    assert!(!held);
    assert_eq!(after, free);

    let busy = HostState { lock_holder: Some(1), socket: SocketFile::Bound(1), pid_file: Some(1) };
    let (after2, held2) = probe_lock(&busy, 42);
    assert!(held2);
    assert_eq!(after2, busy);

    assert_eq!(probe_lock_repeatedly(&free, 42, 1000), free);
    assert_eq!(probe_lock_repeatedly(&busy, 42, 1000), busy);
}

#[test]
fn poll_exhaustion_is_bounded_and_names_both_paths() {
    let outcomes = vec![false; 64];
    let r = wait_for_daemon_socket(&outcomes, "/run/bb/bb.lock", "/run/bb/bb.sock");
    assert!(!r.connected);
    assert_eq!(r.attempts_used, POLL_ATTEMPTS);
    assert_eq!(r.elapsed_ms, 6000);
    assert!(r.elapsed_ms <= 30 * (100 + 100));
    assert_eq!(
        r.error.as_deref(),
        Some("daemon lock/socket check failed: lock_path=/run/bb/bb.lock, socket_path=/run/bb/bb.sock")
    );
}

#[test]
fn poll_stops_at_first_success() {
    let outcomes = vec![false, false, true, true];
    let r = wait_for_daemon_socket(&outcomes, "l", "s");
    assert!(r.connected);
    assert_eq!(r.attempts_used, 3);
    assert_eq!(r.elapsed_ms, 2 * 200 + 100);
    assert!(r.error.is_none());
}

#[test]
fn poll_with_no_daemon_ever() {
    let r = wait_for_daemon_socket(&vec![], "lp", "sp");
    assert!(!r.connected);
    assert_eq!(r.attempts_used, POLL_ATTEMPTS);
    assert_eq!(r.error.as_deref(), Some("daemon lock/socket check failed: lock_path=lp, socket_path=sp"));
}

#[test]
fn ping_client_against_fresh_runtime() {
    // Runtime directory absent, ping requested: the daemon is spawned, the
    // client polls, connects within the budget and emits the success
    // indicator.
    let h0 = empty_host();
    let outcomes = vec![false, false, false, true];
    let run = run_client(&h0, 77, true, Ok(()), &outcomes, "/l", "/s");
    assert_eq!(run.end, h0);
    assert!(run.spawned);
    let report = run.outcome.expect("poll report");
    assert!(report.connected);
    assert_eq!(report.attempts_used, 4);
    assert_eq!(run.output.as_deref(), Some("ok"));
}

#[test]
fn second_client_skips_spawn() {
    // A daemon is already running and reachable: the probe reports "held",
    // no second daemon is spawned, and the client connects directly.
    let h0 = HostState { lock_holder: Some(9), socket: SocketFile::Bound(9), pid_file: Some(9) };
    let outcomes = vec![true];
    let run = run_client(&h0, 78, false, Ok(()), &outcomes, "/l", "/s");
    assert_eq!(run.end, h0);
    assert!(!run.spawned);
    let report = run.outcome.expect("poll report");
    assert!(report.connected);
    assert_eq!(report.attempts_used, 1);
    assert_eq!(run.output, None);
}

#[test]
fn spawn_failure_is_fatal_and_immediate() {
    let h0 = empty_host();
    let run = run_client(&h0, 79, true, Err("no such binary".to_string()), &vec![true], "/l", "/s");
    assert!(run.spawned);
    match run.outcome {
        Err(BbError::Io(m)) => assert_eq!(m, "no such binary"),
        other => panic!("expected an I/O error, got {:?}", other),
    }
    assert_eq!(run.output, None);
}

#[test]
fn client_step_follows_the_table() {
    assert_eq!(client_step(ClientPhase::CheckLock, ClientEvent::LockHeld), ClientPhase::PollConnect);
    assert_eq!(client_step(ClientPhase::CheckLock, ClientEvent::LockFree), ClientPhase::SpawnDaemon);
    assert_eq!(client_step(ClientPhase::SpawnDaemon, ClientEvent::SpawnOk), ClientPhase::PollConnect);
    assert_eq!(client_step(ClientPhase::SpawnDaemon, ClientEvent::SpawnFailed), ClientPhase::Failed);
    assert_eq!(client_step(ClientPhase::PollConnect, ClientEvent::ConnectOk), ClientPhase::Connected);
    assert_eq!(client_step(ClientPhase::PollConnect, ClientEvent::AttemptsExhausted), ClientPhase::Failed);
}

#[test]
fn lock_probe_answers() {
    assert_eq!(is_lock_held_exclusively(LockAttempt::Acquired).unwrap(), false);
    assert_eq!(is_lock_held_exclusively(LockAttempt::AlreadyLocked).unwrap(), true);
    match is_lock_held_exclusively(LockAttempt::Failed("denied".to_string())) {
        Err(BbError::Io(m)) => assert_eq!(m, "denied"),
        other => panic!("expected an I/O error, got {:?}", other),
    }
}

#[test]
fn acquire_answers() {
    assert!(acquire_daemon_lock("/run/bb/bb.lock", LockAttempt::Acquired).is_ok());
    match acquire_daemon_lock("/run/bb/bb.lock", LockAttempt::AlreadyLocked) {
        Err(BbError::AlreadyLocked(p)) => assert_eq!(p, "/run/bb/bb.lock"),
        other => panic!("expected the contention error, got {:?}", other),
    }
    match acquire_daemon_lock("/run/bb/bb.lock", LockAttempt::Failed("eio".to_string())) {
        Err(BbError::Io(m)) => assert_eq!(m, "eio"),
        other => panic!("expected an I/O error, got {:?}", other),
    }
}
