//! The daemon spawner's argument contract.
//!
//! A spawned daemon must use the same socket and pid paths its spawning
//! client resolved, or the two would disagree on the rendezvous location; so
//! the client passes both explicitly, next to the flag selecting daemon
//! mode.  The process creation itself — detached standard streams, no handle
//! retained — is the surrounding binary's work.

use vstd::prelude::*;

verus! {

/// The argument vector a client hands the operating system when spawning
/// the daemon: the daemon-mode flag, then the socket path and the pid path
/// under their flags, exactly as resolved.
pub fn daemon_args(socket_path: &str, pid_path: &str) -> (args: Vec<String>)
    ensures
        args@.len() == 5,
        args@[0]@ == "--daemon"@,
        args@[1]@ == "--socket"@,
        args@[2]@ == socket_path@,
        args@[3]@ == "--pid-file"@,
        args@[4]@ == pid_path@,
{
    let mut args: Vec<String> = Vec::new();
    args.push(String::from_str("--daemon"));
    args.push(String::from_str("--socket"));
    args.push(socket_path.to_owned());
    args.push(String::from_str("--pid-file"));
    args.push(pid_path.to_owned());
    args
}

} // verus!
