//! Resolution of the per-user runtime paths and the run configuration.
//!
//! Every client and every daemon must derive the same three well-known paths
//! (socket, pid file, lock file) from the same environment, or they would
//! never find each other.  Resolution is therefore a pure function of an
//! environment snapshot, taken once by the surrounding binary: the user's
//! runtime-directory variable if set, else a temporary directory namespaced
//! by the caller's file-ownership identifier.

use vstd::prelude::*;

use crate::shell::ShellKind;

verus! {

/// Whether this process runs as the short-lived client or the daemon.
#[derive(Clone, Copy, Debug, PartialEq, Eq, Structural)]
pub enum Mode {
    Client,
    Daemon,
}

/// What path resolution reads from the environment, taken as plain values so
/// that resolution itself is deterministic and pure.
#[derive(Debug)]
pub struct EnvSnapshot {
    /// The user's runtime-directory environment variable, if set.
    pub xdg_runtime_dir: Option<String>,
    /// The system temporary directory, used when no runtime directory is set.
    pub temp_dir: String,
    /// The caller's file-ownership identifier, namespacing the fallback.
    pub uid: u32,
}

/// The runtime directory and the three well-known paths inside it.
#[derive(Debug)]
pub struct RuntimePaths {
    pub runtime_dir: String,
    pub socket_path: String,
    pub pid_path: String,
    pub lock_path: String,
}

/// Everything one run of the program needs to know.
#[derive(Debug)]
pub struct RuntimeConfig {
    pub mode: Mode,
    pub ping: bool,
    pub paths: RuntimePaths,
    pub shell: Option<ShellKind>,
}

/// The character for one decimal digit.
pub open spec fn decimal_digit(d: nat) -> char {
    if d == 0 {
        '0'
    } else if d == 1 {
        '1'
    } else if d == 2 {
        '2'
    } else if d == 3 {
        '3'
    } else if d == 4 {
        '4'
    } else if d == 5 {
        '5'
    } else if d == 6 {
        '6'
    } else if d == 7 {
        '7'
    } else if d == 8 {
        '8'
    } else {
        '9'
    }
}

/// The decimal notation of `n`, most significant digit first, no sign and no
/// leading zero (except for `n == 0` itself).
pub open spec fn decimal(n: nat) -> Seq<char>
    decreases n,
{
    if n < 10 {
        seq![decimal_digit(n)]
    } else {
        decimal(n / 10).push(decimal_digit(n % 10))
    }
}

/// The runtime directory that `default_runtime_dir` derives from a given
/// environment: the runtime-directory variable with a `bb` component when the
/// variable is set, else a `bb-<uid>` directory under the temporary directory.
pub open spec fn spec_default_runtime_dir(env: EnvSnapshot) -> Seq<char> {
    match env.xdg_runtime_dir {
        Some(x) => x@ + "/bb"@,
        None => env.temp_dir@ + "/bb-"@ + decimal(env.uid as nat),
    }
}

/// A one-character string for the digit `d`.
fn digit_str(d: u32) -> (s: String)
    requires
        d < 10,
    ensures
        s@ =~= seq![decimal_digit(d as nat)],
{
    let lit: &str = match d {
        0 => "0",
        1 => "1",
        2 => "2",
        3 => "3",
        4 => "4",
        5 => "5",
        6 => "6",
        7 => "7",
        8 => "8",
        _ => "9",
    };
    proof {
        reveal_strlit("0");
        reveal_strlit("1");
        reveal_strlit("2");
        reveal_strlit("3");
        reveal_strlit("4");
        reveal_strlit("5");
        reveal_strlit("6");
        reveal_strlit("7");
        reveal_strlit("8");
        reveal_strlit("9");
    }
    lit.to_owned()
}

/// Writes `n` in decimal notation.
pub fn u32_to_decimal(n: u32) -> (s: String)
    ensures
        s@ == decimal(n as nat),
    decreases n,
{
    if n < 10 {
        let s = digit_str(n);
        assert(s@ =~= decimal(n as nat));
        s
    } else {
        let mut s = u32_to_decimal(n / 10);
        let d = digit_str(n % 10);
        s.append(d.as_str());
        assert(s@ =~= decimal(n as nat));
        s
    }
}

/// Derives the runtime directory from the environment snapshot: prefer the
/// user's runtime-directory variable, fall back to a uid-namespaced
/// temporary directory.  Deterministic per user, so repeated invocations
/// rendezvous at the same place.
pub fn default_runtime_dir(env: &EnvSnapshot) -> (r: String)
    ensures
        r@ == spec_default_runtime_dir(*env),
{
    match &env.xdg_runtime_dir {
        Some(x) => {
            let mut s = x.clone();
            s.append("/bb");
            s
        }
        None => {
            let mut s = env.temp_dir.clone();
            s.append("/bb-");
            let u = u32_to_decimal(env.uid);
            s.append(u.as_str());
            s
        }
    }
}

impl RuntimePaths {
    /// The invariant every resolved set of paths satisfies: the lock file is
    /// the `bb.lock` entry of the runtime directory.  Socket and pid paths
    /// may have been overridden, so only their defaults are tied down.
    pub open spec fn resolved_from(self, env: EnvSnapshot, socket_override: Option<String>, pid_override: Option<String>) -> bool {
        &&& self.runtime_dir@ == spec_default_runtime_dir(env)
        &&& self.socket_path@ == (match socket_override {
            Some(p) => p@,
            None => spec_default_runtime_dir(env) + "/bb.sock"@,
        })
        &&& self.pid_path@ == (match pid_override {
            Some(p) => p@,
            None => spec_default_runtime_dir(env) + "/bb.pid"@,
        })
        &&& self.lock_path@ == spec_default_runtime_dir(env) + "/bb.lock"@
    }

    /// Resolves the four paths: the runtime directory from the environment,
    /// socket and pid paths from their overrides or the directory defaults,
    /// the lock path always inside the runtime directory.
    pub fn resolve(socket_override: Option<String>, pid_override: Option<String>, env: &EnvSnapshot) -> (r: RuntimePaths)
        ensures
            r.resolved_from(*env, socket_override, pid_override),
    {
        let runtime_dir = default_runtime_dir(env);
        let socket_path = match socket_override {
            Some(p) => p,
            None => {
                let mut s = runtime_dir.clone();
                s.append("/bb.sock");
                s
            }
        };
        let pid_path = match pid_override {
            Some(p) => p,
            None => {
                let mut s = runtime_dir.clone();
                s.append("/bb.pid");
                s
            }
        };
        let mut lock_path = runtime_dir.clone();
        lock_path.append("/bb.lock");
        RuntimePaths { runtime_dir, socket_path, pid_path, lock_path }
    }
}

impl RuntimeConfig {
    /// Builds the run configuration; the paths come from `RuntimePaths::resolve`
    /// on the same environment snapshot, so every field of the result is
    /// pinned to the arguments.
    pub fn new(
        mode: Mode,
        ping: bool,
        socket_override: Option<String>,
        pid_override: Option<String>,
        shell: Option<ShellKind>,
        env: &EnvSnapshot,
    ) -> (r: RuntimeConfig)
        ensures
            r.mode == mode,
            r.ping == ping,
            r.shell == shell,
            r.paths.resolved_from(*env, socket_override, pid_override),
    {
        let paths = RuntimePaths::resolve(socket_override, pid_override, env);
        RuntimeConfig { mode, ping, paths, shell }
    }
}

} // verus!
