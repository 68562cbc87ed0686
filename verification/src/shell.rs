//! Shell-specific rendering of a generated command.
//!
//! The daemon hands back a command line; depending on which shell asked, the
//! output is prefixed with a marker the shell wrapper recognises, so it can
//! prefill its prompt instead of printing plain text.

use vstd::prelude::*;

verus! {

/// The shells whose wrappers understand a prefill marker.
#[derive(Clone, Copy, Debug, PartialEq, Eq, Structural)]
pub enum ShellKind {
    Bash,
    Zsh,
}

/// What `render_output` puts in front of the command for a given shell.
pub open spec fn prefill_prefix(shell: Option<ShellKind>) -> Seq<char> {
    match shell {
        Some(ShellKind::Bash) => "BASH_PREFILL:"@,
        Some(ShellKind::Zsh) => "ZSH_PREFILL:"@,
        None => Seq::<char>::empty(),
    }
}

/// Renders a command for the requesting shell: the shell's prefill marker,
/// then the command unchanged; no marker when no shell was named.
pub fn render_output(command: &str, shell: Option<ShellKind>) -> (r: String)
    ensures
        r@ == prefill_prefix(shell) + command@,
{
    match shell {
        Some(ShellKind::Bash) => {
            let mut s = String::from_str("BASH_PREFILL:");
            s.append(command);
            s
        }
        Some(ShellKind::Zsh) => {
            let mut s = String::from_str("ZSH_PREFILL:");
            s.append(command);
            s
        }
        None => {
            let r = command.to_owned();
            assert(r@ =~= prefill_prefix(shell) + command@);
            r
        }
    }
}

} // verus!
