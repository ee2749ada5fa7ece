//! The policies that decide which exit codes a test accepts.
use vstd::prelude::*;

verus! {

/// The policy for accepting an exit code of a test.
#[derive(Debug, Clone, Copy, PartialEq, Eq, Structural)]
pub enum AcceptExitCode {
    /// Accept all exit codes, i.e. ignore all errors.
    All,
    /// Accept only success exit codes (i.e. only `0`).
    Success,
    /// Accept only error exit codes (i.e. from `1` to `255`).
    Error,
    /// Accept only a specific exit code.
    Specific(u8),
}

impl AcceptExitCode {
    /// Whether the policy accepts `exit_code`.
    pub open spec fn accepts(self, exit_code: u8) -> bool {
        match self {
            AcceptExitCode::All => true,
            AcceptExitCode::Success => exit_code == 0,
            AcceptExitCode::Error => exit_code != 0,
            AcceptExitCode::Specific(c) => exit_code == c,
        }
    }

    /// `Ok` when the policy accepts `exit_code`, else the rejection, carrying `deny_message`.
    pub fn accept(&self, exit_code: u8, deny_message: &str) -> (r: Result<(), String>)
        ensures
            r is Ok <==> self.accepts(exit_code),
            r matches Err(m) ==> m@ == deny_message@,
    {
        let accepted = match self {
            AcceptExitCode::All => true,
            AcceptExitCode::Success => exit_code == 0,
            AcceptExitCode::Error => exit_code != 0,
            AcceptExitCode::Specific(c) => exit_code == *c,
        };
        if accepted {
            Ok(())
        } else {
            Err(deny_message.to_owned())
        }
    }
}

/// A specific policy accepts its own code and no other.
pub proof fn lemma_specific_accepts_only_its_code(code: u8, other: u8)
    ensures
        AcceptExitCode::Specific(code).accepts(code),
        other != code ==> !AcceptExitCode::Specific(code).accepts(other),
{
}

/// `Success` accepts exactly `0`, `Error` exactly the codes other than `0`, and `All` every code.
pub proof fn lemma_policy_table(code: u8)
    ensures
        AcceptExitCode::Success.accepts(code) <==> code == 0,
        AcceptExitCode::Error.accepts(code) <==> code != 0,
        AcceptExitCode::All.accepts(code),
{
}

} // verus!
