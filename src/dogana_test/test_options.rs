//! The options of a test: its shell, whether its container is kept, and its exit-code policy.
use vstd::prelude::*;

use crate::dogana_test::accept_exit_code::AcceptExitCode;

verus! {

/// The options for a test.
///
/// The default options have the following values:
/// - `shell` = `Shell::Sh`
/// - `keep_old_containers` = `false`
/// - `accepted_exit_codes` = `AcceptExitCode::Success`
#[derive(Debug, Clone, Copy, PartialEq, Eq, Structural)]
pub struct DoganaTestOptions {
    /// The shell used to run the test script. It must be available in the container `PATH`, thus
    /// it may have to be listed among the required packages of the image variant.
    pub shell: Shell,
    /// Whether to keep the containers. Most useful when debugging a test.
    pub keep_old_containers: bool,
    /// Which exit codes of the test script pass.
    pub accepted_exit_codes: AcceptExitCode,
}

impl Default for DoganaTestOptions {
    fn default() -> (r: Self)
        ensures
            r == (DoganaTestOptions {
                shell: Shell::Sh,
                keep_old_containers: false,
                accepted_exit_codes: AcceptExitCode::Success,
            }),
    {
        DoganaTestOptions {
            shell: Shell::Sh,
            keep_old_containers: false,
            accepted_exit_codes: AcceptExitCode::Success,
        }
    }
}

/// The shell that runs the test script. `sh` is the default, as it is always available.
#[derive(Debug, Clone, Copy, PartialEq, Eq, Structural)]
pub enum Shell {
    Sh,
    Bash,
}

impl Default for Shell {
    fn default() -> (r: Self)
        ensures
            r == Shell::Sh,
    {
        Shell::Sh
    }
}

impl Shell {
    /// The executable name of the shell.
    pub open spec fn name(self) -> Seq<char> {
        match self {
            Shell::Sh => "sh"@,
            Shell::Bash => "bash"@,
        }
    }

    /// The executable name of the shell.
    pub fn to_string(&self) -> (r: String)
        ensures
            r@ == self.name(),
    {
        match self {
            Shell::Sh => "sh".to_owned(),
            Shell::Bash => "bash".to_owned(),
        }
    }
}

} // verus!
