use vstd::prelude::*;

use crate::commands::chdir_hook::ShellVars;
use crate::errors::VirtualEnvError;
use crate::shell::SupportedShell;
use crate::virtualenv::VirtualEnvironment;

verus! {

/// Deactivates the active environment by hand.
#[derive(Debug, Clone, Copy, PartialEq, Eq)]
pub struct Command {
    pub auto: bool,
}

impl Command {
    /// The fragment that deactivates and holds the hook off in the directory
    /// of activation.
    pub fn execute(&self, vars: &ShellVars, shell: SupportedShell) -> (r: Result<String, VirtualEnvError>)
        ensures
            vars.virtual_env is None ==> r == Err::<String, VirtualEnvError>(
                VirtualEnvError::VenvIsNotActive,
            ),
            vars.virtual_env is Some ==> r is Ok,
            r matches Ok(s) ==> s@ == shell.deactivate_fragment(true),
    {
        VirtualEnvironment::deactivate(true, vars.virtual_env.as_ref(), shell)
    }
}

} // verus!
