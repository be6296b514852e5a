use vstd::prelude::*;

use crate::shell::SupportedShell;

verus! {

/// Prints the script that installs the hook in the shell.
#[derive(Debug, Clone, Copy, PartialEq, Eq)]
pub struct Command {}

impl Command {
    pub fn execute(&self, shell: SupportedShell) -> (r: &'static str)
        ensures
            r == shell.hook_spec(),
    {
        shell.get_hook()
    }
}

} // verus!
