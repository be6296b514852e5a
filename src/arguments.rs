use vstd::prelude::*;

use crate::commands::activate;
use crate::commands::chdir_hook;
use crate::commands::create::CreateCommand;
use crate::commands::deactivate;
use crate::commands::delete::DeleteCommand;
use crate::commands::init;
use crate::commands::install;
use crate::commands::list::ListCommand;
use crate::commands::use_command::UseCommand;

verus! {

/// The command line: one subcommand, if any.
#[derive(Debug, Clone, PartialEq, Eq)]
pub struct Cli {
    pub command: Option<Commands>,
}

/// The subcommands of the tool.
#[derive(Debug, Clone, PartialEq, Eq)]
pub enum Commands {
    Install(install::Command),
    Init(init::Command),
    Activate(activate::Command),
    Deactivate(deactivate::Command),
    Hook(chdir_hook::Command),
    List(ListCommand),
    Create(CreateCommand),
    Delete(DeleteCommand),
    Use(UseCommand),
}

} // verus!
