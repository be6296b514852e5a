use vstd::prelude::*;

verus! {

/// The startup file of the shell.
pub const CONFIG: &'static str = "~/.config/fish/config.fish";

/// Installs the prompt hook and the `rsvenv` shell function.
pub const HOOK: &'static str = r#"
if set -q rsvenv;
    set -e rsvenv
end

set -g RS_VENV_PATH (which rsvenv)

function _rs_venv_virtualenv_hook --on-event fish_prompt;
   $RS_VENV_PATH hook | source
end

function rsvenv
    set eval_commands activate deactivate delete use
    if contains $argv[1] $eval_commands
        $RS_VENV_PATH $argv | source
    else
        $RS_VENV_PATH $argv
    end
end
"#;

/// Sources an environment's activation script and records where that happened.
pub const ACTIVATE_TEMPLATE: &'static str = r#"
source {activate_path}
set -gx RSVENV_ACTIVATE_PATH {current_directory}
"#;

/// Deactivates the environment; when `forced`, remembers where that was asked for.
pub const DEACTIVATE_TEMPLATE: &'static str = r#"
set -e RSVENV_DEACTIVATE_PATH
deactivate
{{ if forced }}set -gx RSVENV_DEACTIVATE_PATH $RSVENV_ACTIVATE_PATH{{ endif }}
"#;

/// The line that the startup file needs.
pub const INIT_COMMAND: &'static str = "status --is-interactive; and source (rsvenv init |psub)";

} // verus!
