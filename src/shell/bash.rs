use vstd::prelude::*;

verus! {

/// The startup file of the shell.
pub const CONFIG: &'static str = "~/.bashrc";

/// Installs the prompt hook and the `rsvenv` shell function.
pub const HOOK: &'static str = r#"
declare -f -F rsvenv > /dev/null && unset -f rsvenv

RS_VENV_PATH=$(which rsvenv)

_rs_venv_virtualenv_hook () {
    eval "$($RS_VENV_PATH hook)"
}

rsvenv () {
    ALL_PARAMS=($@)
    COMMAND=$1
    SUBPARAMS=("${ALL_PARAMS[@]:1}")
    case $COMMAND in
    "activate")
        eval "$($RS_VENV_PATH activate $SUBPARAMS)"
        ;;
    "deactivate")
        eval "$($RS_VENV_PATH deactivate $SUBPARAMS)"
        ;;
    "delete")
        eval "$($RS_VENV_PATH delete $SUBPARAMS)"
        ;;
    "use")
        eval "$($RS_VENV_PATH use $SUBPARAMS)"
        ;;
    *)
        $RS_VENV_PATH $ALL_PARAMS
        ;;
    esac
}

if ! [[ "\${PROMPT_COMMAND-}" =~ _rs_venv_virtualenv_hook ]]; then
  PROMPT_COMMAND="_rs_venv_virtualenv_hook;\${PROMPT_COMMAND-}"
fi
"#;

/// Sources an environment's activation script and records where that happened.
pub const ACTIVATE_TEMPLATE: &'static str = r#"
source {activate_path}
export RSVENV_ACTIVATE_PATH={current_directory}
"#;

/// Deactivates the environment; when `forced`, remembers where that was asked for.
pub const DEACTIVATE_TEMPLATE: &'static str = r#"
unset RSVENV_DEACTIVATE_PATH
deactivate
{{ if forced }}export RSVENV_DEACTIVATE_PATH=$RSVENV_ACTIVATE_PATH{{ endif }}
"#;

/// The line that the startup file needs.
pub const INIT_COMMAND: &'static str = r#"eval "$(rsvenv init)""#;

} // verus!
