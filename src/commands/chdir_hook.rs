use vstd::prelude::*;

use crate::errors::VirtualEnvError;
use crate::shell::SupportedShell;
use crate::virtualenv::traits::{Roots, WorkDir};
use crate::virtualenv::utils::{is_within, within};
use crate::virtualenv::{detected, path_spec, VirtualEnvironment};

verus! {

/// The variables of the calling shell that record activation.
#[derive(Debug, Clone, PartialEq, Eq)]
pub struct ShellVars {
    /// `VIRTUAL_ENV`: set by an environment's activation script.
    pub virtual_env: Option<String>,
    /// `RSVENV_ACTIVATE_PATH`: the directory where the hook activated.
    pub activate_path: Option<String>,
    /// `RSVENV_DEACTIVATE_PATH`: the directory where the user deactivated by hand.
    pub deactivate_path: Option<String>,
}

/// The shell variables as values.
pub struct VarsModel {
    pub virtual_env: Option<Seq<char>>,
    pub activate_path: Option<Seq<char>>,
    pub deactivate_path: Option<Seq<char>>,
}

pub open spec fn opt_text(s: Option<String>) -> Option<Seq<char>> {
    match s {
        Some(t) => Some(t@),
        None => None,
    }
}

impl View for ShellVars {
    type V = VarsModel;

    open spec fn view(&self) -> VarsModel {
        VarsModel {
            virtual_env: opt_text(self.virtual_env),
            activate_path: opt_text(self.activate_path),
            deactivate_path: opt_text(self.deactivate_path),
        }
    }
}

/// An environment is active, the hook activated it, and `cwd` is no longer
/// within the directory where it did.
pub open spec fn leaves_activation(vars: VarsModel, cwd: Seq<char>) -> bool {
    vars.virtual_env is Some && match vars.activate_path {
        Some(a) => !within(cwd, a),
        None => false,
    }
}

/// The user deactivated by hand in a directory that `cwd` is within.
pub open spec fn held_off(vars: VarsModel, cwd: Seq<char>) -> bool {
    match vars.deactivate_path {
        Some(d) => within(cwd, d),
        None => false,
    }
}

/// The hook may activate: it was not held off, and no environment is active
/// unless the hook just deactivated it.
pub open spec fn may_activate(vars: VarsModel, cwd: Seq<char>, just_deactivated: bool) -> bool {
    if held_off(vars, cwd) {
        false
    } else if vars.virtual_env is Some {
        just_deactivated
    } else {
        true
    }
}

/// The shell variables once the shell evaluated what the hook wrote in `cwd`:
/// a deactivation fragment where `deactivated`, then the activation of the
/// environment `activated`, if any.
pub open spec fn evaluated(
    vars: VarsModel,
    cwd: Seq<char>,
    deactivated: bool,
    activated: Option<Seq<char>>,
) -> VarsModel {
    let after_deactivation = if deactivated {
        VarsModel {
            virtual_env: None,
            activate_path: vars.activate_path,
            deactivate_path: None,
        }
    } else {
        vars
    };
    match activated {
        Some(venv) => VarsModel {
            virtual_env: Some(venv),
            activate_path: Some(cwd),
            deactivate_path: after_deactivation.deactivate_path,
        },
        None => after_deactivation,
    }
}

/// The environment that the hook activates in `cwd` when it tries: `None`
/// where it tries and `attempt` is `None`.
pub open spec fn hook_activation(
    vars: VarsModel,
    cwd: Seq<char>,
    attempt: Option<Seq<char>>,
) -> Option<Seq<char>> {
    if may_activate(vars, cwd, leaves_activation(vars, cwd)) {
        attempt
    } else {
        None
    }
}

/// Run twice in the same directory, with nothing else changing the shell's
/// variables in between, the hook writes nothing the second time. `attempt`
/// is the environment that an activation in this directory yields, if any;
/// left out is the one case where this fails: the hook leaves the directory
/// of an activation while held off by a manual deactivation, which its
/// deactivation fragment clears, and the directory has an environment.
pub proof fn lemma_hook_idempotent(vars: VarsModel, cwd: Seq<char>, attempt: Option<Seq<char>>)
    requires
        !(leaves_activation(vars, cwd) && held_off(vars, cwd) && attempt is Some),
    ensures
        ({
            let after = evaluated(
                vars,
                cwd,
                leaves_activation(vars, cwd),
                hook_activation(vars, cwd, attempt),
            );
            !leaves_activation(after, cwd) && hook_activation(after, cwd, attempt) is None
        }),
{
}

/// The directory-change hook, run at every prompt.
#[derive(Debug, Clone, Copy, PartialEq, Eq)]
pub struct Command {}

/// What the hook does at one prompt. `deactivation` holds the deactivation
/// fragment when the hook deactivates; `activation` holds the environment
/// to activate when the hook activates and a backend applies.
#[derive(Debug, Clone, PartialEq, Eq)]
pub struct HookOutcome {
    pub deactivation: Option<Result<String, VirtualEnvError>>,
    pub activation: Option<Result<Activation, VirtualEnvError>>,
}

/// An environment that the hook will activate once its directory, `path`,
/// proves to be one: see `VirtualEnvironment::activate`.
#[derive(Debug, Clone, PartialEq, Eq)]
pub struct Activation {
    pub venv: VirtualEnvironment,
    pub path: String,
}

impl Command {
    pub fn should_activate(&self, just_deactivated: bool, vars: &ShellVars, cwd: &str) -> (r: bool)
        ensures
            r == may_activate(vars@, cwd@, just_deactivated),
    {
        if let Some(disabled_in) = &vars.deactivate_path {
            if is_within(cwd, disabled_in.as_str()) {
                return false;
            }
        }
        if vars.virtual_env.is_some() {
            return just_deactivated;
        }
        true
    }

    pub fn should_deactivate(&self, vars: &ShellVars, cwd: &str) -> (r: bool)
        ensures
            r == leaves_activation(vars@, cwd@),
    {
        if vars.virtual_env.is_none() {
            return false;
        }
        match &vars.activate_path {
            Some(activated_in) => !is_within(cwd, activated_in.as_str()),
            None => false,
        }
    }

    /// The hook's decisions in `dir`: deactivate the environment that the
    /// user left, then activate the one that applies here.
    pub fn execute(
        &self,
        vars: &ShellVars,
        dir: &WorkDir,
        roots: &Roots,
        shell: SupportedShell,
    ) -> (r: HookOutcome)
        ensures
            r.deactivation is Some <==> leaves_activation(vars@, dir.path@),
            r.deactivation matches Some(d) ==> (d matches Ok(s) && s@
                == shell.deactivate_fragment(false)),
            r.activation is Some <==> (may_activate(
                vars@,
                dir.path@,
                leaves_activation(vars@, dir.path@),
            ) && detected(*dir) is Some),
            r.activation matches Some(a) ==> (detected(*dir) matches Some(kind) && (a is Ok
                <==> path_spec(kind, None, *dir, *roots) is Some)),
            r.activation matches Some(Ok(a)) ==> (Some(a.venv.kind) == detected(*dir)
                && a.venv.shell == shell && path_spec(a.venv.kind, None, *dir, *roots) == Some(
                a.path@,
            )),
    {
        let deactivated = self.should_deactivate(vars, dir.path.as_str());
        let deactivation = if deactivated {
            Some(VirtualEnvironment::deactivate(false, vars.virtual_env.as_ref(), shell))
        } else {
            None
        };
        let mut activation = None;
        if self.should_activate(deactivated, vars, dir.path.as_str()) {
            if let Some(venv) = VirtualEnvironment::detect(dir, shell) {
                activation = Some(match venv.location(None, dir, roots) {
                    Ok(path) => Ok(Activation { venv, path }),
                    Err(e) => Err(e),
                });
            }
        }
        HookOutcome { deactivation, activation }
    }
}

} // verus!
