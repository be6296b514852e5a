use vstd::prelude::*;

use crate::commands::chdir_hook::{Activation, ShellVars};
use crate::shell::SupportedShell;
use crate::virtualenv::traits::{Roots, WorkDir};
use crate::virtualenv::utils::{contains_name, GlobHit};
use crate::virtualenv::{path_spec, Backend, VirtualEnvironment};

verus! {

/// Activates the named environment in the current shell.
#[derive(Debug, Clone, PartialEq, Eq)]
pub struct Command {
    pub virtualenv: String,
}

/// What `activate` does: write `deactivation`, where an environment is
/// active, then activate the first of `candidates` whose directory proves to
/// be an environment.
#[derive(Debug, Clone, PartialEq, Eq)]
pub struct ActivatePlan {
    pub deactivation: Option<String>,
    pub candidates: Vec<Activation>,
}

/// `kind` lists `venv`, whose directory is then `a`.
pub open spec fn candidate_of(
    kind: Backend,
    shell: SupportedShell,
    venv: Seq<char>,
    dir: WorkDir,
    roots: Roots,
    hits: Seq<GlobHit>,
    a: Activation,
) -> bool {
    &&& kind.listed_spec(dir, roots, hits).contains(venv)
    &&& a.venv == VirtualEnvironment { kind, shell }
    &&& path_spec(kind, Some(venv), dir, roots) == Some(a.path@)
}

fn try_activate(
    kind: Backend,
    shell: SupportedShell,
    venv: &String,
    dir: &WorkDir,
    roots: &Roots,
    hits: &Vec<GlobHit>,
) -> (r: Option<Activation>)
    ensures
        r is Some <==> kind.listed_spec(*dir, *roots, hits@).contains(venv@),
        r matches Some(a) ==> candidate_of(kind, shell, venv@, *dir, *roots, hits@, a),
{
    let listed = kind.listed(dir, roots, hits);
    if !contains_name(&listed, venv.as_str()) {
        return None;
    }
    let v = VirtualEnvironment::new(kind, shell);
    match v.location(Some(venv), dir, roots) {
        Ok(path) => Some(Activation { venv: v, path }),
        Err(_) => None,
    }
}

impl Command {
    /// Deactivates the active environment by hand, if any, then picks the
    /// native environment of this name, else the pyenv one. `rsenv_hits` and
    /// `pyenv_hits` are what the two backends' globs found.
    pub fn execute(
        &self,
        vars: &ShellVars,
        dir: &WorkDir,
        roots: &Roots,
        shell: SupportedShell,
        rsenv_hits: &Vec<GlobHit>,
        pyenv_hits: &Vec<GlobHit>,
    ) -> (plan: ActivatePlan)
        ensures
            vars.virtual_env is None ==> plan.deactivation is None,
            vars.virtual_env is Some ==> (plan.deactivation matches Some(d) && d@
                == shell.deactivate_fragment(true)),
            ({
                let rsenv = Backend::Rsenv.listed_spec(*dir, *roots, rsenv_hits@).contains(
                    self.virtualenv@,
                );
                let pyenv = Backend::Pyenv.listed_spec(*dir, *roots, pyenv_hits@).contains(
                    self.virtualenv@,
                );
                &&& plan.candidates@.len() == (if rsenv { 1int } else { 0 }) + (if pyenv {
                    1int
                } else {
                    0
                })
                &&& rsenv ==> candidate_of(
                    Backend::Rsenv,
                    shell,
                    self.virtualenv@,
                    *dir,
                    *roots,
                    rsenv_hits@,
                    plan.candidates@[0],
                )
                &&& pyenv ==> candidate_of(
                    Backend::Pyenv,
                    shell,
                    self.virtualenv@,
                    *dir,
                    *roots,
                    pyenv_hits@,
                    plan.candidates@.last(),
                )
            }),
    {
        let deactivation = match &vars.virtual_env {
            Some(_) => VirtualEnvironment::deactivate(true, vars.virtual_env.as_ref(), shell).ok(),
            None => None,
        };
        let mut candidates: Vec<Activation> = Vec::new();
        let venv = &self.virtualenv;
        if let Some(a) = try_activate(Backend::Rsenv, shell, venv, dir, roots, rsenv_hits) {
            candidates.push(a);
        }
        if let Some(a) = try_activate(Backend::Pyenv, shell, venv, dir, roots, pyenv_hits) {
            candidates.push(a);
        }
        ActivatePlan { deactivation, candidates }
    }
}

} // verus!
