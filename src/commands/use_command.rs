use vstd::prelude::*;

use crate::errors::VirtualEnvError;
use crate::virtualenv::traits::{Roots, WorkDir};
use crate::virtualenv::utils::{contains_name, GlobHit};
use crate::virtualenv::Backend;

verus! {

/// Selects an environment for the current directory.
#[derive(Debug, Clone, PartialEq, Eq)]
pub struct UseCommand {
    pub venv: String,
}

/// Records `venv` in `dir` when `kind` lists it.
pub fn try_save(kind: Backend, dir: &mut WorkDir, venv: &String, roots: &Roots, hits: &Vec<GlobHit>) -> (r: bool)
    ensures
        r == kind.listed_spec(*old(dir), *roots, hits@).contains(venv@),
        r ==> kind.saved_spec(*old(dir), venv@, *final(dir)),
        !r ==> *final(dir) == *old(dir),
{
    let listed = kind.listed(dir, roots, hits);
    if contains_name(&listed, venv.as_str()) {
        kind.save(dir, venv.as_str());
        return true;
    }
    false
}

impl UseCommand {
    /// Records the environment in `dir` with the native backend when it
    /// lists the name, else with pyenv when that lists it; the result is the
    /// backend that recorded it.
    pub fn execute(
        &self,
        dir: &mut WorkDir,
        roots: &Roots,
        rsenv_hits: &Vec<GlobHit>,
        pyenv_hits: &Vec<GlobHit>,
    ) -> (r: Result<Backend, VirtualEnvError>)
        ensures
            Backend::Rsenv.listed_spec(*old(dir), *roots, rsenv_hits@).contains(self.venv@) ==> (r
                == Ok::<Backend, VirtualEnvError>(Backend::Rsenv) && Backend::Rsenv.saved_spec(
                *old(dir),
                self.venv@,
                *final(dir),
            )),
            !Backend::Rsenv.listed_spec(*old(dir), *roots, rsenv_hits@).contains(self.venv@)
                && Backend::Pyenv.listed_spec(*old(dir), *roots, pyenv_hits@).contains(self.venv@)
                ==> (r == Ok::<Backend, VirtualEnvError>(Backend::Pyenv) && Backend::Pyenv.saved_spec(
                *old(dir),
                self.venv@,
                *final(dir),
            )),
            !Backend::Rsenv.listed_spec(*old(dir), *roots, rsenv_hits@).contains(self.venv@)
                && !Backend::Pyenv.listed_spec(*old(dir), *roots, pyenv_hits@).contains(self.venv@)
                ==> (*final(dir) == *old(dir) && (r matches Err(e) && e matches VirtualEnvError::NotVirtualEnv(
                n,
            ) && n@ == self.venv@)),
    {
        if try_save(Backend::Rsenv, dir, &self.venv, roots, rsenv_hits) {
            return Ok(Backend::Rsenv);
        }
        if try_save(Backend::Pyenv, dir, &self.venv, roots, pyenv_hits) {
            return Ok(Backend::Pyenv);
        }
        Err(VirtualEnvError::NotVirtualEnv(self.venv.clone()))
    }
}

} // verus!
