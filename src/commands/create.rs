use vstd::prelude::*;

use crate::errors::VirtualEnvError;
use crate::virtualenv::python::{version_of, InterpreterOutput};
use crate::virtualenv::rsenv::{
    existing_venvs, valid_name, venvs_root, with_version, NewVenv, Rsenv,
};
use crate::virtualenv::traits::Roots;
use crate::virtualenv::utils::{joined, GlobHit};

verus! {

/// Creates a native environment `name` with the interpreter `python`.
#[derive(Debug, Clone, PartialEq, Eq)]
pub struct CreateCommand {
    pub python: String,
    pub name: String,
}

impl CreateCommand {
    /// See `Rsenv::create`.
    pub fn execute(
        &self,
        output: &InterpreterOutput,
        roots: &Roots,
        hits: &Vec<GlobHit>,
    ) -> (r: Result<NewVenv, VirtualEnvError>)
        ensures
            version_of(*output) is None ==> r == Err::<NewVenv, VirtualEnvError>(
                VirtualEnvError::CreatingError,
            ),
            version_of(*output) matches Some(v) ==> {
                let taken = existing_venvs(*roots, hits@);
                if !valid_name(self.name@) {
                    r == Err::<NewVenv, VirtualEnvError>(VirtualEnvError::IncorrectName)
                } else if taken.contains(self.name@) || taken.contains(
                    with_version(v, self.name@),
                ) {
                    r matches Err(e) && e matches VirtualEnvError::AlreadyExists(n) && n@
                        == self.name@
                } else {
                    match venvs_root(*roots) {
                        None => r == Err::<NewVenv, VirtualEnvError>(
                            VirtualEnvError::ConfigurationError,
                        ),
                        Some(root) => r matches Ok(plan) && plan.root@ == root && plan.path@
                            == joined(joined(root, v), self.name@) && plan.interpreter.version@
                            == v && plan.interpreter.interpreter == self.python,
                    }
                }
            },
    {
        Rsenv.create(&self.name, &self.python, output, roots, hits)
    }
}

} // verus!
