use vstd::prelude::*;

use crate::errors::VirtualEnvError;
use crate::virtualenv::rsenv::{existing_venvs, valid_name, venvs_root, Rsenv};
use crate::virtualenv::traits::Roots;
use crate::virtualenv::utils::{joined, GlobHit};

verus! {

/// Deletes a native environment.
#[derive(Debug, Clone, PartialEq, Eq)]
pub struct DeleteCommand {
    pub venv: String,
}

impl DeleteCommand {
    /// See `Rsenv::delete`: the directory to remove.
    pub fn execute(&self, roots: &Roots, hits: &Vec<GlobHit>) -> (r: Result<
        String,
        VirtualEnvError,
    >)
        ensures
            !valid_name(self.venv@) ==> r == Err::<String, VirtualEnvError>(
                VirtualEnvError::IncorrectName,
            ),
            valid_name(self.venv@) && !existing_venvs(*roots, hits@).contains(self.venv@) ==> (r
                matches Err(e) && e matches VirtualEnvError::NotVirtualEnv(n) && n@ == self.venv@),
            valid_name(self.venv@) && existing_venvs(*roots, hits@).contains(self.venv@) ==> (r
                matches Ok(p) && venvs_root(*roots) matches Some(root) && p@ == joined(
                root,
                self.venv@,
            )),
    {
        Rsenv.delete(self.venv.clone(), roots, hits)
    }
}

} // verus!
