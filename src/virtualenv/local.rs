use vstd::prelude::*;

use crate::errors::VirtualEnvError;
use crate::virtualenv::traits::{Roots, VirtualEnvCompatible, WorkDir};
use crate::virtualenv::utils::{contains_name, names, GlobHit};

verus! {

pub const VENV: &'static str = "venv";

pub const DOT_VENV: &'static str = ".venv";

pub const VIRTUALENV: &'static str = "virtualenv";

pub const DOT_VIRTUALENV: &'static str = ".virtualenv";

/// The first of the local candidate names, in the order `venv`, `.venv`,
/// `virtualenv`, `.virtualenv`, that is among `envs`.
pub open spec fn first_local(envs: Set<Seq<char>>) -> Option<Seq<char>> {
    if envs.contains(VENV@) {
        Some(VENV@)
    } else if envs.contains(DOT_VENV@) {
        Some(DOT_VENV@)
    } else if envs.contains(VIRTUALENV@) {
        Some(VIRTUALENV@)
    } else if envs.contains(DOT_VIRTUALENV@) {
        Some(DOT_VIRTUALENV@)
    } else {
        None
    }
}

/// An environment kept inside the working directory itself, under one of a
/// few customary names.
#[derive(Debug, Clone, Copy, PartialEq, Eq)]
pub struct Local;

impl Local {
    /// The names under which a directory may hold its own environment, in
    /// the order in which they are tried.
    pub fn candidates() -> (r: Vec<&'static str>)
        ensures
            r@ == seq![VENV, DOT_VENV, VIRTUALENV, DOT_VIRTUALENV],
    {
        let mut r: Vec<&'static str> = Vec::new();
        r.push(VENV);
        r.push(DOT_VENV);
        r.push(VIRTUALENV);
        r.push(DOT_VIRTUALENV);
        r
    }
}

impl VirtualEnvCompatible for Local {
    open spec fn root_spec(&self, dir: WorkDir, roots: Roots) -> Option<Seq<char>> {
        Some(dir.path@)
    }

    open spec fn relevant_spec(&self, dir: WorkDir) -> bool {
        first_local(names(dir.local_envs@)) is Some
    }

    open spec fn name_spec(&self, dir: WorkDir) -> Option<Seq<char>> {
        first_local(names(dir.local_envs@))
    }

    open spec fn name_error(&self, dir: WorkDir, e: VirtualEnvError) -> bool {
        e matches VirtualEnvError::NotVirtualEnv(p) && p@ == dir.path@
    }

    open spec fn lists_spec(&self) -> bool {
        false
    }

    open spec fn globs_spec(&self) -> Seq<&'static str> {
        Seq::empty()
    }

    open spec fn saved_spec(&self, before: WorkDir, name: Seq<char>, after: WorkDir) -> bool {
        after == before
    }

    fn root_dir(&self, dir: &WorkDir, roots: &Roots) -> (r: Result<String, VirtualEnvError>) {
        Ok(dir.path.clone())
    }

    fn relevant(&self, dir: &WorkDir) -> (r: bool) {
        self.venv_name(dir).is_ok()
    }

    fn venv_name(&self, dir: &WorkDir) -> (r: Result<String, VirtualEnvError>) {
        if contains_name(&dir.local_envs, VENV) {
            Ok(VENV.to_owned())
        } else if contains_name(&dir.local_envs, DOT_VENV) {
            Ok(DOT_VENV.to_owned())
        } else if contains_name(&dir.local_envs, VIRTUALENV) {
            Ok(VIRTUALENV.to_owned())
        } else if contains_name(&dir.local_envs, DOT_VIRTUALENV) {
            Ok(DOT_VIRTUALENV.to_owned())
        } else {
            Err(VirtualEnvError::NotVirtualEnv(dir.path.clone()))
        }
    }

    fn globs(&self) -> (r: Vec<&'static str>) {
        Vec::new()
    }

    fn list(&self, root: &str, hits: &Vec<GlobHit>) -> (r: Vec<String>) {
        Vec::new()
    }

    fn save(&self, dir: &mut WorkDir, name: &str) {
    }
}

} // verus!
