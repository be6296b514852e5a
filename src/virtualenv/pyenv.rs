use vstd::prelude::*;

use crate::errors::VirtualEnvError;
use crate::virtualenv::traits::{marker_error, marker_name, MarkerFile, Roots, VirtualEnvCompatible, WorkDir};
use crate::virtualenv::utils::{get_venvs_by_glob, join_path, joined, trim_text, GlobHit};

verus! {

/// The file that selects a pyenv environment for its directory.
pub const PYENV_MARKER: &'static str = ".python-version";

/// Where pyenv keeps its root when `PYENV_ROOT` is not set.
pub const DEFAULT_PYENV_ROOT: &'static str = "~/.pyenv";

/// Where pyenv's environments lie: `<version>/envs/<name>`.
pub const PYENV_GLOB: &'static str = "*/envs/*";

/// pyenv's layout: `<PYENV_ROOT>/versions/<version>/envs/<name>`, selected by
/// a `.python-version` file.
#[derive(Debug, Clone, Copy, PartialEq, Eq)]
pub struct Pyenv;

impl VirtualEnvCompatible for Pyenv {
    open spec fn root_spec(&self, dir: WorkDir, roots: Roots) -> Option<Seq<char>> {
        match roots.pyenv_base {
            Some(base) => Some(joined(base@, "versions"@)),
            None => None,
        }
    }

    open spec fn relevant_spec(&self, dir: WorkDir) -> bool {
        !(dir.python_version is Missing)
    }

    open spec fn name_spec(&self, dir: WorkDir) -> Option<Seq<char>> {
        marker_name(dir.python_version)
    }

    open spec fn name_error(&self, dir: WorkDir, e: VirtualEnvError) -> bool {
        marker_error(dir.python_version, PYENV_MARKER@, e)
    }

    open spec fn lists_spec(&self) -> bool {
        true
    }

    open spec fn globs_spec(&self) -> Seq<&'static str> {
        seq![PYENV_GLOB]
    }

    open spec fn saved_spec(&self, before: WorkDir, name: Seq<char>, after: WorkDir) -> bool {
        &&& after.path == before.path
        &&& after.local_envs == before.local_envs
        &&& after.python_version matches MarkerFile::Present(content) && content@ == name
        &&& after.python_virtualenv == MarkerFile::Missing
    }

    fn root_dir(&self, dir: &WorkDir, roots: &Roots) -> (r: Result<String, VirtualEnvError>) {
        match &roots.pyenv_base {
            Some(base) => Ok(join_path(base.as_str(), "versions")),
            None => Err(VirtualEnvError::ConfigurationError),
        }
    }

    fn relevant(&self, dir: &WorkDir) -> (r: bool) {
        match &dir.python_version {
            MarkerFile::Missing => false,
            _ => true,
        }
    }

    fn venv_name(&self, dir: &WorkDir) -> (r: Result<String, VirtualEnvError>) {
        match &dir.python_version {
            MarkerFile::Present(content) => Ok(trim_text(content.as_str())),
            MarkerFile::Unreadable => Err(VirtualEnvError::IOError),
            MarkerFile::Missing => Err(VirtualEnvError::NotVirtualEnv(PYENV_MARKER.to_owned())),
        }
    }

    fn globs(&self) -> (r: Vec<&'static str>) {
        let mut r: Vec<&'static str> = Vec::new();
        r.push(PYENV_GLOB);
        r
    }

    fn list(&self, root: &str, hits: &Vec<GlobHit>) -> (r: Vec<String>) {
        get_venvs_by_glob(root, hits)
    }

    fn save(&self, dir: &mut WorkDir, name: &str) {
        dir.python_version = MarkerFile::Present(name.to_owned());
        dir.python_virtualenv = MarkerFile::Missing;
    }
}

} // verus!
