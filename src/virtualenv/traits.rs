use vstd::prelude::*;

use crate::errors::VirtualEnvError;
use crate::virtualenv::pyenv::DEFAULT_PYENV_ROOT;
use crate::virtualenv::utils::{
    distinct, expand_path, found_venvs, names, plain_path, trimmed, GlobHit,
};

verus! {

/// What stands in a directory under the name of a marker file.
#[derive(Debug, Clone, PartialEq, Eq)]
pub enum MarkerFile {
    /// No regular file of that name.
    Missing,
    /// A regular file that could not be read.
    Unreadable,
    /// A regular file with this content.
    Present(String),
}

/// The working directory, as far as the backends look at it.
#[derive(Debug, Clone, PartialEq, Eq)]
pub struct WorkDir {
    /// Its path.
    pub path: String,
    /// The `.python-version` file, which selects a pyenv environment.
    pub python_version: MarkerFile,
    /// The `.python-virtualenv` file, which selects a native environment.
    pub python_virtualenv: MarkerFile,
    /// Those of the local candidate names (see `Local::candidates`) under
    /// which the directory holds a virtual environment.
    pub local_envs: Vec<String>,
}

/// The base directories of the backends that keep environments elsewhere,
/// with `~` and variables expanded; `None` where the expansion failed.
#[derive(Debug, Clone, PartialEq, Eq)]
pub struct Roots {
    /// The configured base of the native backend.
    pub rsenv_base: Option<String>,
    /// `$PYENV_ROOT`, or `~/.pyenv` where it is not set.
    pub pyenv_base: Option<String>,
}

impl Roots {
    /// What pyenv's base is expanded from: `pyenv_root` (`$PYENV_ROOT`)
    /// where it is set, else `~/.pyenv`.
    pub fn pyenv_input(pyenv_root: Option<&String>) -> (r: &str)
        ensures
            r@ == pyenv_input_spec(opt_string(pyenv_root)),
    {
        match pyenv_root {
            Some(root) => root.as_str(),
            None => DEFAULT_PYENV_ROOT,
        }
    }

    /// Expands the base directories: the native one from the settings'
    /// `path`, pyenv's from `pyenv_input`. Expansion reads the environment;
    /// a path without `$` that does not start with `~` stays as it is.
    pub fn new(settings_path: &str, pyenv_root: Option<&String>) -> (r: Roots)
        ensures
            plain_path(settings_path@) ==> (r.rsenv_base matches Some(b) && b@
                == settings_path@),
            plain_path(pyenv_input_spec(opt_string(pyenv_root))) ==> (r.pyenv_base matches Some(
                b,
            ) && b@ == pyenv_input_spec(opt_string(pyenv_root))),
    {
        let pyenv = Roots::pyenv_input(pyenv_root);
        Roots { rsenv_base: expand_path(settings_path), pyenv_base: expand_path(pyenv) }
    }
}

pub open spec fn opt_string(s: Option<&String>) -> Option<Seq<char>> {
    match s {
        Some(t) => Some(t@),
        None => None,
    }
}

/// What pyenv's base is expanded from.
pub open spec fn pyenv_input_spec(pyenv_root: Option<Seq<char>>) -> Seq<char> {
    match pyenv_root {
        Some(root) => root,
        None => DEFAULT_PYENV_ROOT@,
    }
}

/// The name that a marker file selects: its trimmed content.
pub open spec fn marker_name(marker: MarkerFile) -> Option<Seq<char>> {
    match marker {
        MarkerFile::Present(content) => Some(trimmed(content@)),
        _ => None,
    }
}

/// `e` is how reading the marker file `file` fails.
pub open spec fn marker_error(marker: MarkerFile, file: Seq<char>, e: VirtualEnvError) -> bool {
    match marker {
        MarkerFile::Present(_) => false,
        MarkerFile::Unreadable => e == VirtualEnvError::IOError,
        MarkerFile::Missing => e matches VirtualEnvError::NotVirtualEnv(f) && f@ == file,
    }
}

/// What a backend can do: find its root directory, tell whether it applies
/// to a directory, name the environment selected there, list its
/// environments, and record a selection.
pub trait VirtualEnvCompatible {
    spec fn root_spec(&self, dir: WorkDir, roots: Roots) -> Option<Seq<char>>;

    spec fn relevant_spec(&self, dir: WorkDir) -> bool;

    /// The name of the environment that the directory selects, if any.
    spec fn name_spec(&self, dir: WorkDir) -> Option<Seq<char>>;

    /// `e` is how finding that name fails.
    spec fn name_error(&self, dir: WorkDir, e: VirtualEnvError) -> bool;

    /// Whether the environments that this backend lists come from globs.
    spec fn lists_spec(&self) -> bool;

    /// The globs, relative to the root directory, under which this backend's
    /// environments lie.
    spec fn globs_spec(&self) -> Seq<&'static str>;

    /// `after` is the directory `before` once this backend recorded `name` in it.
    spec fn saved_spec(&self, before: WorkDir, name: Seq<char>, after: WorkDir) -> bool;

    fn root_dir(&self, dir: &WorkDir, roots: &Roots) -> (r: Result<String, VirtualEnvError>)
        ensures
            r is Ok <==> self.root_spec(*dir, *roots) is Some,
            r matches Ok(p) ==> self.root_spec(*dir, *roots) == Some(p@),
            r is Err ==> r == Err::<String, VirtualEnvError>(VirtualEnvError::ConfigurationError),
    ;

    fn relevant(&self, dir: &WorkDir) -> (r: bool)
        ensures
            r == self.relevant_spec(*dir),
    ;

    fn venv_name(&self, dir: &WorkDir) -> (r: Result<String, VirtualEnvError>)
        ensures
            r is Ok <==> self.name_spec(*dir) is Some,
            r matches Ok(n) ==> self.name_spec(*dir) == Some(n@),
            r matches Err(e) ==> self.name_error(*dir, e),
    ;

    /// The globs, relative to the root directory, under which this backend's
    /// environments lie.
    fn globs(&self) -> (r: Vec<&'static str>)
        ensures
            r@ == self.globs_spec(),
            !self.lists_spec() ==> r@.len() == 0,
    ;

    /// The environments among `hits`, the paths that `globs` found under
    /// `root`, each named relative to `root`.
    fn list(&self, root: &str, hits: &Vec<GlobHit>) -> (r: Vec<String>)
        ensures
            self.lists_spec() ==> names(r@) == found_venvs(root@, hits@),
            !self.lists_spec() ==> r@.len() == 0,
            distinct(r@),
    ;

    fn save(&self, dir: &mut WorkDir, name: &str)
        ensures
            self.saved_spec(*old(dir), name@, *final(dir)),
    ;
}

} // verus!
