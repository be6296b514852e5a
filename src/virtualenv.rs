pub mod local;
pub mod pyenv;
pub mod python;
pub mod rsenv;
pub mod traits;
pub mod utils;

use vstd::prelude::*;

use crate::errors::VirtualEnvError;
use crate::shell::SupportedShell;
use local::Local;
use pyenv::Pyenv;
use rsenv::Rsenv;
use traits::{VirtualEnvCompatible, WorkDir, Roots};
use utils::{distinct, found_venvs, is_virtualenv, join_path, joined, names, trimmed, GlobHit};

verus! {

/// One of the three backends.
#[derive(Debug, Clone, Copy, PartialEq, Eq, Structural)]
pub enum Backend {
    Local,
    Pyenv,
    Rsenv,
}

impl Backend {
    pub open spec fn relevant_spec(self, dir: WorkDir) -> bool {
        match self {
            Backend::Local => Local.relevant_spec(dir),
            Backend::Pyenv => Pyenv.relevant_spec(dir),
            Backend::Rsenv => Rsenv.relevant_spec(dir),
        }
    }

    pub open spec fn root_spec(self, dir: WorkDir, roots: Roots) -> Option<Seq<char>> {
        match self {
            Backend::Local => Local.root_spec(dir, roots),
            Backend::Pyenv => Pyenv.root_spec(dir, roots),
            Backend::Rsenv => Rsenv.root_spec(dir, roots),
        }
    }

    pub open spec fn name_spec(self, dir: WorkDir) -> Option<Seq<char>> {
        match self {
            Backend::Local => Local.name_spec(dir),
            Backend::Pyenv => Pyenv.name_spec(dir),
            Backend::Rsenv => Rsenv.name_spec(dir),
        }
    }

    pub open spec fn name_error(self, dir: WorkDir, e: VirtualEnvError) -> bool {
        match self {
            Backend::Local => Local.name_error(dir, e),
            Backend::Pyenv => Pyenv.name_error(dir, e),
            Backend::Rsenv => Rsenv.name_error(dir, e),
        }
    }

    pub open spec fn globs_spec(self) -> Seq<&'static str> {
        match self {
            Backend::Local => Local.globs_spec(),
            Backend::Pyenv => Pyenv.globs_spec(),
            Backend::Rsenv => Rsenv.globs_spec(),
        }
    }

    pub open spec fn lists_spec(self) -> bool {
        match self {
            Backend::Local => Local.lists_spec(),
            Backend::Pyenv => Pyenv.lists_spec(),
            Backend::Rsenv => Rsenv.lists_spec(),
        }
    }

    /// `after` is `before` once this backend recorded `name` in it.
    pub open spec fn saved_spec(self, before: WorkDir, name: Seq<char>, after: WorkDir) -> bool {
        match self {
            Backend::Local => Local.saved_spec(before, name, after),
            Backend::Pyenv => Pyenv.saved_spec(before, name, after),
            Backend::Rsenv => Rsenv.saved_spec(before, name, after),
        }
    }

    /// The environments that this backend lists from `hits`; none where its
    /// root directory is unknown.
    pub open spec fn listed_spec(self, dir: WorkDir, roots: Roots, hits: Seq<GlobHit>) -> Set<Seq<char>> {
        match self.root_spec(dir, roots) {
            Some(root) => if self.lists_spec() {
                found_venvs(root, hits)
            } else {
                Set::empty()
            },
            None => Set::empty(),
        }
    }

    pub fn relevant(&self, dir: &WorkDir) -> (r: bool)
        ensures
            r == self.relevant_spec(*dir),
    {
        match self {
            Backend::Local => Local.relevant(dir),
            Backend::Pyenv => Pyenv.relevant(dir),
            Backend::Rsenv => Rsenv.relevant(dir),
        }
    }

    pub fn root_dir(&self, dir: &WorkDir, roots: &Roots) -> (r: Result<String, VirtualEnvError>)
        ensures
            r is Ok <==> self.root_spec(*dir, *roots) is Some,
            r matches Ok(p) ==> self.root_spec(*dir, *roots) == Some(p@),
            r is Err ==> r == Err::<String, VirtualEnvError>(VirtualEnvError::ConfigurationError),
    {
        match self {
            Backend::Local => Local.root_dir(dir, roots),
            Backend::Pyenv => Pyenv.root_dir(dir, roots),
            Backend::Rsenv => Rsenv.root_dir(dir, roots),
        }
    }

    pub fn venv_name(&self, dir: &WorkDir) -> (r: Result<String, VirtualEnvError>)
        ensures
            r is Ok <==> self.name_spec(*dir) is Some,
            r matches Ok(n) ==> self.name_spec(*dir) == Some(n@),
            r matches Err(e) ==> self.name_error(*dir, e),
    {
        match self {
            Backend::Local => Local.venv_name(dir),
            Backend::Pyenv => Pyenv.venv_name(dir),
            Backend::Rsenv => Rsenv.venv_name(dir),
        }
    }

    /// The globs, relative to the root directory, under which this
    /// backend's environments lie.
    pub fn globs(&self) -> (r: Vec<&'static str>)
        ensures
            r@ == self.globs_spec(),
            !self.lists_spec() ==> r@.len() == 0,
    {
        match self {
            Backend::Local => Local.globs(),
            Backend::Pyenv => Pyenv.globs(),
            Backend::Rsenv => Rsenv.globs(),
        }
    }

    pub fn list(&self, root: &str, hits: &Vec<GlobHit>) -> (r: Vec<String>)
        ensures
            self.lists_spec() ==> names(r@) == found_venvs(root@, hits@),
            !self.lists_spec() ==> r@.len() == 0,
            distinct(r@),
    {
        match self {
            Backend::Local => Local.list(root, hits),
            Backend::Pyenv => Pyenv.list(root, hits),
            Backend::Rsenv => Rsenv.list(root, hits),
        }
    }

    /// Records in `dir` that `name` is its environment; only the native and
    /// pyenv backends keep such a record.
    pub fn save(&self, dir: &mut WorkDir, name: &str)
        ensures
            self.saved_spec(*old(dir), name@, *final(dir)),
    {
        match self {
            Backend::Local => Local.save(dir, name),
            Backend::Pyenv => Pyenv.save(dir, name),
            Backend::Rsenv => Rsenv.save(dir, name),
        }
    }

    /// The environments of this backend: those among `hits` (what its globs
    /// found under its root directory), or none where the root is unknown.
    pub fn listed(&self, dir: &WorkDir, roots: &Roots, hits: &Vec<GlobHit>) -> (r: Vec<String>)
        ensures
            names(r@) == self.listed_spec(*dir, *roots, hits@),
            distinct(r@),
    {
        match self.root_dir(dir, roots) {
            Ok(root) => {
                let r = self.list(root.as_str(), hits);
                proof {
                    if !self.lists_spec() {
                        assert(names(r@) =~= Set::empty());
                    }
                }
                r
            },
            Err(_) => {
                let r: Vec<String> = Vec::new();
                assert(names(r@) =~= Set::empty());
                r
            },
        }
    }
}

/// Recording `name` as the directory's environment and reading the name back
/// gives `name`, trimmed; the marker file of the other backend is gone, and
/// the backend applies to the directory.
pub proof fn lemma_save_round_trip(kind: Backend, before: WorkDir, name: Seq<char>, after: WorkDir)
    requires
        kind != Backend::Local,
        kind.saved_spec(before, name, after),
    ensures
        kind.name_spec(after) == Some(trimmed(name)),
        kind.relevant_spec(after),
        kind == Backend::Rsenv ==> after.python_version is Missing,
        kind == Backend::Pyenv ==> after.python_virtualenv is Missing,
{
}

/// The backend that applies to `dir`: the native one, then pyenv, then a
/// local environment, whichever is relevant first.
pub open spec fn detected(dir: WorkDir) -> Option<Backend> {
    if Rsenv.relevant_spec(dir) {
        Some(Backend::Rsenv)
    } else if Pyenv.relevant_spec(dir) {
        Some(Backend::Pyenv)
    } else if Local.relevant_spec(dir) {
        Some(Backend::Local)
    } else {
        None
    }
}

/// Where an environment lies: `name`, or else the name that `dir` selects,
/// under the backend's root directory.
pub open spec fn path_spec(kind: Backend, name: Option<Seq<char>>, dir: WorkDir, roots: Roots) -> Option<
    Seq<char>,
> {
    let chosen = match name {
        Some(n) => Some(n),
        None => kind.name_spec(dir),
    };
    match (chosen, kind.root_spec(dir, roots)) {
        (Some(n), Some(root)) => Some(joined(root, n)),
        _ => None,
    }
}

pub open spec fn opt_view(name: Option<&String>) -> Option<Seq<char>> {
    match name {
        Some(n) => Some(n@),
        None => None,
    }
}

/// `e` is how finding where the environment lies fails: the directory
/// selects none where no name is given, or the root is unknown.
pub open spec fn location_error(
    kind: Backend,
    name: Option<&String>,
    dir: WorkDir,
    e: VirtualEnvError,
) -> bool {
    ||| (name is None && kind.name_spec(dir) is None && kind.name_error(dir, e))
    ||| e == VirtualEnvError::ConfigurationError
}

/// A backend together with the shell that its fragments are written for.
#[derive(Debug, Clone, Copy, PartialEq, Eq)]
pub struct VirtualEnvironment {
    pub kind: Backend,
    pub shell: SupportedShell,
}

impl VirtualEnvironment {
    pub fn new(kind: Backend, shell: SupportedShell) -> (r: VirtualEnvironment)
        ensures
            r.kind == kind,
            r.shell == shell,
    {
        VirtualEnvironment { kind, shell }
    }

    pub fn list(&self, root: &str, hits: &Vec<GlobHit>) -> (r: Vec<String>)
        ensures
            self.kind.lists_spec() ==> names(r@) == found_venvs(root@, hits@),
            !self.kind.lists_spec() ==> r@.len() == 0,
            distinct(r@),
    {
        self.kind.list(root, hits)
    }

    /// The backend that applies to `dir`, if any, in the order native,
    /// pyenv, local.
    pub fn detect(dir: &WorkDir, shell: SupportedShell) -> (r: Option<VirtualEnvironment>)
        ensures
            r is None <==> detected(*dir) is None,
            r matches Some(v) ==> (Some(v.kind) == detected(*dir) && v.shell == shell),
    {
        if Backend::Rsenv.relevant(dir) {
            return Some(VirtualEnvironment::new(Backend::Rsenv, shell));
        }
        if Backend::Pyenv.relevant(dir) {
            return Some(VirtualEnvironment::new(Backend::Pyenv, shell));
        }
        if Backend::Local.relevant(dir) {
            return Some(VirtualEnvironment::new(Backend::Local, shell));
        }
        None
    }

    /// Where the environment `name`, or the one that `dir` selects where no
    /// name is given, would lie: under the backend's root. Whether it is an
    /// environment is for `path` to check.
    pub fn location(&self, name: Option<&String>, dir: &WorkDir, roots: &Roots) -> (r: Result<
        String,
        VirtualEnvError,
    >)
        ensures
            r is Ok <==> path_spec(self.kind, opt_view(name), *dir, *roots) is Some,
            r matches Ok(p) ==> path_spec(self.kind, opt_view(name), *dir, *roots) == Some(p@),
            r matches Err(e) ==> location_error(self.kind, name, *dir, e),
    {
        let chosen = match name {
            Some(n) => n.clone(),
            None => self.kind.venv_name(dir)?,
        };
        let root = self.kind.root_dir(dir, roots)?;
        Ok(join_path(root.as_str(), chosen.as_str()))
    }

    /// The directory of the environment `name`, or of the one that `dir`
    /// selects, under the backend's root, when it is a virtual environment.
    /// `script_is_file` tells whether `bin/activate` under `location` is a
    /// regular file.
    pub fn path(
        &self,
        name: Option<&String>,
        dir: &WorkDir,
        roots: &Roots,
        script_is_file: bool,
    ) -> (r: Result<String, VirtualEnvError>)
        ensures
            r is Ok <==> (path_spec(self.kind, opt_view(name), *dir, *roots) is Some
                && script_is_file),
            r matches Ok(p) ==> path_spec(self.kind, opt_view(name), *dir, *roots) == Some(p@),
            path_spec(self.kind, opt_view(name), *dir, *roots) matches Some(l) ==> (
            !script_is_file ==> (r matches Err(e) && e matches VirtualEnvError::NotVirtualEnv(p)
                && p@ == l)),
            r matches Err(e) ==> (path_spec(self.kind, opt_view(name), *dir, *roots) is None
                ==> location_error(self.kind, name, *dir, e)),
    {
        let location = self.location(name, dir, roots)?;
        is_virtualenv(location.as_str(), script_is_file)?;
        Ok(location)
    }

    /// The fragment that activates the environment `name`, or the one that
    /// `dir` selects, entered in `dir`; `script_is_file` as for `path`.
    pub fn activate(
        &self,
        name: Option<&String>,
        dir: &WorkDir,
        roots: &Roots,
        script_is_file: bool,
    ) -> (r: Result<String, VirtualEnvError>)
        ensures
            r is Ok <==> (path_spec(self.kind, opt_view(name), *dir, *roots) is Some
                && script_is_file),
            r matches Ok(s) ==> (path_spec(self.kind, opt_view(name), *dir, *roots) matches Some(l)
                && s@ == self.shell.activate_fragment(l, dir.path@)),
            path_spec(self.kind, opt_view(name), *dir, *roots) matches Some(l) ==> (
            !script_is_file ==> (r matches Err(e) && e matches VirtualEnvError::NotVirtualEnv(p)
                && p@ == l)),
            r matches Err(e) ==> (path_spec(self.kind, opt_view(name), *dir, *roots) is None
                ==> location_error(self.kind, name, *dir, e)),
    {
        let path = self.path(name, dir, roots, script_is_file)?;
        self.shell.render_activate(path.as_str(), dir.path.as_str())
    }

    /// The fragment that deactivates the environment named by `virtual_env`
    /// (the `VIRTUAL_ENV` variable); there must be one.
    pub fn deactivate(force: bool, virtual_env: Option<&String>, shell: SupportedShell) -> (r: Result<
        String,
        VirtualEnvError,
    >)
        ensures
            virtual_env is None ==> r == Err::<String, VirtualEnvError>(
                VirtualEnvError::VenvIsNotActive,
            ),
            virtual_env is Some ==> r is Ok,
            r matches Ok(s) ==> s@ == shell.deactivate_fragment(force),
    {
        if virtual_env.is_none() {
            return Err(VirtualEnvError::VenvIsNotActive);
        }
        shell.render_deactivate(force)
    }
}

} // verus!
