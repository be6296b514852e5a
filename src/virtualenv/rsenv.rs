use vstd::prelude::*;

use crate::errors::VirtualEnvError;
use crate::virtualenv::python::{version_of, InterpreterOutput, PythonInterpreter};
use crate::virtualenv::traits::{marker_error, marker_name, MarkerFile, Roots, VirtualEnvCompatible, WorkDir};
use crate::virtualenv::utils::{
    contains_name, found_venvs, get_venvs_by_glob, join_path, joined, names, trim_text, GlobHit,
};
use vstd::string::StringExecFns;

verus! {

#[verifier::external_type_specification]
#[verifier::external_body]
pub struct ExRegexError(regex::Error);

/// Whether `regex::Regex::new` accepts `pattern`.
pub uninterp spec fn regex_compiles(pattern: Seq<char>) -> bool;

/// Whether the compiled regular expression `pattern` matches somewhere in `haystack`.
pub uninterp spec fn regex_finds(pattern: Seq<char>, haystack: Seq<char>) -> bool;

/// Relies on `regex::Regex::new`, which compiles `pattern` or reports why it
/// cannot, and `regex::Regex::is_match`, which tells whether the compiled
/// expression matches somewhere in `haystack`. Both depend on their arguments alone.
#[verifier::external_body]
fn regex_is_match(pattern: &str, haystack: &str) -> (r: Result<bool, regex::Error>)
    ensures
        r is Ok <==> regex_compiles(pattern@),
        r matches Ok(m) ==> m == regex_finds(pattern@, haystack@),
{
    match regex::Regex::new(pattern) {
        Ok(compiled) => Ok(compiled.is_match(haystack)),
        Err(e) => Err(e),
    }
}

/// A name without a version: word characters, dots and underscores.
pub const PLAIN_NAME: &'static str = r"^[\w._]*$";

/// A name with a version in front: two plain names joined by one `/`.
pub const VERSIONED_NAME: &'static str = r"^[\w._]*\/[\w._]*$";

pub open spec fn pattern_accepts(pattern: Seq<char>, name: Seq<char>) -> bool {
    regex_compiles(pattern) && regex_finds(pattern, name)
}

/// The names that the native backend accepts for an environment.
pub open spec fn valid_name(name: Seq<char>) -> bool {
    pattern_accepts(PLAIN_NAME@, name) || pattern_accepts(VERSIONED_NAME@, name)
}

/// The file that selects a native environment for its directory.
pub const RSENV_MARKER: &'static str = ".python-virtualenv";

/// Where native environments with a version in front lie: `<version>/<name>`.
pub const VERSIONED_GLOB: &'static str = "*/*";

/// Where native environments without a version lie: `<name>`.
pub const FLAT_GLOB: &'static str = "*";

/// The directory under the configured base that holds the environments.
pub open spec fn venvs_root(roots: Roots) -> Option<Seq<char>> {
    match roots.rsenv_base {
        Some(base) => Some(joined(base@, "venvs"@)),
        None => None,
    }
}

/// The environments that the native backend lists from `hits`; none where
/// its root is unknown.
pub open spec fn existing_venvs(roots: Roots, hits: Seq<GlobHit>) -> Set<Seq<char>> {
    match venvs_root(roots) {
        Some(root) => found_venvs(root, hits),
        None => Set::empty(),
    }
}

/// A name with the version of its interpreter in front.
pub open spec fn with_version(version: Seq<char>, name: Seq<char>) -> Seq<char> {
    version + seq!['/'] + name
}

/// An environment that `create` decided to make: the interpreter makes it at
/// `path`, after `root` was created where it was missing.
#[derive(Debug, Clone, PartialEq, Eq)]
pub struct NewVenv {
    pub root: String,
    pub path: String,
    pub interpreter: PythonInterpreter,
}

fn rsenv_root(roots: &Roots) -> (r: Result<String, VirtualEnvError>)
    ensures
        r is Ok <==> venvs_root(*roots) is Some,
        r matches Ok(p) ==> venvs_root(*roots) == Some(p@),
        r is Err ==> r == Err::<String, VirtualEnvError>(VirtualEnvError::ConfigurationError),
{
    match &roots.rsenv_base {
        Some(base) => Ok(join_path(base.as_str(), "venvs")),
        None => Err(VirtualEnvError::ConfigurationError),
    }
}

fn existing(roots: &Roots, hits: &Vec<GlobHit>) -> (r: Vec<String>)
    ensures
        names(r@) == existing_venvs(*roots, hits@),
{
    match rsenv_root(roots) {
        Ok(root) => get_venvs_by_glob(root.as_str(), hits),
        Err(_) => {
            let r: Vec<String> = Vec::new();
            assert(names(r@) =~= Set::empty());
            r
        },
    }
}

/// The backend native to this tool: environments under a configured base
/// directory, selected by a `.python-virtualenv` file.
#[derive(Debug, Clone, Copy, PartialEq, Eq)]
pub struct Rsenv;

impl Rsenv {
    pub fn validate_name(name: &str) -> (r: Result<(), VirtualEnvError>)
        ensures
            r is Ok <==> valid_name(name@),
            r is Err ==> r == Err::<(), VirtualEnvError>(VirtualEnvError::IncorrectName),
    {
        if let Ok(true) = regex_is_match(PLAIN_NAME, name) {
            return Ok(());
        }
        if let Ok(true) = regex_is_match(VERSIONED_NAME, name) {
            return Ok(());
        }
        Err(VirtualEnvError::IncorrectName)
    }

    /// Decides on a new environment `name` for the interpreter `python`, whose
    /// version probe gave `output`; `hits` are what the globs of this backend
    /// found under its root. The environment goes to `<root>/<version>/<name>`.
    pub fn create(
        &self,
        name: &String,
        python: &String,
        output: &InterpreterOutput,
        roots: &Roots,
        hits: &Vec<GlobHit>,
    ) -> (r: Result<NewVenv, VirtualEnvError>)
        ensures
            version_of(*output) is None ==> r == Err::<NewVenv, VirtualEnvError>(
                VirtualEnvError::CreatingError,
            ),
            version_of(*output) matches Some(v) ==> {
                let taken = existing_venvs(*roots, hits@);
                if !valid_name(name@) {
                    r == Err::<NewVenv, VirtualEnvError>(VirtualEnvError::IncorrectName)
                } else if taken.contains(name@) || taken.contains(with_version(v, name@)) {
                    r matches Err(e) && e matches VirtualEnvError::AlreadyExists(n) && n@ == name@
                } else {
                    match venvs_root(*roots) {
                        None => r == Err::<NewVenv, VirtualEnvError>(
                            VirtualEnvError::ConfigurationError,
                        ),
                        Some(root) => r matches Ok(plan) && plan.root@ == root && plan.path@
                            == joined(joined(root, v), name@) && plan.interpreter.version@ == v
                            && plan.interpreter.interpreter == *python,
                    }
                }
            },
    {
        let interpreter = match PythonInterpreter::new(python.clone(), output) {
            Ok(interpreter) => interpreter,
            Err(_) => {
                return Err(VirtualEnvError::CreatingError);
            },
        };
        let sep = "/";
        proof {
            reveal_strlit("/");
        }
        let name_with_version = interpreter.version.clone().concat(sep).concat(name.as_str());
        assert(name_with_version@ =~= with_version(interpreter.version@, name@));
        let taken = existing(roots, hits);
        Rsenv::validate_name(name.as_str())?;
        if contains_name(&taken, name.as_str()) || contains_name(&taken, name_with_version.as_str()) {
            return Err(VirtualEnvError::AlreadyExists(name.clone()));
        }
        let root = rsenv_root(roots)?;
        let version_dir = join_path(root.as_str(), interpreter.version.as_str());
        let path = join_path(version_dir.as_str(), name.as_str());
        Ok(NewVenv { root, path, interpreter })
    }

    /// Decides on deleting the environment `name`: it must be valid and
    /// listed; the result is the directory to remove.
    pub fn delete(&self, name: String, roots: &Roots, hits: &Vec<GlobHit>) -> (r: Result<
        String,
        VirtualEnvError,
    >)
        ensures
            !valid_name(name@) ==> r == Err::<String, VirtualEnvError>(
                VirtualEnvError::IncorrectName,
            ),
            valid_name(name@) && !existing_venvs(*roots, hits@).contains(name@) ==> (r matches Err(
                e,
            ) && e matches VirtualEnvError::NotVirtualEnv(n) && n@ == name@),
            valid_name(name@) && existing_venvs(*roots, hits@).contains(name@) ==> (r matches Ok(
                p,
            ) && venvs_root(*roots) matches Some(root) && p@ == joined(root, name@)),
    {
        Rsenv::validate_name(name.as_str())?;
        let taken = existing(roots, hits);
        if !contains_name(&taken, name.as_str()) {
            return Err(VirtualEnvError::NotVirtualEnv(name));
        }
        let root = rsenv_root(roots)?;
        Ok(join_path(root.as_str(), name.as_str()))
    }
}

impl VirtualEnvCompatible for Rsenv {
    open spec fn root_spec(&self, dir: WorkDir, roots: Roots) -> Option<Seq<char>> {
        venvs_root(roots)
    }

    open spec fn relevant_spec(&self, dir: WorkDir) -> bool {
        !(dir.python_virtualenv is Missing)
    }

    open spec fn name_spec(&self, dir: WorkDir) -> Option<Seq<char>> {
        marker_name(dir.python_virtualenv)
    }

    open spec fn name_error(&self, dir: WorkDir, e: VirtualEnvError) -> bool {
        marker_error(dir.python_virtualenv, RSENV_MARKER@, e)
    }

    open spec fn lists_spec(&self) -> bool {
        true
    }

    open spec fn globs_spec(&self) -> Seq<&'static str> {
        seq![VERSIONED_GLOB, FLAT_GLOB]
    }

    open spec fn saved_spec(&self, before: WorkDir, name: Seq<char>, after: WorkDir) -> bool {
        &&& after.path == before.path
        &&& after.local_envs == before.local_envs
        &&& after.python_virtualenv matches MarkerFile::Present(content) && content@ == name
        &&& after.python_version == MarkerFile::Missing
    }

    fn root_dir(&self, dir: &WorkDir, roots: &Roots) -> (r: Result<String, VirtualEnvError>) {
        rsenv_root(roots)
    }

    fn relevant(&self, dir: &WorkDir) -> (r: bool) {
        match &dir.python_virtualenv {
            MarkerFile::Missing => false,
            _ => true,
        }
    }

    fn venv_name(&self, dir: &WorkDir) -> (r: Result<String, VirtualEnvError>) {
        match &dir.python_virtualenv {
            MarkerFile::Present(content) => Ok(trim_text(content.as_str())),
            MarkerFile::Unreadable => Err(VirtualEnvError::IOError),
            MarkerFile::Missing => Err(VirtualEnvError::NotVirtualEnv(RSENV_MARKER.to_owned())),
        }
    }

    fn globs(&self) -> (r: Vec<&'static str>) {
        let mut r: Vec<&'static str> = Vec::new();
        r.push(VERSIONED_GLOB);
        r.push(FLAT_GLOB);
        r
    }

    fn list(&self, root: &str, hits: &Vec<GlobHit>) -> (r: Vec<String>) {
        get_venvs_by_glob(root, hits)
    }

    fn save(&self, dir: &mut WorkDir, name: &str) {
        dir.python_virtualenv = MarkerFile::Present(name.to_owned());
        dir.python_version = MarkerFile::Missing;
    }
}

} // verus!
