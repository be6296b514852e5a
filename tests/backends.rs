use rsvenv::commands::create::CreateCommand;
use rsvenv::commands::delete::DeleteCommand;
use rsvenv::commands::use_command::UseCommand;
use rsvenv::errors::VirtualEnvError;
use rsvenv::shell::SupportedShell;
use rsvenv::virtualenv::local::Local;
use rsvenv::virtualenv::python::InterpreterOutput;
use rsvenv::virtualenv::rsenv::Rsenv;
use rsvenv::virtualenv::traits::{MarkerFile, Roots, VirtualEnvCompatible, WorkDir};
use rsvenv::virtualenv::utils::GlobHit;
use rsvenv::virtualenv::{Backend, VirtualEnvironment};
use std::collections::HashSet;

fn dir(path: &str, version: MarkerFile, virtualenv: MarkerFile, local: &[&str]) -> WorkDir {
    WorkDir {
        path: String::from(path),
        python_version: version,
        python_virtualenv: virtualenv,
        local_envs: local.iter().map(|s| String::from(*s)).collect(),
    }
}

fn present(s: &str) -> MarkerFile {
    MarkerFile::Present(String::from(s))
}

fn roots() -> Roots {
    Roots { rsenv_base: Some(String::from("/base")), pyenv_base: Some(String::from("/py")) }
}

fn hit(path: &str, is_env: bool) -> GlobHit {
    GlobHit { path: String::from(path), is_env }
}

fn output(version: &str) -> InterpreterOutput {
    InterpreterOutput { exit_code: Some(0), stdout: Some(format!("{version}\n")) }
}

#[test]
fn native_marker_wins_over_pyenv_marker() {
    let d = dir("/proj", present("a"), present("b"), &["venv"]);
    let v = VirtualEnvironment::detect(&d, SupportedShell::Bash).unwrap();
    assert_eq!(v.kind, Backend::Rsenv);
    assert_eq!(v.shell, SupportedShell::Bash);
}

#[test]
fn pyenv_marker_wins_over_local_environment() {
    let d = dir("/proj", present("a"), MarkerFile::Missing, &["venv"]);
    assert_eq!(VirtualEnvironment::detect(&d, SupportedShell::Zsh).unwrap().kind, Backend::Pyenv);
    let unreadable = dir("/proj", MarkerFile::Unreadable, MarkerFile::Missing, &[]);
    assert_eq!(
        VirtualEnvironment::detect(&unreadable, SupportedShell::Zsh).unwrap().kind,
        Backend::Pyenv
    );
}

#[test]
fn local_environment_is_the_last_resort() {
    let d = dir("/proj", MarkerFile::Missing, MarkerFile::Missing, &[".virtualenv"]);
    assert_eq!(VirtualEnvironment::detect(&d, SupportedShell::Fish).unwrap().kind, Backend::Local);
    let empty = dir("/proj", MarkerFile::Missing, MarkerFile::Missing, &[]);
    assert_eq!(VirtualEnvironment::detect(&empty, SupportedShell::Fish), None);
}

#[test]
fn local_candidates_are_tried_in_order() {
    let d = dir("/proj", MarkerFile::Missing, MarkerFile::Missing, &[".virtualenv", ".venv"]);
    assert_eq!(Local.venv_name(&d), Ok(String::from(".venv")));
    assert_eq!(Local::candidates(), vec!["venv", ".venv", "virtualenv", ".virtualenv"]);
    let none = dir("/proj", MarkerFile::Missing, MarkerFile::Missing, &["env"]);
    assert_eq!(Local.venv_name(&none), Err(VirtualEnvError::NotVirtualEnv(String::from("/proj"))));
}

#[test]
fn marker_content_is_trimmed() {
    let d = dir("/proj", MarkerFile::Missing, present("  envA \n"), &[]);
    assert_eq!(Rsenv.venv_name(&d), Ok(String::from("envA")));
}

#[test]
fn missing_or_unreadable_marker_fails() {
    let missing = dir("/proj", MarkerFile::Missing, MarkerFile::Missing, &[]);
    assert_eq!(
        Rsenv.venv_name(&missing),
        Err(VirtualEnvError::NotVirtualEnv(String::from(".python-virtualenv")))
    );
    let unreadable = dir("/proj", MarkerFile::Missing, MarkerFile::Unreadable, &[]);
    assert_eq!(Rsenv.venv_name(&unreadable), Err(VirtualEnvError::IOError));
}

#[test]
fn save_then_venv_name_round_trips() {
    let mut d = dir("/proj", present("3.11.4"), MarkerFile::Missing, &[]);
    Backend::Rsenv.save(&mut d, "envA");
    assert_eq!(Backend::Rsenv.venv_name(&d), Ok(String::from("envA")));
    assert_eq!(d.python_version, MarkerFile::Missing);
    Backend::Pyenv.save(&mut d, "3.11.4/envs/x");
    assert_eq!(Backend::Pyenv.venv_name(&d), Ok(String::from("3.11.4/envs/x")));
    assert_eq!(d.python_virtualenv, MarkerFile::Missing);
}

#[test]
fn roots_of_the_backends() {
    let d = dir("/proj", MarkerFile::Missing, MarkerFile::Missing, &[]);
    assert_eq!(Backend::Rsenv.root_dir(&d, &roots()), Ok(String::from("/base/venvs")));
    assert_eq!(Backend::Pyenv.root_dir(&d, &roots()), Ok(String::from("/py/versions")));
    assert_eq!(Backend::Local.root_dir(&d, &roots()), Ok(String::from("/proj")));
    let broken = Roots { rsenv_base: None, pyenv_base: None };
    assert_eq!(Backend::Rsenv.root_dir(&d, &broken), Err(VirtualEnvError::ConfigurationError));
}

#[test]
fn expansion_replaces_the_tilde() {
    let r = Roots::new("~/.rsenv", None);
    let base = r.rsenv_base.unwrap();
    assert!(!base.starts_with('~'));
    assert!(base.ends_with("/.rsenv"));
    assert!(r.pyenv_base.unwrap().ends_with("/.pyenv"));
}

#[test]
fn path_uses_the_given_name_or_the_marker() {
    let d = dir("/proj", MarkerFile::Missing, present("envA"), &[]);
    let v = VirtualEnvironment::new(Backend::Rsenv, SupportedShell::Bash);
    assert_eq!(v.location(None, &d, &roots()), Ok(String::from("/base/venvs/envA")));
    assert_eq!(v.path(None, &d, &roots(), true), Ok(String::from("/base/venvs/envA")));
    let name = String::from("3.9.0/foo");
    assert_eq!(v.path(Some(&name), &d, &roots(), true), Ok(String::from("/base/venvs/3.9.0/foo")));
    let no_marker = dir("/proj", MarkerFile::Missing, MarkerFile::Missing, &[]);
    assert_eq!(
        v.path(Some(&name), &no_marker, &roots(), true),
        Ok(String::from("/base/venvs/3.9.0/foo"))
    );
    assert_eq!(
        v.path(None, &no_marker, &roots(), true),
        Err(VirtualEnvError::NotVirtualEnv(String::from(".python-virtualenv")))
    );
}

#[test]
fn plain_bases_are_kept_as_given() {
    let py = String::from("/opt/pyenv");
    let r = Roots::new("/srv/rsenv", Some(&py));
    assert_eq!(r.rsenv_base, Some(String::from("/srv/rsenv")));
    assert_eq!(r.pyenv_base, Some(String::from("/opt/pyenv")));
    assert_eq!(Roots::pyenv_input(None), "~/.pyenv");
    assert_eq!(Roots::pyenv_input(Some(&py)), "/opt/pyenv");
}

#[test]
fn rsenv_create_collision() {
    let existing = vec![hit("/base/venvs/3.11.4", false), hit("/base/venvs/3.11.4/foo", true)];
    let cmd = CreateCommand { python: String::from("python3.11"), name: String::from("foo") };
    assert_eq!(
        cmd.execute(&output("3.11.4"), &roots(), &existing),
        Err(VirtualEnvError::AlreadyExists(String::from("foo")))
    );
    let other = CreateCommand { python: String::from("python3.9"), name: String::from("foo") };
    let plan = other.execute(&output("3.9.0"), &roots(), &existing).unwrap();
    assert_eq!(plan.path, "/base/venvs/3.9.0/foo");
    assert_eq!(plan.root, "/base/venvs");
    assert_eq!(plan.interpreter.version, "3.9.0");
    let after = vec![
        hit("/base/venvs/3.11.4", false),
        hit("/base/venvs/3.9.0", false),
        hit("/base/venvs/3.11.4/foo", true),
        hit("/base/venvs/3.9.0/foo", true),
    ];
    let listed: HashSet<String> = Rsenv.list("/base/venvs", &after).into_iter().collect();
    assert_eq!(
        listed,
        HashSet::from([String::from("3.11.4/foo"), String::from("3.9.0/foo")])
    );
}

#[test]
fn create_checks_interpreter_then_name() {
    let cmd = CreateCommand { python: String::from("python"), name: String::from("bad name") };
    let broken = InterpreterOutput { exit_code: Some(1), stdout: None };
    assert_eq!(cmd.execute(&broken, &roots(), &vec![]), Err(VirtualEnvError::CreatingError));
    assert_eq!(cmd.execute(&output("3.9.0"), &roots(), &vec![]), Err(VirtualEnvError::IncorrectName));
    let good = CreateCommand { python: String::from("python"), name: String::from("x") };
    let no_root = Roots { rsenv_base: None, pyenv_base: None };
    assert_eq!(
        good.execute(&output("3.9.0"), &no_root, &vec![]),
        Err(VirtualEnvError::ConfigurationError)
    );
}

#[test]
fn create_sees_a_flat_name_as_taken() {
    let existing = vec![hit("/base/venvs/foo", true)];
    let cmd = CreateCommand { python: String::from("python"), name: String::from("foo") };
    assert_eq!(
        cmd.execute(&output("3.9.0"), &roots(), &existing),
        Err(VirtualEnvError::AlreadyExists(String::from("foo")))
    );
}

#[test]
fn delete_needs_a_listed_environment() {
    let existing = vec![hit("/base/venvs/3.9.0/foo", true)];
    let ok = DeleteCommand { venv: String::from("3.9.0/foo") };
    assert_eq!(ok.execute(&roots(), &existing), Ok(String::from("/base/venvs/3.9.0/foo")));
    let unknown = DeleteCommand { venv: String::from("bar") };
    assert_eq!(
        unknown.execute(&roots(), &existing),
        Err(VirtualEnvError::NotVirtualEnv(String::from("bar")))
    );
    let bad = DeleteCommand { venv: String::from("../x!") };
    assert_eq!(bad.execute(&roots(), &existing), Err(VirtualEnvError::IncorrectName));
}

#[test]
fn pyenv_listing() {
    let root = "/py/versions";
    let hits = vec![
        hit("/py/versions/3.11.4/envs/myenv", true),
        hit("/py/versions/3.11.4/envs/broken", false),
    ];
    let d = dir("/proj", MarkerFile::Missing, MarkerFile::Missing, &[]);
    assert_eq!(Backend::Pyenv.list(root, &hits), vec![String::from("3.11.4/envs/myenv")]);
    assert_eq!(
        Backend::Pyenv.listed(&d, &roots(), &hits),
        vec![String::from("3.11.4/envs/myenv")]
    );
    assert_eq!(Backend::Pyenv.globs(), vec!["*/envs/*"]);
    assert_eq!(Backend::Rsenv.globs(), vec!["*/*", "*"]);
    assert!(Backend::Local.globs().is_empty());
}

#[test]
fn use_prefers_the_native_backend() {
    let mut d = dir("/proj", present("old"), MarkerFile::Missing, &[]);
    let cmd = UseCommand { venv: String::from("envA") };
    let rsenv_hits = vec![hit("/base/venvs/envA", true)];
    let pyenv_hits = vec![hit("/py/versions/3.9.0/envs/envA", true)];
    assert_eq!(cmd.execute(&mut d, &roots(), &rsenv_hits, &pyenv_hits), Ok(Backend::Rsenv));
    assert_eq!(d.python_virtualenv, present("envA"));
    assert_eq!(d.python_version, MarkerFile::Missing);
}

#[test]
fn use_falls_back_to_pyenv_and_fails_on_unknown_names() {
    let mut d = dir("/proj", MarkerFile::Missing, present("old"), &[]);
    let cmd = UseCommand { venv: String::from("3.9.0/envs/envA") };
    let pyenv_hits = vec![hit("/py/versions/3.9.0/envs/envA", true)];
    assert_eq!(cmd.execute(&mut d, &roots(), &vec![], &pyenv_hits), Ok(Backend::Pyenv));
    assert_eq!(d.python_version, present("3.9.0/envs/envA"));
    assert_eq!(d.python_virtualenv, MarkerFile::Missing);
    let before = d.clone();
    let unknown = UseCommand { venv: String::from("nope") };
    assert_eq!(
        unknown.execute(&mut d, &roots(), &vec![], &pyenv_hits),
        Err(VirtualEnvError::NotVirtualEnv(String::from("nope")))
    );
    assert_eq!(d, before);
}
