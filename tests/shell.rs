use rsvenv::commands::init;
use rsvenv::commands::install::{self, find_occurence};
use rsvenv::commands::list::{print_venvs, ListCommand};
use rsvenv::errors::{CommandExecutionError, PythonInterpreterError, VirtualEnvError};
use rsvenv::shell::SupportedShell;

#[test]
fn shells_are_known_by_name() {
    assert_eq!(SupportedShell::from_name("zsh"), Ok(SupportedShell::Zsh));
    assert_eq!(SupportedShell::from_name("bash"), Ok(SupportedShell::Bash));
    assert_eq!(SupportedShell::from_name("fish"), Ok(SupportedShell::Fish));
    assert_eq!(
        SupportedShell::from_name("tcsh"),
        Err(VirtualEnvError::ShellDetectionError(String::from("tcsh")))
    );
}

#[test]
fn each_shell_has_its_hook() {
    assert!(SupportedShell::Zsh.get_hook().contains("precmd_functions"));
    assert!(SupportedShell::Bash.get_hook().contains("PROMPT_COMMAND"));
    assert!(SupportedShell::Fish.get_hook().contains("--on-event fish_prompt"));
    assert_eq!(init::Command {}.execute(SupportedShell::Fish), SupportedShell::Fish.get_hook());
}

#[test]
fn activation_script_depends_on_the_shell() {
    assert_eq!(SupportedShell::Fish.get_activate_path("/e"), "/e/bin/activate.fish");
    assert_eq!(SupportedShell::Zsh.get_activate_path("/e"), "/e/bin/activate");
}

#[test]
fn rendered_fragments() {
    assert_eq!(
        SupportedShell::Zsh.render_activate("/e", "/w").unwrap(),
        "\nsource /e/bin/activate\nexport RSVENV_ACTIVATE_PATH=/w\n"
    );
    assert_eq!(
        SupportedShell::Fish.render_deactivate(false).unwrap(),
        "\nset -e RSVENV_DEACTIVATE_PATH\ndeactivate\n\n"
    );
}

#[test]
fn init_line_is_added_once() {
    let cmd = install::Command {};
    assert_eq!(cmd.execute(SupportedShell::Bash, "export A=1\n"), Ok(r#"eval "$(rsvenv init)""#));
    assert_eq!(
        cmd.execute(SupportedShell::Bash, "export A=1\neval \"$(rsvenv init)\"\n"),
        Err(VirtualEnvError::AlreadyInstalled)
    );
    assert_eq!(
        cmd.execute(SupportedShell::Fish, ""),
        Ok("status --is-interactive; and source (rsvenv init |psub)")
    );
}

#[test]
fn occurrence_is_searched_within_lines() {
    assert!(find_occurence("abc\ndef", "de"));
    assert!(!find_occurence("abc\ndef", "c\nd"));
    assert!(!find_occurence("abc", "abcd"));
    assert!(find_occurence("abc", ""));
}

#[test]
fn listing_has_a_section_per_backend() {
    let rsenv = vec![String::from("3.9.0/foo"), String::from("bar")];
    let out = ListCommand {}.execute(&rsenv, &vec![]);
    assert_eq!(out, "Rsenv environments:\n\t3.9.0/foo\n\tbar\n");
    let py = vec![String::from("3.11.4/envs/myenv")];
    assert_eq!(
        ListCommand {}.execute(&vec![], &py),
        "Pyenv environments:\n\t3.11.4/envs/myenv\n"
    );
    assert_eq!(ListCommand {}.execute(&vec![], &vec![]), "");
    assert_eq!(print_venvs(&vec![]), "");
}

#[test]
fn error_messages() {
    assert_eq!(
        VirtualEnvError::NotVirtualEnv(String::from("x")).message(),
        "x is not a valid virtual environment"
    );
    assert_eq!(
        VirtualEnvError::AlreadyExists(String::from("foo")).message(),
        "Virtual environment foo already exists."
    );
    assert_eq!(VirtualEnvError::VenvIsNotActive.message(), "Virtual environment is not active");
    assert_eq!(VirtualEnvError::IncorrectName.message(), "Incorrect virtual environment name");
    assert_eq!(VirtualEnvError::IOError.message(), "Unknown I/O error.");
    assert_eq!(VirtualEnvError::ConfigurationError.message(), "Configuration error");
    assert_eq!(
        VirtualEnvError::CreatingError.message(),
        "Error while creating virtual environment"
    );
    assert_eq!(VirtualEnvError::VenvBuildError.message(), "Unable to detect virtual environment");
    assert_eq!(
        CommandExecutionError { command: String::from("hook") }.message(),
        "Error running command hook"
    );
    assert_eq!(
        PythonInterpreterError::CreateVenvError.message(),
        "Error running python interpreter"
    );
}
