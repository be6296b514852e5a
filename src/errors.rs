use vstd::prelude::*;
use vstd::string::StringExecFns;

verus! {

/// Why an operation on virtual environments failed.
#[derive(Debug, Clone, PartialEq, Eq)]
pub enum VirtualEnvError {
    VenvBuildError,
    NotVirtualEnv(String),
    VenvIsNotActive,
    AlreadyExists(String),
    CreatingError,
    IOError,
    ConfigurationError,
    IncorrectName,
    ShellDetectionError(String),
    TemplateError,
    AlreadyInstalled,
}

impl VirtualEnvError {
    /// The one-line message shown to the user.
    pub open spec fn message_spec(&self) -> Seq<char> {
        match self {
            VirtualEnvError::NotVirtualEnv(name) => name@ + " is not a valid virtual environment"@,
            VirtualEnvError::VenvBuildError => "Unable to detect virtual environment"@,
            VirtualEnvError::VenvIsNotActive => "Virtual environment is not active"@,
            VirtualEnvError::IOError => "Unknown I/O error."@,
            VirtualEnvError::AlreadyExists(name) => "Virtual environment "@ + name@
                + " already exists."@,
            VirtualEnvError::ConfigurationError => "Configuration error"@,
            VirtualEnvError::CreatingError => "Error while creating virtual environment"@,
            VirtualEnvError::IncorrectName => "Incorrect virtual environment name"@,
            VirtualEnvError::ShellDetectionError(name) => "Unable to detect shell from "@ + name@,
            VirtualEnvError::TemplateError => "Unable to render shell template"@,
            VirtualEnvError::AlreadyInstalled => "RSVENV already installed to config"@,
        }
    }

    pub fn message(&self) -> (r: String)
        ensures
            r@ == self.message_spec(),
    {
        match self {
            VirtualEnvError::NotVirtualEnv(name) => name.clone().concat(
                " is not a valid virtual environment",
            ),
            VirtualEnvError::VenvBuildError => String::from_str(
                "Unable to detect virtual environment",
            ),
            VirtualEnvError::VenvIsNotActive => String::from_str(
                "Virtual environment is not active",
            ),
            VirtualEnvError::IOError => String::from_str("Unknown I/O error."),
            VirtualEnvError::AlreadyExists(name) => String::from_str(
                "Virtual environment ",
            ).concat(name.as_str()).concat(" already exists."),
            VirtualEnvError::ConfigurationError => String::from_str("Configuration error"),
            VirtualEnvError::CreatingError => String::from_str(
                "Error while creating virtual environment",
            ),
            VirtualEnvError::IncorrectName => String::from_str(
                "Incorrect virtual environment name",
            ),
            VirtualEnvError::ShellDetectionError(name) => String::from_str(
                "Unable to detect shell from ",
            ).concat(name.as_str()),
            VirtualEnvError::TemplateError => String::from_str("Unable to render shell template"),
            VirtualEnvError::AlreadyInstalled => String::from_str(
                "RSVENV already installed to config",
            ),
        }
    }
}

/// A command of the tool failed; `command` names it.
#[derive(Debug, Clone, PartialEq, Eq)]
pub struct CommandExecutionError {
    pub command: String,
}

impl CommandExecutionError {
    pub open spec fn message_spec(&self) -> Seq<char> {
        "Error running command "@ + self.command@
    }

    pub fn message(&self) -> (r: String)
        ensures
            r@ == self.message_spec(),
    {
        String::from_str("Error running command ").concat(self.command.as_str())
    }
}

/// Running a Python interpreter failed.
#[derive(Debug, Clone, Copy, PartialEq, Eq)]
pub enum PythonInterpreterError {
    UnableToDetectVersion,
    CreateVenvError,
}

impl PythonInterpreterError {
    pub open spec fn message_spec(&self) -> Seq<char> {
        "Error running python interpreter"@
    }

    pub fn message(&self) -> (r: String)
        ensures
            r@ == self.message_spec(),
    {
        String::from_str("Error running python interpreter")
    }
}

} // verus!
