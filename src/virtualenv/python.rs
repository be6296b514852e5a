use vstd::prelude::*;

use crate::errors::PythonInterpreterError;
use crate::virtualenv::utils::{trim_text, trimmed};

verus! {

#[verifier::external_type_specification]
#[verifier::external_body]
pub struct ExPatternError(glob::PatternError);

/// Whether `glob::Pattern::new` accepts `pattern`.
pub uninterp spec fn glob_compiles(pattern: Seq<char>) -> bool;

/// Whether the compiled glob `pattern` matches the whole of `text`.
pub uninterp spec fn glob_matches(pattern: Seq<char>, text: Seq<char>) -> bool;

/// Relies on `glob::Pattern::new`, which compiles `pattern` or reports why it
/// cannot, and `glob::Pattern::matches`, which tells whether `text` matches it
/// with the default options. Both depend on their arguments alone.
#[verifier::external_body]
fn glob_is_match(pattern: &str, text: &str) -> (r: Result<bool, glob::PatternError>)
    ensures
        r is Ok <==> glob_compiles(pattern@),
        r matches Ok(m) ==> m == glob_matches(pattern@, text@),
{
    match glob::Pattern::new(pattern) {
        Ok(compiled) => Ok(compiled.matches(text)),
        Err(e) => Err(e),
    }
}

/// The shape that a version printed by the interpreter must have.
pub const VERSION_PATTERN: &'static str = "*.*.*";

/// What a run of `python -c "import platform; print(platform.python_version())"` gave.
#[derive(Debug, Clone, PartialEq, Eq)]
pub struct InterpreterOutput {
    /// The exit code; `None` when the process was ended by a signal.
    pub exit_code: Option<i32>,
    /// What it printed, or `None` when that was not UTF-8.
    pub stdout: Option<String>,
}

/// The version read from an interpreter's output, when the run succeeded and the
/// trimmed output has the shape of `VERSION_PATTERN`.
pub open spec fn version_of(output: InterpreterOutput) -> Option<Seq<char>> {
    match output.stdout {
        Some(text) => if output.exit_code == Some(0i32) && glob_compiles(VERSION_PATTERN@)
            && glob_matches(VERSION_PATTERN@, trimmed(text@)) {
            Some(trimmed(text@))
        } else {
            None
        },
        None => None,
    }
}

/// A Python interpreter and the version that it reported.
#[derive(Debug, Clone, PartialEq, Eq)]
pub struct PythonInterpreter {
    pub version: String,
    pub interpreter: String,
}

impl PythonInterpreter {
    pub fn new(interpreter: String, output: &InterpreterOutput) -> (r: Result<
        PythonInterpreter,
        PythonInterpreterError,
    >)
        ensures
            r is Ok <==> version_of(*output) is Some,
            r matches Ok(p) ==> (p.interpreter == interpreter && Some(p.version@) == version_of(
                *output,
            )),
            r is Err ==> r == Err::<PythonInterpreter, PythonInterpreterError>(
                PythonInterpreterError::UnableToDetectVersion,
            ),
    {
        let version = PythonInterpreter::detect_version(output)?;
        Ok(PythonInterpreter { version, interpreter })
    }

    pub fn detect_version(output: &InterpreterOutput) -> (r: Result<String, PythonInterpreterError>)
        ensures
            r is Ok <==> version_of(*output) is Some,
            r matches Ok(v) ==> Some(v@) == version_of(*output),
            r is Err ==> r == Err::<String, PythonInterpreterError>(
                PythonInterpreterError::UnableToDetectVersion,
            ),
    {
        let code_ok = match output.exit_code {
            Some(code) => code == 0,
            None => false,
        };
        if !code_ok {
            return Err(PythonInterpreterError::UnableToDetectVersion);
        }
        let text = match &output.stdout {
            Some(text) => text,
            None => {
                return Err(PythonInterpreterError::UnableToDetectVersion);
            },
        };
        let version = trim_text(text.as_str());
        match glob_is_match(VERSION_PATTERN, version.as_str()) {
            Ok(true) => Ok(version),
            _ => Err(PythonInterpreterError::UnableToDetectVersion),
        }
    }
}

} // verus!
