use vstd::prelude::*;

verus! {

/// How verbose the log is, where the settings do not say.
pub const DEFAULT_VERBOSITY: i32 = 1;

/// The base directory of the native backend, where the settings do not say.
pub const DEFAULT_PATH: &'static str = "~/.rsenv";

/// The tool's settings, read once at start.
#[derive(Debug, Clone, PartialEq, Eq)]
pub struct Settings {
    pub verbosity: i32,
    /// The base directory of the native backend; `~` and variables are expanded.
    pub path: String,
}

} // verus!
