//! Per-directory Python virtual environments: which environment belongs to a
//! directory, where it lives, and the shell code that activates or deactivates it.
pub mod arguments;
pub mod commands;
pub mod configuration;
pub mod errors;
pub mod shell;
pub mod virtualenv;
