pub mod activate;
pub mod chdir_hook;
pub mod create;
pub mod deactivate;
pub mod delete;
pub mod init;
pub mod install;
pub mod list;
pub mod use_command;
