//! The command-line model: the arguments of each sub-command and the
//! accessors that pick out the one that was given.
pub mod args;
pub mod cli_interface;
pub mod desktop_args;
pub mod error;
pub mod web_args;
pub mod web_cmd;
