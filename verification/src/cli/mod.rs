//! The command line of netbeat: its commands, their arguments, and the grammar by
//! which a list of words is read into them.

pub mod args;
pub mod commands;
pub mod dispatch;
pub mod grammar;
pub mod number;

pub use crate::cli::args::{RunArgs, ServeArgs};
pub use crate::cli::commands::{Cli, Commands};
pub use crate::cli::dispatch::{run, Endpoint};
pub use crate::cli::grammar::CliError;
