//! The commands of the `netbeat` command line.

use crate::cli::args::{RunArgs, RunArgsView, ServeArgs, ServeArgsView};
use vstd::prelude::*;

verus! {

/// What netbeat is asked to do.
#[derive(Debug, Clone)]
pub enum Commands {
    /// Run a speed test against a target server.
    Run(RunArgs),
    /// Start listening for incoming connections on a target server.
    Serve(ServeArgs),
}

/// A command as mathematical values.
pub enum CommandsView {
    Run(RunArgsView),
    Serve(ServeArgsView),
}

impl View for Commands {
    type V = CommandsView;

    open spec fn view(&self) -> CommandsView {
        match self {
            Commands::Run(args) => CommandsView::Run(args@),
            Commands::Serve(args) => CommandsView::Serve(args@),
        }
    }
}

/// A command line that has been read.
#[derive(Debug, Clone)]
pub struct Cli {
    pub command: Commands,
}

impl View for Cli {
    type V = CommandsView;

    open spec fn view(&self) -> CommandsView {
        self.command@
    }
}

} // verus!
