//! Logging policy for netbeat: which lines are shown, and how they are marked.

use crate::engine::text::join2;
use vstd::prelude::*;
use vstd::string::StringExecFns;

verus! {

/// Custom logger for netbeat. It decides what is shown; printing is the caller's.
#[derive(Debug, Clone, Copy, PartialEq, Eq, Structural)]
pub struct Logger {
    pub verbose: bool,
    pub quiet: bool,
}

impl Logger {
    /// Creates a new logger instance.
    pub fn new(verbose: bool, quiet: bool) -> (logger: Self)
        ensures
            logger.verbose == verbose,
            logger.quiet == quiet,
    {
        Self { verbose, quiet }
    }

    /// Final results - for STDOUT, always shown
    pub fn result(&self, msg: &str) -> (line: String)
        ensures
            line@ == msg@,
    {
        String::from_str(msg)
    }

    /// Progress/status - for STDERR, suppressible by quiet
    pub fn info(&self, msg: &str) -> (line: Option<String>)
        ensures
            self.quiet ==> line is None,
            !self.quiet ==> (line matches Some(text) && text@ == msg@),
    {
        if !self.quiet {
            Some(String::from_str(msg))
        } else {
            None
        }
    }

    /// Detailed debug info - for STDERR, only shown when verbose and not quiet
    pub fn verbose(&self, msg: &str) -> (line: Option<String>)
        ensures
            !(self.verbose && !self.quiet) ==> line is None,
            self.verbose && !self.quiet ==> (line matches Some(text) && text@
                == "🔍 [VERBOSE] "@ + msg@),
    {
        if self.verbose && !self.quiet {
            Some(join2("🔍 [VERBOSE] ", msg))
        } else {
            None
        }
    }

    /// Errors - for STDERR, always shown (even when quiet)
    pub fn error(&self, msg: &str) -> (line: String)
        ensures
            line@ == "❌ "@ + msg@,
    {
        join2("❌ ", msg)
    }

    /// Warnings - for STDERR, suppressible by quiet
    pub fn warn(&self, msg: &str) -> (line: Option<String>)
        ensures
            self.quiet ==> line is None,
            !self.quiet ==> (line matches Some(text) && text@ == "⚠️  "@ + msg@),
    {
        if !self.quiet {
            Some(join2("⚠️  ", msg))
        } else {
            None
        }
    }

    /// Success messages - for STDERR, suppressible by quiet
    pub fn success(&self, msg: &str) -> (line: Option<String>)
        ensures
            self.quiet ==> line is None,
            !self.quiet ==> (line matches Some(text) && text@ == "✅ "@ + msg@),
    {
        if !self.quiet {
            Some(join2("✅ ", msg))
        } else {
            None
        }
    }

    /// Whether a progress spinner accompanies a phase: only when neither quiet nor verbose.
    pub fn shows_spinner(&self) -> (shown: bool)
        ensures
            shown == (!self.quiet && !self.verbose),
    {
        !self.quiet && !self.verbose
    }
}

} // verus!
