//! Utility modules, providing various functionality.
//!
//! This module contains the error type and the logging policy that are used throughout
//! the library.

pub mod error;
pub mod logging;
