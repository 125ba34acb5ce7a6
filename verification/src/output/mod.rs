//! The figures of a finished session.

pub mod reports;
