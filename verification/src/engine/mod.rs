//! The engine: configuration, the wire protocol, and the two sides of a session.

pub mod address;
pub mod admission;
pub mod client;
pub mod config;
pub mod ping;
pub mod protocol;
pub mod scan;
pub mod server;
pub mod session;
pub mod text;
pub mod transfer;
pub mod transport;
pub mod worker;
