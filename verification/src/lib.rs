//! A network throughput and latency benchmark between a client and a server.
//!
//! The library holds the rules of the benchmark: the wire protocol, the three phases
//! of a session on both sides, admission of connections on the server, validation of
//! the configuration, and the figures derived from a run. It performs no input or
//! output itself. Each side is a machine that names the next transport operation and
//! is told how it went.

pub mod cli;
pub mod engine;
pub mod output;
pub mod utils;

pub use crate::engine::client::Client;
pub use crate::engine::config::BindInterface;
pub use crate::engine::server::Server;
pub use crate::output::reports::{NetbeatReport, PingReport, SpeedReport};
pub use crate::utils::error::NetbeatError;
