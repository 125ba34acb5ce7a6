//! Arguments for different `netbeat` CLI commands.

use crate::engine::config::BindInterface;
use vstd::prelude::*;

verus! {

/// `netbeat run` CLI arguments.
#[derive(Debug, Clone)]
pub struct RunArgs {
    /// Target server IP address
    pub target: String,
    /// Target port on server (1-65535)
    pub port: u16,
    /// Time limit per test direction in seconds (1-3600).
    pub time: u64,
    /// Target size of data to be uploaded/downloaded in the speed test including units
    /// (eg, 10MB, 1GB, 2GB). Instead of time.
    pub data: Option<String>,
    /// Buffer size for read/write operations (eg, 32KiB, 64KiB, 128KiB).
    pub chunk_size: String,
    /// Number of pings to perform for ping test (1-1000)
    pub ping_count: u32,
    /// Return results as json to stdout
    pub json: bool,
    /// Connection timeout in seconds
    pub timeout: u64,
    /// Number of retry attempts on initial connection failure
    pub retries: u32,
    /// Suppress progress output (results & errors only)
    pub quiet: bool,
    /// Enable verbose output
    pub verbose: bool,
}

/// The arguments of `netbeat run` as mathematical values.
pub struct RunArgsView {
    pub target: Seq<char>,
    pub port: u16,
    pub time: u64,
    pub data: Option<Seq<char>>,
    pub chunk_size: Seq<char>,
    pub ping_count: u32,
    pub json: bool,
    pub timeout: u64,
    pub retries: u32,
    pub quiet: bool,
    pub verbose: bool,
}

impl View for RunArgs {
    type V = RunArgsView;

    open spec fn view(&self) -> RunArgsView {
        RunArgsView {
            target: self.target@,
            port: self.port,
            time: self.time,
            data: match self.data {
                Some(text) => Some(text@),
                None => None,
            },
            chunk_size: self.chunk_size@,
            ping_count: self.ping_count,
            json: self.json,
            timeout: self.timeout,
            retries: self.retries,
            quiet: self.quiet,
            verbose: self.verbose,
        }
    }
}

/// `netbeat serve` CLI arguments.
#[derive(Debug, Clone)]
pub struct ServeArgs {
    /// Network interface to bind server to: 'all' (0.0.0.0) or 'localhost' (127.0.0.1)
    pub interface: BindInterface,
    /// Port to listen on (1-65535)
    pub port: u16,
    /// Buffer size for data transfer (eg, 32KiB, 64KiB, 128KiB).
    pub chunk_size: String,
    /// Maximum concurrent connections
    pub connections: u32,
    /// Suppress all output (errors only)
    pub quiet: bool,
    /// Enable verbose output
    pub verbose: bool,
}

/// The arguments of `netbeat serve` as mathematical values.
pub struct ServeArgsView {
    pub interface: BindInterface,
    pub port: u16,
    pub chunk_size: Seq<char>,
    pub connections: u32,
    pub quiet: bool,
    pub verbose: bool,
}

impl View for ServeArgs {
    type V = ServeArgsView;

    open spec fn view(&self) -> ServeArgsView {
        ServeArgsView {
            interface: self.interface,
            port: self.port,
            chunk_size: self.chunk_size@,
            connections: self.connections,
            quiet: self.quiet,
            verbose: self.verbose,
        }
    }
}

} // verus!
