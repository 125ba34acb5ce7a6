//! Configuration constants and limits for netbeat

use crate::engine::address::IpAddress;
use vstd::prelude::*;
use vstd::string::StringExecFns;

verus! {

/// Default server port
pub const DEFAULT_PORT: u16 = 5050;

/// Default chunk size for data transfer
pub const DEFAULT_CHUNK_SIZE: &'static str = "64KiB";

/// The byte count that the default chunk size stands for
pub const DEFAULT_CHUNK_BYTES: u64 = 65536;

/// Smallest chunk size accepted, in bytes (1KiB)
pub const MIN_CHUNK_BYTES: u64 = 1024;

/// Largest chunk size accepted, in bytes (16MiB)
pub const MAX_CHUNK_BYTES: u64 = 16777216;

/// Default test duration in seconds
pub const DEFAULT_TEST_DURATION: u64 = 10;

/// Default ping count
pub const DEFAULT_PING_COUNT: u32 = 20;

/// Default maximum concurrent connections allowed
pub const DEFAULT_MAX_CONNECTIONS: u32 = 50;

/// Default connection timeout
pub const DEFAULT_CONNECTION_TIMEOUT: u64 = 30;

/// Default number of retries
pub const DEFAULT_MAX_RETRIES: u32 = 3;

/// Default server IP
pub const DEFAULT_BIND_INTERFACE: BindInterface = BindInterface::All;

/// Network interface binding options for the server
#[derive(Debug, Clone, Copy, PartialEq, Eq, Structural)]
pub enum BindInterface {
    /// Listen on all network interfaces (0.0.0.0)
    All,
    /// Listen on localhost only (127.0.0.1)
    Localhost,
}

impl BindInterface {
    /// The address the interface stands for, in dotted form.
    pub open spec fn ip_text(self) -> Seq<char> {
        match self {
            BindInterface::All => "0.0.0.0"@,
            BindInterface::Localhost => "127.0.0.1"@,
        }
    }

    /// The address the interface stands for.
    pub open spec fn ip(self) -> IpAddress {
        match self {
            BindInterface::All => IpAddress::V4([0u8, 0u8, 0u8, 0u8]),
            BindInterface::Localhost => IpAddress::V4([127u8, 0u8, 0u8, 1u8]),
        }
    }

    /// The address the interface stands for.
    pub fn address(&self) -> (ip: IpAddress)
        ensures
            ip == self.ip(),
    {
        match self {
            BindInterface::All => IpAddress::V4([0u8, 0u8, 0u8, 0u8]),
            BindInterface::Localhost => IpAddress::V4([127u8, 0u8, 0u8, 1u8]),
        }
    }

    /// The word that names the interface on the command line.
    pub open spec fn word(self) -> Seq<char> {
        match self {
            BindInterface::All => "all"@,
            BindInterface::Localhost => "localhost"@,
        }
    }

    /// Convert to the actual IP address string
    pub fn to_ip(&self) -> (ip: &'static str)
        ensures
            ip@ == self.ip_text(),
    {
        match self {
            BindInterface::All => "0.0.0.0",
            BindInterface::Localhost => "127.0.0.1",
        }
    }

    /// The word that names the interface on the command line.
    pub fn to_string(&self) -> (word: String)
        ensures
            word@ == self.word(),
    {
        match self {
            BindInterface::All => String::from_str("all"),
            BindInterface::Localhost => String::from_str("localhost"),
        }
    }
}

} // verus!
