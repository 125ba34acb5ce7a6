//! The server's configuration, and how it is put together and checked before the
//! listening socket is bound.

use crate::engine::address::SocketAddress;
use crate::engine::client::or_default;
use crate::engine::config::{
    BindInterface, DEFAULT_BIND_INTERFACE, DEFAULT_CHUNK_BYTES, DEFAULT_MAX_CONNECTIONS,
    DEFAULT_PORT,
};
use crate::engine::protocol::{
    byte_size_of, chunk_size_in_range, chunk_size_verdict, resolve_chunk_size,
};
use crate::utils::error::{ErrorView, NetbeatError};
use crate::utils::logging::Logger;
use vstd::prelude::*;

verus! {

/// A validated configuration of the server.
#[derive(Debug, Clone, Copy, PartialEq, Eq)]
pub struct Server {
    /// Where the server listens
    pub socket_addr: SocketAddress,
    /// Size of the transfer buffer, in bytes
    pub chunk_size: u64,
    /// Most connections served at one time
    pub max_connections: u32,
    pub logger: Logger,
}

/// Puts a `Server` together, field by field.
#[derive(Debug)]
pub struct ServerBuilder {
    interface: Option<BindInterface>,
    port: Option<u16>,
    chunk_size: Option<u64>,
    max_connections: Option<u32>,
    quiet: Option<bool>,
    verbose: Option<bool>,
}

/// What a builder holds, as mathematical values. The chunk size is held in bytes.
pub struct ServerBuilderView {
    pub interface: Option<BindInterface>,
    pub port: Option<u16>,
    pub chunk_size: Option<u64>,
    pub max_connections: Option<u32>,
    pub quiet: Option<bool>,
    pub verbose: Option<bool>,
}

impl ServerBuilderView {
    /// A builder with nothing set.
    pub open spec fn fresh() -> ServerBuilderView {
        ServerBuilderView {
            interface: None,
            port: None,
            chunk_size: None,
            max_connections: None,
            quiet: None,
            verbose: None,
        }
    }

    /// The server that the builder stands for: every setting that was not set takes
    /// its default.
    pub open spec fn server(self) -> Server {
        Server {
            socket_addr: SocketAddress {
                ip: or_default(self.interface, DEFAULT_BIND_INTERFACE).ip(),
                port: or_default(self.port, DEFAULT_PORT),
            },
            chunk_size: or_default(self.chunk_size, DEFAULT_CHUNK_BYTES),
            max_connections: or_default(self.max_connections, DEFAULT_MAX_CONNECTIONS),
            logger: Logger {
                verbose: or_default(self.verbose, false),
                quiet: or_default(self.quiet, false),
            },
        }
    }
}

impl Server {
    /// Whether the configuration can be run: the transfer buffer has a size from
    /// 1KiB to 16MiB.
    pub open spec fn wf(&self) -> bool {
        chunk_size_in_range(self.chunk_size)
    }

    /// A builder for a server.
    pub fn builder() -> (builder: ServerBuilder)
        ensures
            builder@ == ServerBuilderView::fresh(),
    {
        ServerBuilder::new()
    }
}

impl View for ServerBuilder {
    type V = ServerBuilderView;

    closed spec fn view(&self) -> ServerBuilderView {
        ServerBuilderView {
            interface: self.interface,
            port: self.port,
            chunk_size: self.chunk_size,
            max_connections: self.max_connections,
            quiet: self.quiet,
            verbose: self.verbose,
        }
    }
}

impl ServerBuilder {
    #[verifier::type_invariant]
    spec fn inv(self) -> bool {
        self.chunk_size matches Some(bytes) ==> chunk_size_in_range(bytes)
    }

    /// A builder with nothing set.
    pub fn new() -> (builder: Self)
        ensures
            builder@ == ServerBuilderView::fresh(),
    {
        ServerBuilder {
            interface: None,
            port: None,
            chunk_size: None,
            max_connections: None,
            quiet: None,
            verbose: None,
        }
    }

    /// Sets the interface to bind to.
    pub fn interface(self, interface: BindInterface) -> (builder: Self)
        ensures
            builder@ == (ServerBuilderView { interface: Some(interface), ..self@ }),
    {
        proof {
            use_type_invariant(&self);
        }
        let mut next = self;
        next.interface = Some(interface);
        next
    }

    /// Sets the port to listen on.
    pub fn port(self, port: u16) -> (builder: Self)
        ensures
            builder@ == (ServerBuilderView { port: Some(port), ..self@ }),
    {
        proof {
            use_type_invariant(&self);
        }
        let mut next = self;
        next.port = Some(port);
        next
    }

    /// Sets the chunk size from its text, such as `64KiB`. The text must denote a
    /// size from 1KiB to 16MiB; the builder then holds that size in bytes.
    pub fn chunk_size(self, chunk_size: &str) -> (r: Result<Self, NetbeatError>)
        ensures
            match byte_size_of(chunk_size@) {
                Some(bytes) => match chunk_size_verdict(chunk_size@, Ok(bytes), "server"@) {
                    Ok(bytes) => r matches Ok(builder) && builder@ == (ServerBuilderView {
                        chunk_size: Some(bytes),
                        ..self@
                    }),
                    Err(view) => r matches Err(e) && e@ == view,
                },
                None => r matches Err(e) && exists|complaint: Seq<char>|
                    Err::<u64, ErrorView>(e@) == chunk_size_verdict(
                        chunk_size@,
                        Err(complaint),
                        "server"@,
                    ),
            },
    {
        proof {
            use_type_invariant(&self);
        }
        match resolve_chunk_size(chunk_size, "server") {
            Ok(bytes) => {
                let mut next = self;
                next.chunk_size = Some(bytes);
                Ok(next)
            },
            Err(e) => Err(e),
        }
    }

    /// Sets the most connections served at one time.
    pub fn max_connections(self, max_connections: u32) -> (builder: Self)
        ensures
            builder@ == (ServerBuilderView { max_connections: Some(max_connections), ..self@ }),
    {
        proof {
            use_type_invariant(&self);
        }
        let mut next = self;
        next.max_connections = Some(max_connections);
        next
    }

    /// Sets whether progress output is suppressed.
    pub fn quiet(self, quiet: bool) -> (builder: Self)
        ensures
            builder@ == (ServerBuilderView { quiet: Some(quiet), ..self@ }),
    {
        proof {
            use_type_invariant(&self);
        }
        let mut next = self;
        next.quiet = Some(quiet);
        next
    }

    /// Sets whether detailed output is shown.
    pub fn verbose(self, verbose: bool) -> (builder: Self)
        ensures
            builder@ == (ServerBuilderView { verbose: Some(verbose), ..self@ }),
    {
        proof {
            use_type_invariant(&self);
        }
        let mut next = self;
        next.verbose = Some(verbose);
        next
    }

    /// Builds the server. Nothing is left to check: the interface is one of two
    /// addresses and the chunk size was checked when it was set.
    pub fn build(self) -> (r: Result<Server, NetbeatError>)
        ensures
            r == Ok::<Server, NetbeatError>(self@.server()),
            self@.server().wf(),
    {
        proof {
            use_type_invariant(&self);
        }
        let interface = match self.interface {
            Some(interface) => interface,
            None => DEFAULT_BIND_INTERFACE,
        };
        Ok(
            Server {
                socket_addr: SocketAddress {
                    ip: interface.address(),
                    port: match self.port {
                        Some(port) => port,
                        None => DEFAULT_PORT,
                    },
                },
                chunk_size: match self.chunk_size {
                    Some(bytes) => bytes,
                    None => DEFAULT_CHUNK_BYTES,
                },
                max_connections: match self.max_connections {
                    Some(most) => most,
                    None => DEFAULT_MAX_CONNECTIONS,
                },
                logger: Logger::new(
                    match self.verbose {
                        Some(flag) => flag,
                        None => false,
                    },
                    match self.quiet {
                        Some(flag) => flag,
                        None => false,
                    },
                ),
            },
        )
    }
}

} // verus!
