//! The client's configuration: what a speed test is run with, and how it is put
//! together and checked before any connection is opened.

use crate::engine::address::{ip_address_of, parse_ip_address, IpAddress, SocketAddress};
use crate::engine::config::{
    DEFAULT_CHUNK_BYTES, DEFAULT_CONNECTION_TIMEOUT, DEFAULT_MAX_RETRIES, DEFAULT_PING_COUNT,
    DEFAULT_PORT, DEFAULT_TEST_DURATION,
};
use crate::engine::protocol::{
    byte_size_of, chunk_size_in_range, chunk_size_verdict, parse_byte_size, parse_error_text,
    resolve_chunk_size,
};
use crate::engine::text::{join4, quote, quoted};
use crate::utils::error::{ErrorView, NetbeatError};
use crate::utils::logging::Logger;
use vstd::prelude::*;
use vstd::string::StringExecFns;

verus! {

/// A validated configuration of the client.
#[derive(Debug, Clone, Copy, PartialEq, Eq)]
pub struct Client {
    /// Where the server listens
    pub socket_addr: SocketAddress,
    /// Amount of data to move in each direction, in bytes; absent to run by time
    pub data: Option<u64>,
    /// Time to move data in each direction, in seconds
    pub time: u64,
    /// Size of the transfer buffer, in bytes
    pub chunk_size: u64,
    /// Number of pings of the latency phase
    pub ping_count: u32,
    /// Whether the report is also wanted as JSON
    pub return_json: bool,
    /// Bound on connecting, reading and writing, in seconds
    pub timeout: u64,
    /// Number of connection attempts
    pub retries: u32,
    pub logger: Logger,
}

/// Puts a `Client` together, field by field.
#[derive(Debug)]
pub struct ClientBuilder {
    target: String,
    port: Option<u16>,
    data: Option<String>,
    time: Option<u64>,
    chunk_size: Option<u64>,
    ping_count: Option<u32>,
    return_json: Option<bool>,
    timeout: Option<u64>,
    retries: Option<u32>,
    quiet: Option<bool>,
    verbose: Option<bool>,
}

/// What a builder holds, as mathematical values. The chunk size is held in bytes.
pub struct ClientBuilderView {
    pub target: Seq<char>,
    pub port: Option<u16>,
    pub data: Option<Seq<char>>,
    pub time: Option<u64>,
    pub chunk_size: Option<u64>,
    pub ping_count: Option<u32>,
    pub return_json: Option<bool>,
    pub timeout: Option<u64>,
    pub retries: Option<u32>,
    pub quiet: Option<bool>,
    pub verbose: Option<bool>,
}

/// The value of an optional setting: what was set, else the default.
pub open spec fn or_default<T>(setting: Option<T>, default: T) -> T {
    match setting {
        Some(value) => value,
        None => default,
    }
}

impl ClientBuilderView {
    /// A builder with nothing set but the target.
    pub open spec fn fresh(target: Seq<char>) -> ClientBuilderView {
        ClientBuilderView {
            target,
            port: None,
            data: None,
            time: None,
            chunk_size: None,
            ping_count: None,
            return_json: None,
            timeout: None,
            retries: None,
            quiet: None,
            verbose: None,
        }
    }

    /// The client that the builder stands for, given the address that its target
    /// denotes and the amount of data that its data setting denotes.
    pub open spec fn client(self, ip: IpAddress, data: Option<u64>) -> Client {
        Client {
            socket_addr: SocketAddress { ip, port: or_default(self.port, DEFAULT_PORT) },
            data,
            time: or_default(self.time, DEFAULT_TEST_DURATION),
            chunk_size: or_default(self.chunk_size, DEFAULT_CHUNK_BYTES),
            ping_count: or_default(self.ping_count, DEFAULT_PING_COUNT),
            return_json: or_default(self.return_json, false),
            timeout: or_default(self.timeout, DEFAULT_CONNECTION_TIMEOUT),
            retries: or_default(self.retries, DEFAULT_MAX_RETRIES),
            logger: Logger {
                verbose: or_default(self.verbose, false),
                quiet: or_default(self.quiet, false),
            },
        }
    }

    /// What building gives, from what reading the target gave (`ip`: the address, or
    /// the reader's complaint) and what reading the data setting gave (`data`,
    /// heeded only where the setting is present). A target that is no address is
    /// reported first.
    pub open spec fn verdict(
        self,
        ip: Result<IpAddress, Seq<char>>,
        data: Result<u64, Seq<char>>,
    ) -> Result<Client, ErrorView> {
        match ip {
            Err(complaint) => Err(
                ErrorView::Client {
                    text: "Invalid IP address ("@ + self.target + ") - "@ + complaint,
                },
            ),
            Ok(ip) => match self.data {
                None => Ok(self.client(ip, None)),
                Some(text) => match data {
                    Ok(bytes) => Ok(self.client(ip, Some(bytes))),
                    Err(complaint) => Err(
                        ErrorView::Client {
                            text: "Invalid target data ("@ + quoted(text) + ") - "@ + complaint,
                        },
                    ),
                },
            },
        }
    }
}

impl ClientBuilderView {
    /// What building gives where the target and the data setting are read as the
    /// parsers read them, and a rejected text is answered with the given complaint.
    pub open spec fn outcome(self, ip_complaint: Seq<char>, data_complaint: Seq<char>) -> Result<
        Client,
        ErrorView,
    > {
        self.verdict(
            reading(ip_address_of(self.target), ip_complaint),
            reading(
                match self.data {
                    Some(text) => byte_size_of(text),
                    None => None,
                },
                data_complaint,
            ),
        )
    }
}

/// What reading a piece of text gave, in the shape that `verdict` takes: the value
/// that the text denotes, or else the complaint.
pub open spec fn reading<T>(value: Option<T>, complaint: Seq<char>) -> Result<T, Seq<char>> {
    match value {
        Some(value) => Ok(value),
        None => Err(complaint),
    }
}

/// Whether what `build` returned is what was expected of it: the same client, or an
/// error that says the same.
pub open spec fn agrees(r: Result<Client, NetbeatError>, expected: Result<Client, ErrorView>)
    -> bool {
    match expected {
        Ok(client) => r == Ok::<Client, NetbeatError>(client),
        Err(view) => r matches Err(e) && e@ == view,
    }
}

impl Client {
    /// Whether the configuration can be run: the transfer buffer has a size from
    /// 1KiB to 16MiB.
    pub open spec fn wf(&self) -> bool {
        chunk_size_in_range(self.chunk_size)
    }

    /// A builder for a client of the server at `target`.
    pub fn builder(target: &str) -> (builder: ClientBuilder)
        ensures
            builder@ == ClientBuilderView::fresh(target@),
    {
        ClientBuilder::new(target)
    }
}

impl View for ClientBuilder {
    type V = ClientBuilderView;

    closed spec fn view(&self) -> ClientBuilderView {
        ClientBuilderView {
            target: self.target@,
            port: self.port,
            data: match self.data {
                Some(text) => Some(text@),
                None => None,
            },
            time: self.time,
            chunk_size: self.chunk_size,
            ping_count: self.ping_count,
            return_json: self.return_json,
            timeout: self.timeout,
            retries: self.retries,
            quiet: self.quiet,
            verbose: self.verbose,
        }
    }
}

impl ClientBuilder {
    #[verifier::type_invariant]
    spec fn inv(self) -> bool {
        self.chunk_size matches Some(bytes) ==> chunk_size_in_range(bytes)
    }

    /// A builder with nothing set but the target.
    pub fn new(target: &str) -> (builder: Self)
        ensures
            builder@ == ClientBuilderView::fresh(target@),
    {
        ClientBuilder {
            target: String::from_str(target),
            port: None,
            data: None,
            time: None,
            chunk_size: None,
            ping_count: None,
            return_json: None,
            timeout: None,
            retries: None,
            quiet: None,
            verbose: None,
        }
    }

    /// Sets the port on which the server listens.
    pub fn port(self, port: u16) -> (builder: Self)
        ensures
            builder@ == (ClientBuilderView { port: Some(port), ..self@ }),
    {
        proof {
            use_type_invariant(&self);
        }
        let mut next = self;
        next.port = Some(port);
        next
    }

    /// Sets the amount of data to move in each direction, as text such as `100MiB`;
    /// `None` to run by time.
    pub fn data(self, data: Option<&str>) -> (builder: Self)
        ensures
            builder@ == (ClientBuilderView {
                data: match data {
                    Some(text) => Some(text@),
                    None => None,
                },
                ..self@
            }),
    {
        proof {
            use_type_invariant(&self);
        }
        let mut next = self;
        next.data = match data {
            Some(text) => Some(String::from_str(text)),
            None => None,
        };
        next
    }

    /// Sets the time to move data in each direction, in seconds.
    pub fn time(self, time: u64) -> (builder: Self)
        ensures
            builder@ == (ClientBuilderView { time: Some(time), ..self@ }),
    {
        proof {
            use_type_invariant(&self);
        }
        let mut next = self;
        next.time = Some(time);
        next
    }

    /// Sets the chunk size from its text, such as `64KiB`. The text must denote a
    /// size from 1KiB to 16MiB; the builder then holds that size in bytes.
    pub fn chunk_size(self, chunk_size: &str) -> (r: Result<Self, NetbeatError>)
        ensures
            match byte_size_of(chunk_size@) {
                Some(bytes) => match chunk_size_verdict(chunk_size@, Ok(bytes), "client"@) {
                    Ok(bytes) => r matches Ok(builder) && builder@ == (ClientBuilderView {
                        chunk_size: Some(bytes),
                        ..self@
                    }),
                    Err(view) => r matches Err(e) && e@ == view,
                },
                None => r matches Err(e) && exists|complaint: Seq<char>|
                    Err::<u64, ErrorView>(e@) == chunk_size_verdict(
                        chunk_size@,
                        Err(complaint),
                        "client"@,
                    ),
            },
    {
        proof {
            use_type_invariant(&self);
        }
        match resolve_chunk_size(chunk_size, "client") {
            Ok(bytes) => {
                let mut next = self;
                next.chunk_size = Some(bytes);
                Ok(next)
            },
            Err(e) => Err(e),
        }
    }

    /// Sets the number of pings of the latency phase.
    pub fn ping_count(self, ping_count: u32) -> (builder: Self)
        ensures
            builder@ == (ClientBuilderView { ping_count: Some(ping_count), ..self@ }),
    {
        proof {
            use_type_invariant(&self);
        }
        let mut next = self;
        next.ping_count = Some(ping_count);
        next
    }

    /// Sets whether the report is also wanted as JSON.
    pub fn return_json(self, return_json: bool) -> (builder: Self)
        ensures
            builder@ == (ClientBuilderView { return_json: Some(return_json), ..self@ }),
    {
        proof {
            use_type_invariant(&self);
        }
        let mut next = self;
        next.return_json = Some(return_json);
        next
    }

    /// Sets the bound on connecting, reading and writing, in seconds.
    pub fn timeout(self, timeout: u64) -> (builder: Self)
        ensures
            builder@ == (ClientBuilderView { timeout: Some(timeout), ..self@ }),
    {
        proof {
            use_type_invariant(&self);
        }
        let mut next = self;
        next.timeout = Some(timeout);
        next
    }

    /// Sets the number of connection attempts.
    pub fn retries(self, retries: u32) -> (builder: Self)
        ensures
            builder@ == (ClientBuilderView { retries: Some(retries), ..self@ }),
    {
        proof {
            use_type_invariant(&self);
        }
        let mut next = self;
        next.retries = Some(retries);
        next
    }

    /// Sets whether progress output is suppressed.
    pub fn quiet(self, quiet: bool) -> (builder: Self)
        ensures
            builder@ == (ClientBuilderView { quiet: Some(quiet), ..self@ }),
    {
        proof {
            use_type_invariant(&self);
        }
        let mut next = self;
        next.quiet = Some(quiet);
        next
    }

    /// Sets whether detailed output is shown.
    pub fn verbose(self, verbose: bool) -> (builder: Self)
        ensures
            builder@ == (ClientBuilderView { verbose: Some(verbose), ..self@ }),
    {
        proof {
            use_type_invariant(&self);
        }
        let mut next = self;
        next.verbose = Some(verbose);
        next
    }

    /// Builds the client from what reading the target and the data setting gave:
    /// for each the value, or the reader's complaint. `data` is heeded only where the
    /// data setting is present.
    pub fn build_from(self, ip: Result<IpAddress, String>, data: Result<u64, String>) -> (r:
        Result<Client, NetbeatError>)
        ensures
            agrees(
                r,
                self@.verdict(
                    match ip {
                        Ok(ip) => Ok(ip),
                        Err(complaint) => Err(complaint@),
                    },
                    match data {
                        Ok(bytes) => Ok(bytes),
                        Err(complaint) => Err(complaint@),
                    },
                ),
            ),
            r matches Ok(client) ==> client.wf(),
    {
        proof {
            use_type_invariant(&self);
        }
        let ip = match ip {
            Ok(ip) => ip,
            Err(complaint) => {
                return Err(
                    NetbeatError::client(
                        join4(
                            "Invalid IP address (",
                            self.target.as_str(),
                            ") - ",
                            complaint.as_str(),
                        ),
                    ),
                );
            },
        };
        let data = match &self.data {
            None => None,
            Some(text) => match data {
                Ok(bytes) => Some(bytes),
                Err(complaint) => {
                    let shown = quote(text.as_str());
                    return Err(
                        NetbeatError::client(
                            join4(
                                "Invalid target data (",
                                shown.as_str(),
                                ") - ",
                                complaint.as_str(),
                            ),
                        ),
                    );
                },
            },
        };
        Ok(
            Client {
                socket_addr: SocketAddress {
                    ip,
                    port: match self.port {
                        Some(port) => port,
                        None => DEFAULT_PORT,
                    },
                },
                data,
                time: match self.time {
                    Some(time) => time,
                    None => DEFAULT_TEST_DURATION,
                },
                chunk_size: match self.chunk_size {
                    Some(bytes) => bytes,
                    None => DEFAULT_CHUNK_BYTES,
                },
                ping_count: match self.ping_count {
                    Some(count) => count,
                    None => DEFAULT_PING_COUNT,
                },
                return_json: match self.return_json {
                    Some(flag) => flag,
                    None => false,
                },
                timeout: match self.timeout {
                    Some(timeout) => timeout,
                    None => DEFAULT_CONNECTION_TIMEOUT,
                },
                retries: match self.retries {
                    Some(retries) => retries,
                    None => DEFAULT_MAX_RETRIES,
                },
                logger: Logger::new(
                    match self.verbose {
                        Some(flag) => flag,
                        None => false,
                    },
                    match self.quiet {
                        Some(flag) => flag,
                        None => false,
                    },
                ),
            },
        )
    }

    /// Builds the client. The target must be an IP address and the data setting,
    /// where present, a size under the binary-unit convention; every other setting
    /// takes its default where it was not set.
    pub fn build(self) -> (r: Result<Client, NetbeatError>)
        ensures
            exists|ip_complaint: Seq<char>, data_complaint: Seq<char>|
                agrees(r, #[trigger] self@.outcome(ip_complaint, data_complaint)),
            r matches Ok(client) ==> client.wf(),
    {
        let ip = parse_ip_address(self.target.as_str());
        let data = match &self.data {
            Some(text) => match parse_byte_size(text.as_str()) {
                Ok(bytes) => Ok(bytes),
                Err(error) => Err(parse_error_text(&error)),
            },
            None => Err(String::new()),
        };
        let ghost ip_complaint = match &ip {
            Ok(_) => Seq::<char>::empty(),
            Err(complaint) => complaint@,
        };
        let ghost data_complaint = match &data {
            Ok(_) => Seq::<char>::empty(),
            Err(complaint) => complaint@,
        };
        let ghost before = self@;
        let r = self.build_from(ip, data);
        proof {
            assert(agrees(r, before.outcome(ip_complaint, data_complaint)));
        }
        r
    }
}

} // verus!
