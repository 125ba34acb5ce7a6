//! From a command to the endpoint that carries it out.

use crate::cli::args::{RunArgsView, ServeArgsView};
use crate::cli::commands::{Cli, Commands, CommandsView};
use crate::engine::client::{Client, ClientBuilderView};
use crate::engine::protocol::{byte_size_of, chunk_size_in_range, chunk_size_verdict};
use crate::engine::server::{Server, ServerBuilderView};
use crate::utils::error::{ErrorView, NetbeatError};
use vstd::prelude::*;

verus! {

/// What a command line asks to be run.
#[derive(Debug, Clone, Copy, PartialEq, Eq)]
pub enum Endpoint {
    /// A speed test against a server.
    Client(Client),
    /// A server that listens for clients.
    Server(Server),
}

/// The builder that the arguments of `run` fill, with the chunk size in bytes.
pub open spec fn run_builder(args: RunArgsView, chunk_bytes: u64) -> ClientBuilderView {
    ClientBuilderView {
        target: args.target,
        port: Some(args.port),
        data: args.data,
        time: Some(args.time),
        chunk_size: Some(chunk_bytes),
        ping_count: Some(args.ping_count),
        return_json: Some(args.json),
        timeout: Some(args.timeout),
        retries: Some(args.retries),
        quiet: Some(args.quiet),
        verbose: Some(args.verbose),
    }
}

/// The builder that the arguments of `serve` fill, with the chunk size in bytes.
pub open spec fn serve_builder(args: ServeArgsView, chunk_bytes: u64) -> ServerBuilderView {
    ServerBuilderView {
        interface: Some(args.interface),
        port: Some(args.port),
        chunk_size: Some(chunk_bytes),
        max_connections: Some(args.connections),
        quiet: Some(args.quiet),
        verbose: Some(args.verbose),
    }
}

/// Whether `r` is the error that a chunk size which is none gives on the side named
/// by `side`: the error of the check of chunk sizes, with some complaint where the
/// text could not be read at all.
pub open spec fn refuses_chunk_size(
    r: Result<Endpoint, NetbeatError>,
    text: Seq<char>,
    side: Seq<char>,
) -> bool {
    match byte_size_of(text) {
        Some(bytes) => r matches Err(e) && Err::<u64, ErrorView>(e@) == chunk_size_verdict(
            text,
            Ok(bytes),
            side,
        ),
        None => r matches Err(e) && exists|complaint: Seq<char>|
            Err::<u64, ErrorView>(e@) == chunk_size_verdict(text, Err(complaint), side),
    }
}

/// The chunk size that the text of a command line denotes, if it is one from 1KiB
/// to 16MiB.
pub open spec fn chunk_bytes_of(text: Seq<char>) -> Option<u64> {
    match byte_size_of(text) {
        Some(bytes) => if chunk_size_in_range(bytes) {
            Some(bytes)
        } else {
            None
        },
        None => None,
    }
}

/// Whether `r` is what the command asks for. A chunk size that is none is an error of
/// the side that the command names, and comes before any other; a client is then
/// what its builder gives, with some complaint where a text was rejected, and a
/// server is what its builder stands for.
pub open spec fn resolves(r: Result<Endpoint, NetbeatError>, command: CommandsView) -> bool {
    match command {
        CommandsView::Run(args) => match chunk_bytes_of(args.chunk_size) {
            None => refuses_chunk_size(r, args.chunk_size, "client"@),
            Some(bytes) => exists|ip_complaint: Seq<char>, data_complaint: Seq<char>|
                match #[trigger] run_builder(args, bytes).outcome(ip_complaint, data_complaint) {
                    Ok(client) => r == Ok::<Endpoint, NetbeatError>(Endpoint::Client(client)),
                    Err(view) => r matches Err(e) && e@ == view,
                },
        },
        CommandsView::Serve(args) => match chunk_bytes_of(args.chunk_size) {
            None => refuses_chunk_size(r, args.chunk_size, "server"@),
            Some(bytes) => r == Ok::<Endpoint, NetbeatError>(
                Endpoint::Server(serve_builder(args, bytes).server()),
            ),
        },
    }
}

/// Resolves a command into the endpoint to run, checked and ready: a client for
/// `run`, a server for `serve`. Nothing is connected or bound here.
pub fn run(args: Cli) -> (r: Result<Endpoint, NetbeatError>)
    ensures
        resolves(r, args@),
        r matches Ok(Endpoint::Client(client)) ==> client.wf(),
        r matches Ok(Endpoint::Server(server)) ==> server.wf(),
{
    match args.command {
        Commands::Run(run_args) => {
            let builder = Client::builder(run_args.target.as_str()).port(run_args.port).data(
                match &run_args.data {
                    Some(text) => Some(text.as_str()),
                    None => None,
                },
            ).time(run_args.time);
            let builder = match builder.chunk_size(run_args.chunk_size.as_str()) {
                Ok(builder) => builder,
                Err(e) => {
                    return Err(e);
                },
            };
            let builder = builder.ping_count(run_args.ping_count).return_json(
                run_args.json,
            ).timeout(run_args.timeout).retries(run_args.retries).quiet(run_args.quiet).verbose(
                run_args.verbose,
            );
            match builder.build() {
                Ok(client) => Ok(Endpoint::Client(client)),
                Err(e) => Err(e),
            }
        },
        Commands::Serve(serve_args) => {
            let builder = Server::builder().interface(serve_args.interface).port(serve_args.port);
            let builder = match builder.chunk_size(serve_args.chunk_size.as_str()) {
                Ok(builder) => builder,
                Err(e) => {
                    return Err(e);
                },
            };
            let builder = builder.max_connections(serve_args.connections).quiet(
                serve_args.quiet,
            ).verbose(serve_args.verbose);
            match builder.build() {
                Ok(server) => Ok(Endpoint::Server(server)),
                Err(e) => Err(e),
            }
        },
    }
}

} // verus!
