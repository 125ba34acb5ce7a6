//! Network protocol definitions and utilities for netbeat

use crate::engine::config::{MAX_CHUNK_BYTES, MIN_CHUNK_BYTES};
use crate::engine::text::{join4, same_text};
use crate::utils::error::{ErrorView, IoFailure, NetbeatError};
use vstd::prelude::*;
use vstd::string::StringExecFns;

verus! {

/// Protocol Version: the bytes of `NETBEAT_1.0`.
pub const PROTOCOL_VERSION: [u8; 11] = [78, 69, 84, 66, 69, 65, 84, 95, 49, 46, 48];

/// Probe sent by the client: the bytes of `NETBEAT_PING`.
pub const PING_MESSAGE: [u8; 12] = [78, 69, 84, 66, 69, 65, 84, 95, 80, 73, 78, 71];

/// Reply to a probe: the bytes of `NETBEAT_PONG`.
pub const PING_RESPONSE: [u8; 12] = [78, 69, 84, 66, 69, 65, 84, 95, 80, 79, 78, 71];

/// End of the ping phase: the bytes of `NETBEAT_DONE`.
pub const PING_DONE: [u8; 12] = [78, 69, 84, 66, 69, 65, 84, 95, 68, 79, 78, 69];

/// Start of the upload phase: the bytes of `NETBEAT_UPLOAD_START`.
pub const UPLOAD_START: [u8; 20] = [
    78, 69, 84, 66, 69, 65, 84, 95, 85, 80, 76, 79, 65, 68, 95, 83, 84, 65, 82, 84,
];

/// End of the upload phase: the bytes of `NETBEAT_UPLOAD_DONE`.
pub const UPLOAD_DONE: [u8; 19] = [
    78, 69, 84, 66, 69, 65, 84, 95, 85, 80, 76, 79, 65, 68, 95, 68, 79, 78, 69,
];

/// Start of the download phase: the bytes of `NETBEAT_DOWNLOAD_START`.
pub const DOWNLOAD_START: [u8; 22] = [
    78, 69, 84, 66, 69, 65, 84, 95, 68, 79, 87, 78, 76, 79, 65, 68, 95, 83, 84, 65, 82, 84,
];

/// End of the download phase: the bytes of `NETBEAT_DOWNLOAD_DONE`.
pub const DOWNLOAD_DONE: [u8; 21] = [
    78, 69, 84, 66, 69, 65, 84, 95, 68, 79, 87, 78, 76, 79, 65, 68, 95, 68, 79, 78, 69,
];

/// Appends a whole message to an outgoing frame. The frame is handed to the transport
/// in one piece, so a message is never sent in part.
pub fn write_message(stream: &mut Vec<u8>, message: &[u8]) -> (r: Result<(), IoFailure>)
    ensures
        r is Ok,
        final(stream)@ == old(stream)@ + message@,
{
    stream.extend_from_slice(message);
    Ok(())
}

/// Fills the buffer with bytes drawn from the thread's random generator, through
/// `rand::rng` and `RngCore::fill_bytes`. The bytes are whatever the generator gives:
/// only the length of the buffer is known afterwards, and it is the length before.
/// The generator seeds itself from the operating system when a thread first uses it,
/// and ends the process where the system has no randomness to give.
#[verifier::external_body]
fn fill_random(buffer: &mut Vec<u8>)
    ensures
        final(buffer)@.len() == old(buffer)@.len(),
{
    rand::RngCore::fill_bytes(&mut rand::rng(), buffer.as_mut_slice());
}

/// Generate a random buffer of specified size for testing
pub fn generate_random_buffer(size: usize) -> (buffer: Vec<u8>)
    ensures
        buffer@.len() == size,
{
    let mut buffer: Vec<u8> = vec![0u8; size];
    fill_random(&mut buffer);
    buffer
}

/// The error type of `byte_unit::Byte::parse_str`.
#[verifier::external_type_specification]
#[verifier::external_body]
pub struct ExByteParseError(byte_unit::ParseError);

/// The number of bytes that a size in text stands for under the binary-unit convention,
/// as `byte_unit::Byte::parse_str` reads it with the case of the unit respected;
/// `None` where it rejects the text.
pub uninterp spec fn byte_size_of(text: Seq<char>) -> Option<u64>;

/// Reads a size such as `64KiB` with `byte_unit::Byte::parse_str` (case of the unit
/// respected) and takes the byte count with `Byte::as_u64`. The outcome is a function
/// of the text alone, which `byte_size_of` names.
#[verifier::external_body]
pub(crate) fn parse_byte_size(text: &str) -> (r: Result<u64, byte_unit::ParseError>)
    ensures
        r matches Ok(bytes) ==> byte_size_of(text@) == Some(bytes),
        r is Err ==> byte_size_of(text@) is None,
{
    match byte_unit::Byte::parse_str(text, false) {
        Ok(size) => Ok(size.as_u64()),
        Err(error) => Err(error),
    }
}

/// The description that `byte_unit::ParseError` gives of itself through `Display`.
/// Nothing is claimed of the text.
#[verifier::external_body]
pub(crate) fn parse_error_text(error: &byte_unit::ParseError) -> (text: String) {
    format!("{error}")
}

/// Whether a byte count is acceptable as a chunk size: 1KiB to 16MiB, both included.
pub open spec fn chunk_size_in_range(bytes: u64) -> bool {
    MIN_CHUNK_BYTES <= bytes <= MAX_CHUNK_BYTES
}

/// The configuration error of the side named by `err_type`: a server error for
/// `server`, a client error for anything else.
pub open spec fn side_error(err_type: Seq<char>, text: Seq<char>) -> ErrorView {
    if err_type == "server"@ {
        ErrorView::Server { text }
    } else {
        ErrorView::Client { text }
    }
}

/// What the check of a chunk size gives, from the text, the outcome of reading it
/// (the byte count, or the reader's complaint) and the side that asked.
pub open spec fn chunk_size_verdict(
    text: Seq<char>,
    parsed: Result<u64, Seq<char>>,
    err_type: Seq<char>,
) -> Result<u64, ErrorView> {
    match parsed {
        Err(complaint) => Err(
            side_error(err_type, "Invalid chunk size '"@ + text + "' - "@ + complaint),
        ),
        Ok(bytes) => if bytes < MIN_CHUNK_BYTES {
            Err(side_error(err_type, "Chunk size must be at least 1KiB"@))
        } else if bytes > MAX_CHUNK_BYTES {
            Err(side_error(err_type, "Chunk size must not exceed 16MiB"@))
        } else {
            Ok(bytes)
        },
    }
}

fn create_error(err_type: &str, message: String) -> (e: NetbeatError)
    ensures
        e@ == side_error(err_type@, message@),
{
    if same_text(err_type, "server") {
        NetbeatError::server(message)
    } else {
        NetbeatError::client(message)
    }
}

/// Checks a chunk size that has been read already: `parsed` is the byte count, or the
/// reader's complaint. A count from 1KiB to 16MiB is returned as it is; any other
/// outcome is an error of the side named by `err_type`.
pub fn check_chunk_size(s: &str, parsed: Result<u64, String>, err_type: &str) -> (r: Result<
    u64,
    NetbeatError,
>)
    ensures
        match chunk_size_verdict(
            s@,
            match parsed {
                Ok(bytes) => Ok(bytes),
                Err(complaint) => Err(complaint@),
            },
            err_type@,
        ) {
            Ok(bytes) => r == Ok::<u64, NetbeatError>(bytes),
            Err(view) => r matches Err(e) && e@ == view,
        },
{
    match parsed {
        Err(complaint) => {
            let message = join4("Invalid chunk size '", s, "' - ", complaint.as_str());
            Err(create_error(err_type, message))
        },
        Ok(bytes) => {
            if bytes < MIN_CHUNK_BYTES {
                Err(create_error(err_type, String::from_str("Chunk size must be at least 1KiB")))
            } else if bytes > MAX_CHUNK_BYTES {
                Err(create_error(err_type, String::from_str("Chunk size must not exceed 16MiB")))
            } else {
                Ok(bytes)
            }
        },
    }
}

/// The byte count of a chunk size given as text, or the error of the side named by
/// `err_type`: the text must be a size under the binary-unit convention, of 1KiB to
/// 16MiB, both included.
pub fn resolve_chunk_size(s: &str, err_type: &str) -> (r: Result<u64, NetbeatError>)
    ensures
        match byte_size_of(s@) {
            Some(bytes) => match chunk_size_verdict(s@, Ok(bytes), err_type@) {
                Ok(bytes) => r == Ok::<u64, NetbeatError>(bytes),
                Err(view) => r matches Err(e) && e@ == view,
            },
            None => r matches Err(e) && exists|complaint: Seq<char>|
                Err::<u64, ErrorView>(e@) == chunk_size_verdict(s@, Err(complaint), err_type@),
        },
{
    let parsed = match parse_byte_size(s) {
        Ok(bytes) => Ok(bytes),
        Err(error) => Err(parse_error_text(&error)),
    };
    check_chunk_size(s, parsed, err_type)
}

/// Helper function to validate chunk size
pub fn validate_chunk_size(s: &str, err_type: &str) -> (r: Result<String, NetbeatError>)
    ensures
        match byte_size_of(s@) {
            Some(bytes) => match chunk_size_verdict(s@, Ok(bytes), err_type@) {
                Ok(_) => r matches Ok(text) && text@ == s@,
                Err(view) => r matches Err(e) && e@ == view,
            },
            None => r matches Err(e) && exists|complaint: Seq<char>|
                Err::<u64, ErrorView>(e@) == chunk_size_verdict(s@, Err(complaint), err_type@),
        },
{
    match resolve_chunk_size(s, err_type) {
        Ok(_) => Ok(String::from_str(s)),
        Err(e) => Err(e),
    }
}

} // verus!
