//! The vocabulary between an engine and whoever owns the connection.
//!
//! An engine never touches a socket. It names the next operation on the transport,
//! and is told afterwards how the operation went and what time it was.

use crate::engine::protocol::{
    write_message, DOWNLOAD_DONE, DOWNLOAD_START, PING_DONE, PING_MESSAGE, PING_RESPONSE,
    UPLOAD_DONE, UPLOAD_START,
};
use crate::engine::text::join2;
use crate::utils::error::{ErrorView, IoErrorKind, IoFailure, NetbeatError};
use vstd::prelude::*;

verus! {

/// The fixed messages of the wire protocol.
#[derive(Debug, Clone, Copy, PartialEq, Eq, Structural)]
pub enum Sentinel {
    Ping,
    Pong,
    PingDone,
    UploadStart,
    UploadDone,
    DownloadStart,
    DownloadDone,
}

impl Sentinel {
    /// The bytes of the message on the wire.
    pub open spec fn bytes(self) -> Seq<u8> {
        match self {
            Sentinel::Ping => PING_MESSAGE@,
            Sentinel::Pong => PING_RESPONSE@,
            Sentinel::PingDone => PING_DONE@,
            Sentinel::UploadStart => UPLOAD_START@,
            Sentinel::UploadDone => UPLOAD_DONE@,
            Sentinel::DownloadStart => DOWNLOAD_START@,
            Sentinel::DownloadDone => DOWNLOAD_DONE@,
        }
    }

    /// The message as a frame to hand to the transport.
    pub fn frame(self) -> (frame: Vec<u8>)
        ensures
            frame@ == self.bytes(),
    {
        let mut frame: Vec<u8> = Vec::new();
        let _ = match self {
            Sentinel::Ping => write_message(&mut frame, PING_MESSAGE.as_slice()),
            Sentinel::Pong => write_message(&mut frame, PING_RESPONSE.as_slice()),
            Sentinel::PingDone => write_message(&mut frame, PING_DONE.as_slice()),
            Sentinel::UploadStart => write_message(&mut frame, UPLOAD_START.as_slice()),
            Sentinel::UploadDone => write_message(&mut frame, UPLOAD_DONE.as_slice()),
            Sentinel::DownloadStart => write_message(&mut frame, DOWNLOAD_START.as_slice()),
            Sentinel::DownloadDone => write_message(&mut frame, DOWNLOAD_DONE.as_slice()),
        };
        frame
    }

    /// Whether the bytes received are exactly this message.
    pub fn matches(self, received: &[u8]) -> (same: bool)
        ensures
            same == (received@ == self.bytes()),
    {
        let expected = self.frame();
        if received.len() != expected.len() {
            return false;
        }
        let mut i: usize = 0;
        while i < expected.len()
            invariant
                i <= expected@.len(),
                received@.len() == expected@.len(),
                expected@ == self.bytes(),
                forall|j: int| 0 <= j < i ==> received@[j] == expected@[j],
            decreases expected@.len() - i,
        {
            if received[i] != expected[i] {
                return false;
            }
            i = i + 1;
        }
        assert(received@ =~= expected@);
        true
    }
}

/// An operation on the transport that an engine asks for.
#[derive(Debug, Clone, Copy, PartialEq, Eq, Structural)]
pub enum Operation {
    /// Open the connection, waiting at most `timeout` seconds.
    Connect { timeout: u64 },
    /// Switch off send coalescing and bound every later read and write by `timeout` seconds.
    Configure { timeout: u64 },
    /// Bound every later read by `timeout` seconds.
    SetReadTimeout { timeout: u64 },
    /// Bound every later write by `timeout` seconds.
    SetWriteTimeout { timeout: u64 },
    /// Write the whole message, then flush.
    Send { message: Sentinel },
    /// Write the first `len` bytes of the transfer buffer, then flush.
    SendPayload { len: u64 },
    /// Flush what has been written.
    Flush,
    /// Read exactly `len` bytes.
    ReadExact { len: usize },
    /// Read once, at most `max` bytes, and report how many came.
    Read { max: u64 },
    /// Read once, at most `max` bytes, and hand the bytes back.
    Receive { max: u64 },
    /// Wait for `millis` milliseconds.
    Sleep { millis: u64 },
    /// Close both halves of the connection.
    Shutdown,
    /// Bind the listening socket.
    Bind,
    /// Wait for the next incoming connection.
    Accept,
    /// Drop the connection that has just come in, without reading or writing.
    Reject,
    /// Switch off send coalescing on the connection that has just come in and bound
    /// its writes by `timeout` seconds.
    Admit { timeout: u64 },
    /// Hand the connection to a worker of its own, with this size of transfer buffer.
    Dispatch { chunk_size: u64 },
}

/// How an operation went.
#[derive(Debug)]
pub enum Outcome<'a> {
    /// The operation was carried out; it hands nothing back.
    Completed,
    /// A read was carried out and these are the bytes it gave; none means end of stream.
    Frame(&'a [u8]),
    /// A read was carried out and gave this many bytes; zero means end of stream.
    Received(u64),
    /// The operation failed.
    Failed(IoFailure),
}

/// How an operation went, as mathematical values.
pub enum OutcomeView {
    Completed,
    Frame(Seq<u8>),
    Received(u64),
    Failed { kind: IoErrorKind, text: Seq<char> },
}

impl<'a> View for Outcome<'a> {
    type V = OutcomeView;

    open spec fn view(&self) -> OutcomeView {
        match self {
            Outcome::Completed => OutcomeView::Completed,
            Outcome::Frame(bytes) => OutcomeView::Frame(bytes@),
            Outcome::Received(count) => OutcomeView::Received(*count),
            Outcome::Failed(failure) => OutcomeView::Failed {
                kind: failure.kind,
                text: failure.message@,
            },
        }
    }
}

impl Operation {
    /// Whether `outcome` is a possible answer to this operation: a read hands back
    /// bytes, no more than were asked for, every other operation hands back nothing,
    /// and all but a sleep may fail.
    pub open spec fn admits(self, outcome: OutcomeView) -> bool {
        match self {
            Operation::ReadExact { len } => match outcome {
                OutcomeView::Frame(bytes) => bytes.len() == len,
                OutcomeView::Failed { .. } => true,
                _ => false,
            },
            Operation::Read { max } => match outcome {
                OutcomeView::Received(count) => count <= max,
                OutcomeView::Failed { .. } => true,
                _ => false,
            },
            Operation::Receive { max } => match outcome {
                OutcomeView::Frame(bytes) => bytes.len() <= max,
                OutcomeView::Failed { .. } => true,
                _ => false,
            },
            Operation::Sleep { .. } => outcome is Completed,
            _ => outcome is Completed || outcome is Failed,
        }
    }
}

impl Operation {
    /// Whether `outcome` is a possible answer to this operation. Whoever carries the
    /// operations out can ask this before handing an outcome to an engine.
    pub fn accepts(self, outcome: &Outcome) -> (possible: bool)
        ensures
            possible == self.admits(outcome@),
    {
        match self {
            Operation::ReadExact { len } => match outcome {
                Outcome::Frame(bytes) => bytes.len() == len,
                Outcome::Failed(_) => true,
                _ => false,
            },
            Operation::Read { max } => match outcome {
                Outcome::Received(count) => *count <= max,
                Outcome::Failed(_) => true,
                _ => false,
            },
            Operation::Receive { max } => match outcome {
                Outcome::Frame(bytes) => bytes.len() as u64 <= max,
                Outcome::Failed(_) => true,
                _ => false,
            },
            Operation::Sleep { .. } => match outcome {
                Outcome::Completed => true,
                _ => false,
            },
            _ => match outcome {
                Outcome::Completed => true,
                Outcome::Failed(_) => true,
                _ => false,
            },
        }
    }
}

/// What an engine hands back after each outcome.
#[derive(Debug)]
pub enum Step {
    /// The engine goes on: carry this operation out and report its outcome.
    Next(Operation),
    /// The engine has finished; what it found is read from the engine itself.
    Finished,
    /// The engine gave up with this error.
    Failed(NetbeatError),
}

/// What an engine hands back after each outcome, as mathematical values.
pub enum StepView {
    Next(Operation),
    Finished,
    Failed(ErrorView),
}

impl View for Step {
    type V = StepView;

    open spec fn view(&self) -> StepView {
        match self {
            Step::Next(operation) => StepView::Next(*operation),
            Step::Finished => StepView::Finished,
            Step::Failed(error) => StepView::Failed(error@),
        }
    }
}

/// The error of a session whose phase failed: the words that name the phase, then the
/// rendering of the phase's own error.
pub open spec fn test_failure(phase: Seq<char>, error: ErrorView) -> StepView {
    StepView::Failed(ErrorView::TestExecution { text: phase + error.rendering() })
}

/// What a failure to connect, to configure or to close a connection turns into: a
/// connection error that carries the failure.
pub open spec fn connection_failure(outcome: OutcomeView) -> StepView {
    match outcome {
        OutcomeView::Failed { kind, text } => StepView::Failed(
            ErrorView::Connection { kind, text },
        ),
        _ => StepView::Finished,
    }
}

/// Gives up a session because of the error of one of its phases.
pub fn fail_test(phase: &str, error: &NetbeatError) -> (step: Step)
    ensures
        step@ == test_failure(phase@, error@),
{
    let rendering = error.to_string();
    Step::Failed(NetbeatError::test_execution(join2(phase, rendering.as_str())))
}

/// Gives up with the connection error that a failed operation turns into.
pub fn fail_connection(outcome: Outcome) -> (step: Step)
    ensures
        step@ == connection_failure(outcome@),
{
    match outcome {
        Outcome::Failed(failure) => Step::Failed(NetbeatError::connection(failure)),
        _ => Step::Finished,
    }
}

/// The protocol error that a failed transport operation turns into: the words that
/// say what was being done, then the transport's description of the failure.
pub open spec fn protocol_failure(doing: Seq<char>, text: Seq<char>) -> StepView {
    StepView::Failed(ErrorView::Protocol { text: doing + text })
}

/// Gives up with a protocol error made of `doing` and the description of the failure.
pub fn fail_protocol(doing: &str, failure: &IoFailure) -> (step: Step)
    ensures
        step@ == protocol_failure(doing@, failure.message@),
{
    Step::Failed(NetbeatError::protocol(join2(doing, failure.message.as_str())))
}

/// The time from `since` to `now`, in nanoseconds; zero where the clock stepped back.
pub open spec fn elapsed_between(since: u64, now: u64) -> u64 {
    if now >= since {
        (now - since) as u64
    } else {
        0
    }
}

/// The time from `since` to `now`, in nanoseconds; zero where the clock stepped back.
pub fn elapsed(since: u64, now: u64) -> (nanos: u64)
    ensures
        nanos == elapsed_between(since, now),
{
    if now >= since {
        now - since
    } else {
        0
    }
}

} // verus!
