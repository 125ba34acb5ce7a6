//! Error values shared by the client and the server engine.

use vstd::prelude::*;
use vstd::string::StringExecFns;

verus! {

/// The kinds of transport failure that the engines tell apart, as the operating system
/// reports them. Every other kind is `Other`.
#[derive(Debug, Clone, Copy, PartialEq, Eq, Structural)]
pub enum IoErrorKind {
    /// The operation did not complete within the configured timeout.
    TimedOut,
    /// The operation would have had to wait: how some systems report a timeout.
    WouldBlock,
    /// The stream ended before the requested bytes had arrived.
    UnexpectedEof,
    /// The peer reset the connection.
    ConnectionReset,
    /// The connection was aborted by the peer.
    ConnectionAborted,
    /// The peer no longer reads what is written.
    BrokenPipe,
    /// Any other failure.
    Other,
}

/// What a transport failure means to an engine, whatever the system calls it.
#[derive(Debug, Clone, Copy, PartialEq, Eq, Structural)]
pub enum FailureClass {
    /// The peer was silent for longer than the timeout.
    Timeout,
    /// The peer closed or reset the connection.
    Reset,
    /// The stream ended in the middle of what was expected.
    Eof,
    /// Anything else.
    Other,
}

impl IoErrorKind {
    /// What the failure means to an engine.
    pub open spec fn class(self) -> FailureClass {
        match self {
            IoErrorKind::TimedOut => FailureClass::Timeout,
            IoErrorKind::WouldBlock => FailureClass::Timeout,
            IoErrorKind::UnexpectedEof => FailureClass::Eof,
            IoErrorKind::ConnectionReset => FailureClass::Reset,
            IoErrorKind::ConnectionAborted => FailureClass::Reset,
            IoErrorKind::BrokenPipe => FailureClass::Reset,
            IoErrorKind::Other => FailureClass::Other,
        }
    }

    /// Classifies the failure.
    pub fn classify(self) -> (class: FailureClass)
        ensures
            class == self.class(),
    {
        match self {
            IoErrorKind::TimedOut => FailureClass::Timeout,
            IoErrorKind::WouldBlock => FailureClass::Timeout,
            IoErrorKind::UnexpectedEof => FailureClass::Eof,
            IoErrorKind::ConnectionReset => FailureClass::Reset,
            IoErrorKind::ConnectionAborted => FailureClass::Reset,
            IoErrorKind::BrokenPipe => FailureClass::Reset,
            IoErrorKind::Other => FailureClass::Other,
        }
    }
}

/// A failed transport operation: its kind and the transport's own description of it.
#[derive(Debug, Clone)]
pub struct IoFailure {
    pub kind: IoErrorKind,
    pub message: String,
}

/// Errors that can occur in netbeat operations.
#[derive(Debug, Clone)]
pub enum NetbeatError {
    /// Network connection errors
    ConnectionError(IoFailure),
    /// Protocol errors
    ProtocolError { message: String },
    /// Server errors
    ServerError { message: String },
    /// Client errors
    ClientError { message: String },
    /// Test execution errors
    TestExecutionError { message: String },
}

/// What an error says: its class and its text, as mathematical values.
pub enum ErrorView {
    Connection { kind: IoErrorKind, text: Seq<char> },
    Protocol { text: Seq<char> },
    Server { text: Seq<char> },
    Client { text: Seq<char> },
    TestExecution { text: Seq<char> },
}

impl ErrorView {
    /// The text the error carries, without the words that name its class.
    pub open spec fn text(self) -> Seq<char> {
        match self {
            ErrorView::Connection { text, .. } => text,
            ErrorView::Protocol { text } => text,
            ErrorView::Server { text } => text,
            ErrorView::Client { text } => text,
            ErrorView::TestExecution { text } => text,
        }
    }

    /// The words that name the class of the error in its rendering.
    pub open spec fn heading(self) -> Seq<char> {
        match self {
            ErrorView::Connection { .. } => "Connection error: "@,
            ErrorView::Protocol { .. } => "Protocol error: "@,
            ErrorView::Server { .. } => "Server error: "@,
            ErrorView::Client { .. } => "Client error: "@,
            ErrorView::TestExecution { .. } => "Test execution error: "@,
        }
    }

    /// The one-line rendering: the heading followed by the text.
    pub open spec fn rendering(self) -> Seq<char> {
        self.heading() + self.text()
    }
}

impl View for NetbeatError {
    type V = ErrorView;

    open spec fn view(&self) -> ErrorView {
        match self {
            NetbeatError::ConnectionError(failure) => ErrorView::Connection {
                kind: failure.kind,
                text: failure.message@,
            },
            NetbeatError::ProtocolError { message } => ErrorView::Protocol { text: message@ },
            NetbeatError::ServerError { message } => ErrorView::Server { text: message@ },
            NetbeatError::ClientError { message } => ErrorView::Client { text: message@ },
            NetbeatError::TestExecutionError { message } => ErrorView::TestExecution {
                text: message@,
            },
        }
    }
}

impl NetbeatError {
    /// Create a protocol error
    pub fn protocol(message: String) -> (e: Self)
        ensures
            e@ == (ErrorView::Protocol { text: message@ }),
    {
        Self::ProtocolError { message }
    }

    /// Create a server error
    pub fn server(message: String) -> (e: Self)
        ensures
            e@ == (ErrorView::Server { text: message@ }),
    {
        Self::ServerError { message }
    }

    /// Create a client error
    pub fn client(message: String) -> (e: Self)
        ensures
            e@ == (ErrorView::Client { text: message@ }),
    {
        Self::ClientError { message }
    }

    /// Create a test execution error
    pub fn test_execution(message: String) -> (e: Self)
        ensures
            e@ == (ErrorView::TestExecution { text: message@ }),
    {
        Self::TestExecutionError { message }
    }

    /// Create a connection error from a failed transport operation
    pub fn connection(failure: IoFailure) -> (e: Self)
        ensures
            e@ == (ErrorView::Connection { kind: failure.kind, text: failure.message@ }),
    {
        Self::ConnectionError(failure)
    }

    /// The one-line rendering of the error: the words that name its class, then its text.
    pub fn to_string(&self) -> (line: String)
        ensures
            line@ == self@.rendering(),
    {
        match self {
            NetbeatError::ConnectionError(failure) => String::from_str("Connection error: ").concat(
                failure.message.as_str(),
            ),
            NetbeatError::ProtocolError { message } => String::from_str("Protocol error: ").concat(
                message.as_str(),
            ),
            NetbeatError::ServerError { message } => String::from_str("Server error: ").concat(
                message.as_str(),
            ),
            NetbeatError::ClientError { message } => String::from_str("Client error: ").concat(
                message.as_str(),
            ),
            NetbeatError::TestExecutionError { message } => String::from_str(
                "Test execution error: ",
            ).concat(message.as_str()),
        }
    }
}

} // verus!
