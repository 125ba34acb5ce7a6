//! A whole session, on the server: the worker of one connection answers the three
//! phases in the order in which the client runs them.

use crate::engine::scan::{ends_with, TailWindow};
use crate::engine::transport::{
    connection_failure, fail_connection, fail_protocol, fail_test, protocol_failure,
    test_failure, Operation, Outcome, OutcomeView, Sentinel, Step, StepView,
};
use crate::utils::error::{ErrorView, FailureClass, IoErrorKind, NetbeatError};
use vstd::prelude::*;
use vstd::string::StringExecFns;

verus! {

/// Seconds by which the reads of the latency phase are bounded.
pub const PING_READ_TIMEOUT: u64 = 30;

/// Seconds by which the writes of the download phase are bounded.
pub const DOWNLOAD_WRITE_TIMEOUT: u64 = 1;

/// Milliseconds of rest between two phases.
pub const PHASE_GAP_MILLIS: u64 = 50;

/// Where a phase of the worker stands.
#[derive(Debug, Clone, Copy, PartialEq, Eq, Structural)]
pub enum ServedStage {
    /// A timeout is being set.
    Preparing,
    /// The message that begins or continues the phase is awaited.
    Awaiting,
    /// A reply is being sent.
    Replying,
    /// Data is being moved.
    Moving,
    /// The phase has ended.
    Done,
    /// The phase was given up.
    Over,
}

/// The latency phase as the server answers it.
#[derive(Debug, Clone, Copy, PartialEq, Eq, Structural)]
pub struct ServedPing {
    /// Number of probes answered
    pub replies: u64,
    /// Whether the phase ended on a failed read
    pub aborted: bool,
    pub stage: ServedStage,
}

impl ServedPing {
    /// The phase before anything has been asked.
    pub open spec fn initial() -> ServedPing {
        ServedPing { replies: 0, aborted: false, stage: ServedStage::Preparing }
    }

    /// The operation whose outcome the phase awaits; none once it has ended.
    pub open spec fn pending(self) -> Option<Operation> {
        match self.stage {
            ServedStage::Preparing => Some(
                Operation::SetReadTimeout { timeout: PING_READ_TIMEOUT },
            ),
            ServedStage::Awaiting => Some(Operation::ReadExact { len: 12 }),
            ServedStage::Replying => Some(Operation::Send { message: Sentinel::Pong }),
            _ => None,
        }
    }

    /// The count of replies with one more, as far as the count can go.
    pub open spec fn one_more(replies: u64) -> u64 {
        if replies < u64::MAX {
            (replies + 1) as u64
        } else {
            replies
        }
    }

    /// The phase after `outcome`, and what it asks for next. A probe is answered,
    /// the message that ends the phase ends it, anything else is passed over; a
    /// failed read ends the phase without failing the session.
    pub open spec fn next(self, outcome: OutcomeView) -> (ServedPing, StepView) {
        let awaiting = ServedPing { stage: ServedStage::Awaiting, ..self };
        let listen = StepView::Next(Operation::ReadExact { len: 12 });
        match self.stage {
            ServedStage::Preparing => if outcome is Failed {
                (ServedPing { stage: ServedStage::Over, ..self }, connection_failure(outcome))
            } else {
                (awaiting, listen)
            },
            ServedStage::Awaiting => match outcome {
                OutcomeView::Frame(bytes) => if bytes == Sentinel::PingDone.bytes() {
                    (ServedPing { stage: ServedStage::Done, ..self }, StepView::Finished)
                } else if bytes == Sentinel::Ping.bytes() {
                    (
                        ServedPing { stage: ServedStage::Replying, ..self },
                        StepView::Next(Operation::Send { message: Sentinel::Pong }),
                    )
                } else {
                    (awaiting, listen)
                },
                OutcomeView::Failed { .. } => (
                    ServedPing { aborted: true, stage: ServedStage::Done, ..self },
                    StepView::Finished,
                ),
                _ => (awaiting, listen),
            },
            ServedStage::Replying => if outcome is Failed {
                (awaiting, listen)
            } else {
                (ServedPing { replies: Self::one_more(self.replies), ..awaiting }, listen)
            },
            _ => (self, StepView::Finished),
        }
    }

    /// Begins the phase: the reads are bounded first.
    pub fn start() -> (started: (ServedPing, Operation))
        ensures
            started.0 == ServedPing::initial(),
            started.0.pending() == Some(started.1),
    {
        (
            ServedPing { replies: 0, aborted: false, stage: ServedStage::Preparing },
            Operation::SetReadTimeout { timeout: PING_READ_TIMEOUT },
        )
    }

    /// Takes in the outcome of the operation that the phase awaits and says what
    /// comes next.
    pub fn step(&mut self, outcome: Outcome) -> (step: Step)
        requires
            old(self).pending() matches Some(operation) && operation.admits(outcome@),
        ensures
            (*final(self), step@) == old(self).next(outcome@),
            match step@ {
                StepView::Next(operation) => final(self).pending() == Some(operation),
                _ => final(self).pending() is None,
            },
    {
        match self.stage {
            ServedStage::Preparing => match outcome {
                Outcome::Failed(failure) => {
                    self.stage = ServedStage::Over;
                    fail_connection(Outcome::Failed(failure))
                },
                _ => {
                    self.stage = ServedStage::Awaiting;
                    Step::Next(Operation::ReadExact { len: 12 })
                },
            },
            ServedStage::Awaiting => match outcome {
                Outcome::Frame(bytes) => if Sentinel::PingDone.matches(bytes) {
                    self.stage = ServedStage::Done;
                    Step::Finished
                } else if Sentinel::Ping.matches(bytes) {
                    self.stage = ServedStage::Replying;
                    Step::Next(Operation::Send { message: Sentinel::Pong })
                } else {
                    Step::Next(Operation::ReadExact { len: 12 })
                },
                Outcome::Failed(_) => {
                    self.aborted = true;
                    self.stage = ServedStage::Done;
                    Step::Finished
                },
                _ => Step::Next(Operation::ReadExact { len: 12 }),
            },
            ServedStage::Replying => {
                match outcome {
                    Outcome::Failed(_) => {},
                    _ => {
                        if self.replies < u64::MAX {
                            self.replies = self.replies + 1;
                        }
                    },
                }
                self.stage = ServedStage::Awaiting;
                Step::Next(Operation::ReadExact { len: 12 })
            },
            _ => Step::Finished,
        }
    }
}

/// How the server's side of an upload ended.
#[derive(Debug, Clone, Copy, PartialEq, Eq, Structural)]
pub enum UploadEnd {
    /// Everything received ended with the message that ends an upload.
    Marker,
    /// The client ended the stream.
    EndOfStream,
    /// A read failed.
    ReadFailed,
}

/// The upload phase as the server takes it in.
pub struct ServedUpload {
    /// Size of the transfer buffer in bytes
    pub chunk: u64,
    pub scan: TailWindow,
    /// How the phase ended, once it has
    pub end: Option<UploadEnd>,
    pub stage: ServedStage,
}

/// The server's side of an upload as mathematical values.
pub struct ServedUploadView {
    pub chunk: u64,
    /// Everything received after the message that began the upload
    pub seen: Seq<u8>,
    pub end: Option<UploadEnd>,
    pub stage: ServedStage,
}

impl View for ServedUpload {
    type V = ServedUploadView;

    open spec fn view(&self) -> ServedUploadView {
        ServedUploadView {
            chunk: self.chunk,
            seen: self.scan.seen(),
            end: self.end,
            stage: self.stage,
        }
    }
}

impl ServedUploadView {
    /// The phase before anything has been asked.
    pub open spec fn initial(chunk: u64) -> ServedUploadView {
        ServedUploadView { chunk, seen: Seq::empty(), end: None, stage: ServedStage::Awaiting }
    }

    /// The operation whose outcome the phase awaits; none once it has ended.
    pub open spec fn pending(self) -> Option<Operation> {
        match self.stage {
            ServedStage::Awaiting => Some(Operation::ReadExact { len: 20 }),
            ServedStage::Moving => Some(Operation::Receive { max: self.chunk }),
            _ => None,
        }
    }

    /// The phase ended in the given way.
    pub open spec fn ended(self, end: UploadEnd) -> (ServedUploadView, StepView) {
        (
            ServedUploadView { end: Some(end), stage: ServedStage::Done, ..self },
            StepView::Finished,
        )
    }

    /// The phase after `outcome`, and what it asks for next. The first read must be
    /// the message that begins an upload. After that every read is added to what was
    /// received, and the phase ends as soon as all of it ends with the message that
    /// ends an upload, when the stream ends, or when a read fails.
    pub open spec fn next(self, outcome: OutcomeView) -> (ServedUploadView, StepView) {
        let over = ServedUploadView { stage: ServedStage::Over, ..self };
        let moving = ServedUploadView { stage: ServedStage::Moving, ..self };
        let receive = StepView::Next(Operation::Receive { max: self.chunk });
        match self.stage {
            ServedStage::Awaiting => match outcome {
                OutcomeView::Frame(bytes) => if bytes == Sentinel::UploadStart.bytes() {
                    (moving, receive)
                } else {
                    (
                        over,
                        StepView::Failed(ErrorView::Protocol { text: "Expected upload start"@ }),
                    )
                },
                OutcomeView::Failed { text, .. } => (
                    over,
                    protocol_failure("Failed to read upload signal - "@, text),
                ),
                _ => (moving, receive),
            },
            ServedStage::Moving => match outcome {
                OutcomeView::Frame(bytes) => if bytes.len() == 0 {
                    self.ended(UploadEnd::EndOfStream)
                } else if ends_with(self.seen + bytes, Sentinel::UploadDone.bytes()) {
                    ServedUploadView { seen: self.seen + bytes, ..self }.ended(UploadEnd::Marker)
                } else {
                    (ServedUploadView { seen: self.seen + bytes, ..self }, receive)
                },
                OutcomeView::Failed { .. } => self.ended(UploadEnd::ReadFailed),
                _ => (self, receive),
            },
            _ => (self, StepView::Finished),
        }
    }
}

/// The end of an upload is found even where the message that marks it arrives cut
/// across two reads: after any data, the first `cut` bytes of the message in one read
/// and the rest in the next end the phase, at the second read at the latest.
pub proof fn lemma_split_marker_ends_upload(phase: ServedUploadView, data: Seq<u8>, cut: int)
    requires
        phase.stage == ServedStage::Moving,
        0 < cut < 19,
    ensures
        ({
            let marker = Sentinel::UploadDone.bytes();
            let (first, step) = phase.next(
                OutcomeView::Frame(data + marker.subrange(0, cut)),
            );
            let (second, last) = first.next(OutcomeView::Frame(marker.subrange(cut, 19)));
            if step is Finished {
                first.end == Some(UploadEnd::Marker)
            } else {
                last is Finished && second.end == Some(UploadEnd::Marker)
            }
        }),
{
    let marker = Sentinel::UploadDone.bytes();
    let head = data + marker.subrange(0, cut);
    let tail = marker.subrange(cut, 19);
    let stream = phase.seen + head + tail;
    assert(stream.subrange(stream.len() - 19, stream.len() as int) =~= marker);
}

impl ServedUpload {
    /// Begins the phase: the message that begins an upload is awaited.
    pub fn start(chunk: u64) -> (started: (ServedUpload, Operation))
        ensures
            started.0@ == ServedUploadView::initial(chunk),
            started.0@.pending() == Some(started.1),
    {
        (
            ServedUpload { chunk, scan: TailWindow::new(), end: None, stage: ServedStage::Awaiting },
            Operation::ReadExact { len: 20 },
        )
    }

    /// Takes in the outcome of the operation that the phase awaits and says what
    /// comes next.
    pub fn step(&mut self, outcome: Outcome) -> (step: Step)
        requires
            old(self)@.pending() matches Some(operation) && operation.admits(outcome@),
        ensures
            (final(self)@, step@) == old(self)@.next(outcome@),
            match step@ {
                StepView::Next(operation) => final(self)@.pending() == Some(operation),
                _ => final(self)@.pending() is None,
            },
    {
        match self.stage {
            ServedStage::Awaiting => match outcome {
                Outcome::Frame(bytes) => if Sentinel::UploadStart.matches(bytes) {
                    self.stage = ServedStage::Moving;
                    Step::Next(Operation::Receive { max: self.chunk })
                } else {
                    self.stage = ServedStage::Over;
                    Step::Failed(NetbeatError::protocol(String::from_str("Expected upload start")))
                },
                Outcome::Failed(failure) => {
                    self.stage = ServedStage::Over;
                    fail_protocol("Failed to read upload signal - ", &failure)
                },
                _ => {
                    self.stage = ServedStage::Moving;
                    Step::Next(Operation::Receive { max: self.chunk })
                },
            },
            ServedStage::Moving => match outcome {
                Outcome::Frame(bytes) => if bytes.len() == 0 {
                    self.end = Some(UploadEnd::EndOfStream);
                    self.stage = ServedStage::Done;
                    Step::Finished
                } else if self.scan.push(bytes) {
                    self.end = Some(UploadEnd::Marker);
                    self.stage = ServedStage::Done;
                    Step::Finished
                } else {
                    Step::Next(Operation::Receive { max: self.chunk })
                },
                Outcome::Failed(_) => {
                    self.end = Some(UploadEnd::ReadFailed);
                    self.stage = ServedStage::Done;
                    Step::Finished
                },
                _ => Step::Next(Operation::Receive { max: self.chunk }),
            },
            _ => Step::Finished,
        }
    }
}

/// How the server's side of a download ended.
#[derive(Debug, Clone, Copy, PartialEq, Eq, Structural)]
pub enum DownloadEnd {
    /// A write timed out or found the connection closed: the client has what it wanted.
    PeerDone,
    /// A write failed in another way.
    Unexpected,
}

/// What a failed write of the download phase means: after a timeout, or on a
/// connection that the client has closed or reset, the client is done consuming.
pub open spec fn download_end(kind: IoErrorKind) -> DownloadEnd {
    match kind.class() {
        FailureClass::Timeout => DownloadEnd::PeerDone,
        FailureClass::Reset => DownloadEnd::PeerDone,
        _ => DownloadEnd::Unexpected,
    }
}

/// Classifies a failed write of the download phase.
pub fn classify_download_end(kind: IoErrorKind) -> (end: DownloadEnd)
    ensures
        end == download_end(kind),
{
    match kind.classify() {
        FailureClass::Timeout => DownloadEnd::PeerDone,
        FailureClass::Reset => DownloadEnd::PeerDone,
        _ => DownloadEnd::Unexpected,
    }
}

/// The download phase as the server feeds it.
#[derive(Debug, Clone, Copy, PartialEq, Eq, Structural)]
pub struct ServedDownload {
    /// Size of the transfer buffer in bytes
    pub chunk: u64,
    /// Number of whole buffers written
    pub written: u64,
    /// How the phase ended, once it has
    pub end: Option<DownloadEnd>,
    pub stage: ServedStage,
}

impl ServedDownload {
    /// The phase before anything has been asked.
    pub open spec fn initial(chunk: u64) -> ServedDownload {
        ServedDownload { chunk, written: 0, end: None, stage: ServedStage::Awaiting }
    }

    /// The operation whose outcome the phase awaits; none once it has ended.
    pub open spec fn pending(self) -> Option<Operation> {
        match self.stage {
            ServedStage::Awaiting => Some(Operation::ReadExact { len: 22 }),
            ServedStage::Preparing => Some(
                Operation::SetWriteTimeout { timeout: DOWNLOAD_WRITE_TIMEOUT },
            ),
            ServedStage::Moving => Some(Operation::SendPayload { len: self.chunk }),
            _ => None,
        }
    }

    /// The phase after `outcome`, and what it asks for next. The first read must be
    /// the message that begins a download. After that the transfer buffer is written
    /// over and over until a write fails, which ends the phase without failing the
    /// session.
    pub open spec fn next(self, outcome: OutcomeView) -> (ServedDownload, StepView) {
        let over = ServedDownload { stage: ServedStage::Over, ..self };
        let preparing = (
            ServedDownload { stage: ServedStage::Preparing, ..self },
            StepView::Next(Operation::SetWriteTimeout { timeout: DOWNLOAD_WRITE_TIMEOUT }),
        );
        let write = StepView::Next(Operation::SendPayload { len: self.chunk });
        match self.stage {
            ServedStage::Awaiting => match outcome {
                OutcomeView::Frame(bytes) => if bytes == Sentinel::DownloadStart.bytes() {
                    preparing
                } else {
                    (
                        over,
                        StepView::Failed(
                            ErrorView::Protocol { text: "Expected download start"@ },
                        ),
                    )
                },
                OutcomeView::Failed { text, .. } => (
                    over,
                    protocol_failure("Failed to read download signal - "@, text),
                ),
                _ => preparing,
            },
            ServedStage::Preparing => if outcome is Failed {
                (over, connection_failure(outcome))
            } else {
                (ServedDownload { stage: ServedStage::Moving, ..self }, write)
            },
            ServedStage::Moving => match outcome {
                OutcomeView::Failed { kind, .. } => (
                    ServedDownload {
                        end: Some(download_end(kind)),
                        stage: ServedStage::Done,
                        ..self
                    },
                    StepView::Finished,
                ),
                _ => (ServedDownload { written: ServedPing::one_more(self.written), ..self }, write),
            },
            _ => (self, StepView::Finished),
        }
    }

    /// Begins the phase: the message that begins a download is awaited.
    pub fn start(chunk: u64) -> (started: (ServedDownload, Operation))
        ensures
            started.0 == ServedDownload::initial(chunk),
            started.0.pending() == Some(started.1),
    {
        (
            ServedDownload { chunk, written: 0, end: None, stage: ServedStage::Awaiting },
            Operation::ReadExact { len: 22 },
        )
    }

    /// Takes in the outcome of the operation that the phase awaits and says what
    /// comes next.
    pub fn step(&mut self, outcome: Outcome) -> (step: Step)
        requires
            old(self).pending() matches Some(operation) && operation.admits(outcome@),
        ensures
            (*final(self), step@) == old(self).next(outcome@),
            match step@ {
                StepView::Next(operation) => final(self).pending() == Some(operation),
                _ => final(self).pending() is None,
            },
    {
        match self.stage {
            ServedStage::Awaiting => match outcome {
                Outcome::Frame(bytes) => if Sentinel::DownloadStart.matches(bytes) {
                    self.stage = ServedStage::Preparing;
                    Step::Next(Operation::SetWriteTimeout { timeout: DOWNLOAD_WRITE_TIMEOUT })
                } else {
                    self.stage = ServedStage::Over;
                    Step::Failed(
                        NetbeatError::protocol(String::from_str("Expected download start")),
                    )
                },
                Outcome::Failed(failure) => {
                    self.stage = ServedStage::Over;
                    fail_protocol("Failed to read download signal - ", &failure)
                },
                _ => {
                    self.stage = ServedStage::Preparing;
                    Step::Next(Operation::SetWriteTimeout { timeout: DOWNLOAD_WRITE_TIMEOUT })
                },
            },
            ServedStage::Preparing => match outcome {
                Outcome::Failed(failure) => {
                    self.stage = ServedStage::Over;
                    fail_connection(Outcome::Failed(failure))
                },
                _ => {
                    self.stage = ServedStage::Moving;
                    Step::Next(Operation::SendPayload { len: self.chunk })
                },
            },
            ServedStage::Moving => match outcome {
                Outcome::Failed(failure) => {
                    self.end = Some(classify_download_end(failure.kind));
                    self.stage = ServedStage::Done;
                    Step::Finished
                },
                _ => {
                    if self.written < u64::MAX {
                        self.written = self.written + 1;
                    }
                    Step::Next(Operation::SendPayload { len: self.chunk })
                },
            },
            _ => Step::Finished,
        }
    }
}

/// Where the worker stands.
#[derive(Debug, Clone, Copy, PartialEq, Eq, Structural)]
pub enum WorkerStage {
    /// The latency phase runs.
    Ping,
    /// The rest before the upload phase.
    Settling,
    /// The upload phase runs.
    Upload,
    /// The rest before the download phase.
    Turning,
    /// The download phase runs.
    Download,
    /// The session ran to its end.
    Done,
    /// The session was given up.
    Over,
}

impl WorkerStage {
    /// The place of a stage in the order in which a worker goes through them.
    pub open spec fn rank(self) -> nat {
        match self {
            WorkerStage::Ping => 0,
            WorkerStage::Settling => 1,
            WorkerStage::Upload => 2,
            WorkerStage::Turning => 3,
            WorkerStage::Download => 4,
            WorkerStage::Done => 5,
            WorkerStage::Over => 6,
        }
    }
}

/// The worker of one connection.
pub struct Worker {
    pub stage: WorkerStage,
    pub ping: ServedPing,
    pub upload: ServedUpload,
    pub download: ServedDownload,
}

/// The worker of one connection as mathematical values.
pub struct WorkerView {
    pub stage: WorkerStage,
    pub ping: ServedPing,
    pub upload: ServedUploadView,
    pub download: ServedDownload,
}

impl View for Worker {
    type V = WorkerView;

    open spec fn view(&self) -> WorkerView {
        WorkerView {
            stage: self.stage,
            ping: self.ping,
            upload: self.upload@,
            download: self.download,
        }
    }
}

impl WorkerView {
    /// The worker before anything has been asked.
    pub open spec fn initial(chunk: u64) -> WorkerView {
        WorkerView {
            stage: WorkerStage::Ping,
            ping: ServedPing::initial(),
            upload: ServedUploadView::initial(chunk),
            download: ServedDownload::initial(chunk),
        }
    }

    /// What holds of the worker at every moment: the phase in progress awaits an
    /// outcome, and the phases to come have not begun.
    pub open spec fn wf(self) -> bool {
        &&& self.upload.chunk == self.download.chunk
        &&& match self.stage {
            WorkerStage::Ping => {
                &&& self.ping.pending() is Some
                &&& self.upload == ServedUploadView::initial(self.upload.chunk)
                &&& self.download == ServedDownload::initial(self.download.chunk)
            },
            WorkerStage::Settling => {
                &&& self.upload == ServedUploadView::initial(self.upload.chunk)
                &&& self.download == ServedDownload::initial(self.download.chunk)
            },
            WorkerStage::Upload => {
                &&& self.upload.pending() is Some
                &&& self.download == ServedDownload::initial(self.download.chunk)
            },
            WorkerStage::Turning => self.download == ServedDownload::initial(self.download.chunk),
            WorkerStage::Download => self.download.pending() is Some,
            _ => true,
        }
    }

    /// The operation whose outcome the worker awaits; none once it has ended.
    pub open spec fn pending(self) -> Option<Operation> {
        match self.stage {
            WorkerStage::Ping => self.ping.pending(),
            WorkerStage::Settling => Some(Operation::Sleep { millis: PHASE_GAP_MILLIS }),
            WorkerStage::Upload => self.upload.pending(),
            WorkerStage::Turning => Some(Operation::Sleep { millis: PHASE_GAP_MILLIS }),
            WorkerStage::Download => self.download.pending(),
            _ => None,
        }
    }

    /// The worker after `outcome`, and what it asks for next: the phases follow one
    /// another with a rest between them, and the error of a phase ends the session.
    pub open spec fn next(self, outcome: OutcomeView) -> (WorkerView, StepView) {
        let rest = StepView::Next(Operation::Sleep { millis: PHASE_GAP_MILLIS });
        match self.stage {
            WorkerStage::Ping => {
                let (ping, step) = self.ping.next(outcome);
                match step {
                    StepView::Next(operation) => (
                        WorkerView { ping, ..self },
                        StepView::Next(operation),
                    ),
                    StepView::Finished => (
                        WorkerView { ping, stage: WorkerStage::Settling, ..self },
                        rest,
                    ),
                    StepView::Failed(error) => (
                        WorkerView { ping, stage: WorkerStage::Over, ..self },
                        test_failure("Ping test failed - "@, error),
                    ),
                }
            },
            WorkerStage::Settling => (
                WorkerView { stage: WorkerStage::Upload, ..self },
                StepView::Next(Operation::ReadExact { len: 20 }),
            ),
            WorkerStage::Upload => {
                let (upload, step) = self.upload.next(outcome);
                match step {
                    StepView::Next(operation) => (
                        WorkerView { upload, ..self },
                        StepView::Next(operation),
                    ),
                    StepView::Finished => (
                        WorkerView { upload, stage: WorkerStage::Turning, ..self },
                        rest,
                    ),
                    StepView::Failed(error) => (
                        WorkerView { upload, stage: WorkerStage::Over, ..self },
                        test_failure("Upload test failed - "@, error),
                    ),
                }
            },
            WorkerStage::Turning => (
                WorkerView { stage: WorkerStage::Download, ..self },
                StepView::Next(Operation::ReadExact { len: 22 }),
            ),
            WorkerStage::Download => {
                let (download, step) = self.download.next(outcome);
                match step {
                    StepView::Next(operation) => (
                        WorkerView { download, ..self },
                        StepView::Next(operation),
                    ),
                    StepView::Finished => (
                        WorkerView { download, stage: WorkerStage::Done, ..self },
                        StepView::Finished,
                    ),
                    StepView::Failed(error) => (
                        WorkerView { download, stage: WorkerStage::Over, ..self },
                        test_failure("Download test failed - "@, error),
                    ),
                }
            },
            _ => (self, StepView::Finished),
        }
    }
}

/// Every step keeps the worker well formed and asks next for the very operation that
/// the new state awaits. The stages follow one another in their order: a step stays
/// in its stage, moves to the next one, or gives the session up, and never goes back
/// or skips a phase.
pub proof fn lemma_worker_step(worker: WorkerView, outcome: OutcomeView)
    requires
        worker.wf(),
        worker.pending() matches Some(operation) && operation.admits(outcome),
    ensures
        worker.next(outcome).0.wf(),
        match worker.next(outcome).1 {
            StepView::Next(operation) => worker.next(outcome).0.pending() == Some(operation),
            _ => worker.next(outcome).0.pending() is None,
        },
        worker.next(outcome).1 is Finished ==> worker.next(outcome).0.stage == WorkerStage::Done,
        worker.next(outcome).0.stage.rank() >= worker.stage.rank(),
        worker.next(outcome).0.stage.rank() <= worker.stage.rank() + 1 || worker.next(
            outcome,
        ).0.stage == WorkerStage::Over,
{
}

impl Worker {
    /// Begins to serve a connection with a transfer buffer of `chunk` bytes.
    pub fn start(chunk: u64) -> (started: (Worker, Operation))
        ensures
            started.0@ == WorkerView::initial(chunk),
            started.0@.wf(),
            started.0@.pending() == Some(started.1),
    {
        let (ping, first) = ServedPing::start();
        let (upload, _) = ServedUpload::start(chunk);
        let (download, _) = ServedDownload::start(chunk);
        (Worker { stage: WorkerStage::Ping, ping, upload, download }, first)
    }

    /// Takes in the outcome of the operation that the worker awaits and says what
    /// comes next.
    pub fn step(&mut self, outcome: Outcome) -> (step: Step)
        requires
            old(self)@.wf(),
            old(self)@.pending() matches Some(operation) && operation.admits(outcome@),
        ensures
            (final(self)@, step@) == old(self)@.next(outcome@),
            final(self)@.wf(),
    {
        proof {
            lemma_worker_step(self@, outcome@);
        }
        match self.stage {
            WorkerStage::Ping => match self.ping.step(outcome) {
                Step::Next(operation) => Step::Next(operation),
                Step::Finished => {
                    self.stage = WorkerStage::Settling;
                    Step::Next(Operation::Sleep { millis: PHASE_GAP_MILLIS })
                },
                Step::Failed(error) => {
                    self.stage = WorkerStage::Over;
                    fail_test("Ping test failed - ", &error)
                },
            },
            WorkerStage::Settling => {
                self.stage = WorkerStage::Upload;
                Step::Next(Operation::ReadExact { len: 20 })
            },
            WorkerStage::Upload => match self.upload.step(outcome) {
                Step::Next(operation) => Step::Next(operation),
                Step::Finished => {
                    self.stage = WorkerStage::Turning;
                    Step::Next(Operation::Sleep { millis: PHASE_GAP_MILLIS })
                },
                Step::Failed(error) => {
                    self.stage = WorkerStage::Over;
                    fail_test("Upload test failed - ", &error)
                },
            },
            WorkerStage::Turning => {
                self.stage = WorkerStage::Download;
                Step::Next(Operation::ReadExact { len: 22 })
            },
            WorkerStage::Download => match self.download.step(outcome) {
                Step::Next(operation) => Step::Next(operation),
                Step::Finished => {
                    self.stage = WorkerStage::Done;
                    Step::Finished
                },
                Step::Failed(error) => {
                    self.stage = WorkerStage::Over;
                    fail_test("Download test failed - ", &error)
                },
            },
            _ => Step::Finished,
        }
    }
}

} // verus!
