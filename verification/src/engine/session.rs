//! A whole session, on the client: the connection attempts, then the three phases in
//! their fixed order, then the closing of the connection.

use crate::engine::client::Client;
use crate::engine::ping::{PingPhase, PingView};
use crate::engine::transfer::{phase_target, DownloadPhase, PhaseTarget, TransferStage, UploadPhase};
use crate::engine::transport::{
    connection_failure, fail_connection, fail_test, test_failure, Operation, Outcome, OutcomeView,
    Sentinel, Step, StepView,
};
use crate::output::reports::NetbeatReport;
use crate::utils::error::{ErrorView, NetbeatError};
use vstd::prelude::*;
use vstd::string::StringExecFns;

verus! {

/// Milliseconds of rest between the upload and the download, for the server to
/// take in what was uploaded.
pub const PAUSE_MILLIS: u64 = 500;

/// Where a session stands.
#[derive(Debug, Clone, Copy, PartialEq, Eq, Structural)]
pub enum ClientStage {
    /// A connection attempt is under way.
    Connecting,
    /// The connection is being configured.
    Configuring,
    /// The latency phase runs.
    Ping,
    /// The upload phase runs.
    Upload,
    /// The rest between upload and download.
    Pausing,
    /// The download phase runs.
    Download,
    /// The connection is being closed.
    Closing,
    /// The session ran to its end.
    Done,
    /// The session was given up.
    Over,
}

impl ClientStage {
    /// The place of a stage in the order in which a session goes through them.
    pub open spec fn rank(self) -> nat {
        match self {
            ClientStage::Connecting => 0,
            ClientStage::Configuring => 1,
            ClientStage::Ping => 2,
            ClientStage::Upload => 3,
            ClientStage::Pausing => 4,
            ClientStage::Download => 5,
            ClientStage::Closing => 6,
            ClientStage::Done => 7,
            ClientStage::Over => 8,
        }
    }
}

/// One session of the client against one server.
#[derive(Debug)]
pub struct ClientEngine {
    pub client: Client,
    /// The connection attempt under way, counted from one
    pub attempt: u32,
    pub stage: ClientStage,
    pub ping: PingPhase,
    pub upload: UploadPhase,
    pub download: DownloadPhase,
}

/// A session as mathematical values.
pub struct ClientEngineView {
    pub client: Client,
    pub attempt: u32,
    pub stage: ClientStage,
    pub ping: PingView,
    pub upload: UploadPhase,
    pub download: DownloadPhase,
}

impl View for ClientEngine {
    type V = ClientEngineView;

    open spec fn view(&self) -> ClientEngineView {
        ClientEngineView {
            client: self.client,
            attempt: self.attempt,
            stage: self.stage,
            ping: self.ping@,
            upload: self.upload,
            download: self.download,
        }
    }
}

impl ClientEngineView {
    /// The goal of both throughput phases.
    pub open spec fn target(self) -> PhaseTarget {
        phase_target(self.client.data, self.client.time)
    }

    /// The session before its first connection attempt.
    pub open spec fn initial(client: Client) -> ClientEngineView {
        ClientEngineView {
            client,
            attempt: 1,
            stage: if client.retries == 0 {
                ClientStage::Over
            } else {
                ClientStage::Connecting
            },
            ping: PingView::initial(client.ping_count),
            upload: UploadPhase::initial(
                phase_target(client.data, client.time),
                client.chunk_size,
            ),
            download: DownloadPhase::initial(
                phase_target(client.data, client.time),
                client.chunk_size,
            ),
        }
    }

    /// What holds of the session at every moment: the phase in progress is well
    /// formed and awaits an outcome, every phase before it ran to its end, and all
    /// phases run with the client's settings.
    pub open spec fn wf(self) -> bool {
        &&& self.client.wf()
        &&& self.ping.count == self.client.ping_count
        &&& self.upload.target == self.target()
        &&& self.upload.chunk == self.client.chunk_size
        &&& self.download.target == self.target()
        &&& self.download.chunk == self.client.chunk_size
        &&& match self.stage {
            ClientStage::Connecting => 1 <= self.attempt <= self.client.retries && self.unused(),
            ClientStage::Configuring => self.unused(),
            ClientStage::Ping => {
                &&& self.ping.wf()
                &&& self.ping.pending() is Some
                &&& self.upload == UploadPhase::initial(self.target(), self.client.chunk_size)
                &&& self.download == DownloadPhase::initial(self.target(), self.client.chunk_size)
            },
            ClientStage::Upload => {
                &&& self.ping.wf()
                &&& self.upload.wf()
                &&& self.upload.pending() is Some
                &&& self.download == DownloadPhase::initial(self.target(), self.client.chunk_size)
            },
            ClientStage::Pausing => {
                &&& self.ping.wf()
                &&& self.upload.wf()
                &&& self.upload.stage == TransferStage::Done
                &&& self.download == DownloadPhase::initial(self.target(), self.client.chunk_size)
            },
            ClientStage::Download => {
                &&& self.ping.wf()
                &&& self.upload.wf()
                &&& self.upload.stage == TransferStage::Done
                &&& self.download.wf()
                &&& self.download.pending() is Some
            },
            ClientStage::Closing => self.complete(),
            ClientStage::Done => self.complete(),
            ClientStage::Over => true,
        }
    }

    /// No phase has begun.
    pub open spec fn unused(self) -> bool {
        &&& self.ping == PingView::initial(self.client.ping_count)
        &&& self.upload == UploadPhase::initial(self.target(), self.client.chunk_size)
        &&& self.download == DownloadPhase::initial(self.target(), self.client.chunk_size)
    }

    /// All three phases ran to their end.
    pub open spec fn complete(self) -> bool {
        &&& self.ping.wf()
        &&& self.upload.wf()
        &&& self.upload.stage == TransferStage::Done
        &&& self.download.wf()
        &&& self.download.stage == TransferStage::Done
    }

    /// The operation whose outcome the session awaits; none once it has ended.
    pub open spec fn pending(self) -> Option<Operation> {
        match self.stage {
            ClientStage::Connecting => Some(Operation::Connect { timeout: self.client.timeout }),
            ClientStage::Configuring => Some(
                Operation::Configure { timeout: self.client.timeout },
            ),
            ClientStage::Ping => self.ping.pending(),
            ClientStage::Upload => self.upload.pending(),
            ClientStage::Pausing => Some(Operation::Sleep { millis: PAUSE_MILLIS }),
            ClientStage::Download => self.download.pending(),
            ClientStage::Closing => Some(Operation::Shutdown),
            _ => None,
        }
    }

    /// What the session asks for first: a connection attempt, unless none is allowed.
    pub open spec fn first_step(client: Client) -> StepView {
        if client.retries == 0 {
            StepView::Failed(ErrorView::Client { text: "All connection attempts failed"@ })
        } else {
            StepView::Next(Operation::Connect { timeout: client.timeout })
        }
    }

    /// The session after `outcome`, observed at `now`, and what it asks for next.
    pub open spec fn next(self, outcome: OutcomeView, now: u64) -> (ClientEngineView, StepView) {
        let over = ClientEngineView { stage: ClientStage::Over, ..self };
        match self.stage {
            ClientStage::Connecting => match outcome {
                OutcomeView::Failed { .. } => if self.attempt < self.client.retries {
                    (
                        ClientEngineView { attempt: (self.attempt + 1) as u32, ..self },
                        StepView::Next(Operation::Connect { timeout: self.client.timeout }),
                    )
                } else {
                    (over, connection_failure(outcome))
                },
                _ => (
                    ClientEngineView { stage: ClientStage::Configuring, ..self },
                    StepView::Next(Operation::Configure { timeout: self.client.timeout }),
                ),
            },
            ClientStage::Configuring => match outcome {
                OutcomeView::Failed { .. } => (over, connection_failure(outcome)),
                _ => (
                    ClientEngineView { stage: ClientStage::Ping, ..self },
                    StepView::Next(Operation::Send { message: Sentinel::Ping }),
                ),
            },
            ClientStage::Ping => {
                let (ping, step) = self.ping.next(outcome, now);
                match step {
                    StepView::Next(operation) => (
                        ClientEngineView { ping, ..self },
                        StepView::Next(operation),
                    ),
                    StepView::Finished => (
                        ClientEngineView { ping, stage: ClientStage::Upload, ..self },
                        StepView::Next(Operation::Send { message: Sentinel::UploadStart }),
                    ),
                    StepView::Failed(error) => (
                        ClientEngineView { ping, stage: ClientStage::Over, ..self },
                        test_failure("Ping test failed - "@, error),
                    ),
                }
            },
            ClientStage::Upload => {
                let (upload, step) = self.upload.next(outcome, now);
                match step {
                    StepView::Next(operation) => (
                        ClientEngineView { upload, ..self },
                        StepView::Next(operation),
                    ),
                    StepView::Finished => (
                        ClientEngineView { upload, stage: ClientStage::Pausing, ..self },
                        StepView::Next(Operation::Sleep { millis: PAUSE_MILLIS }),
                    ),
                    StepView::Failed(error) => (
                        ClientEngineView { upload, stage: ClientStage::Over, ..self },
                        test_failure("Upload test failed - "@, error),
                    ),
                }
            },
            ClientStage::Pausing => (
                ClientEngineView { stage: ClientStage::Download, ..self },
                StepView::Next(Operation::Send { message: Sentinel::DownloadStart }),
            ),
            ClientStage::Download => {
                let (download, step) = self.download.next(outcome, now);
                match step {
                    StepView::Next(operation) => (
                        ClientEngineView { download, ..self },
                        StepView::Next(operation),
                    ),
                    StepView::Finished => (
                        ClientEngineView { download, stage: ClientStage::Closing, ..self },
                        StepView::Next(Operation::Shutdown),
                    ),
                    StepView::Failed(error) => (
                        ClientEngineView { download, stage: ClientStage::Over, ..self },
                        test_failure("Download test failed - "@, error),
                    ),
                }
            },
            ClientStage::Closing => match outcome {
                OutcomeView::Failed { .. } => (over, connection_failure(outcome)),
                _ => (ClientEngineView { stage: ClientStage::Done, ..self }, StepView::Finished),
            },
            _ => (self, StepView::Finished),
        }
    }

    /// The session after `times` connection attempts in a row have failed, each with
    /// the same failure, and what it asks for then.
    pub open spec fn refused(self, times: nat, failure: OutcomeView, now: u64) -> (
        ClientEngineView,
        StepView,
    )
        decreases times,
    {
        if times <= 1 {
            self.next(failure, now)
        } else {
            self.refused((times - 1) as nat, failure, now).0.next(failure, now)
        }
    }
}

/// Every step keeps the session well formed and asks next for the very operation that
/// the new state awaits; the client's settings never change. The stages follow one
/// another in their order: a step stays in its stage, moves to the next one, or gives
/// the session up, and never goes back or skips a phase.
pub proof fn lemma_client_step(engine: ClientEngineView, outcome: OutcomeView, now: u64)
    requires
        engine.wf(),
        engine.pending() matches Some(operation) && operation.admits(outcome),
    ensures
        engine.next(outcome, now).0.wf(),
        engine.next(outcome, now).0.client == engine.client,
        match engine.next(outcome, now).1 {
            StepView::Next(operation) => engine.next(outcome, now).0.pending() == Some(operation),
            _ => engine.next(outcome, now).0.pending() is None,
        },
        engine.next(outcome, now).1 is Finished ==> engine.next(outcome, now).0.stage
            == ClientStage::Done,
        engine.next(outcome, now).0.stage.rank() >= engine.stage.rank(),
        engine.next(outcome, now).0.stage.rank() <= engine.stage.rank() + 1
            || engine.next(outcome, now).0.stage == ClientStage::Over,
{
    match engine.stage {
        ClientStage::Ping => {
            crate::engine::ping::lemma_ping_step(engine.ping, outcome, now);
        },
        ClientStage::Upload => {
            crate::engine::transfer::lemma_upload_step(engine.upload, outcome, now);
        },
        ClientStage::Download => {
            crate::engine::transfer::lemma_download_step(engine.download, outcome, now);
        },
        _ => {},
    }
}

/// Against a server that cannot be reached, a client allowed `retries` attempts makes
/// exactly that many: after each failure but the last it asks for another attempt,
/// and after the last it gives up with a connection error that carries the cause.
pub proof fn lemma_connection_attempts(
    client: Client,
    kind: crate::utils::error::IoErrorKind,
    text: Seq<char>,
    now: u64,
    failures: nat,
)
    requires
        client.wf(),
        1 <= failures <= client.retries,
    ensures
        ({
            let failure = OutcomeView::Failed { kind, text };
            let (engine, step) = ClientEngineView::initial(client).refused(failures, failure, now);
            if failures < client.retries {
                &&& step == StepView::Next(Operation::Connect { timeout: client.timeout })
                &&& engine.stage == ClientStage::Connecting
                &&& engine.attempt == failures + 1
                &&& engine.client == client
            } else {
                &&& step == StepView::Failed(ErrorView::Connection { kind, text })
                &&& engine.stage == ClientStage::Over
            }
        }),
    decreases failures,
{
    if failures > 1 {
        lemma_connection_attempts(client, kind, text, now, (failures - 1) as nat);
    }
}

impl ClientEngineView {
    /// The session after a run of outcomes, each with the time at which it was
    /// observed.
    pub open spec fn after(self, outcomes: Seq<(OutcomeView, u64)>) -> ClientEngineView
        decreases outcomes.len(),
    {
        if outcomes.len() == 0 {
            self
        } else {
            self.after(outcomes.drop_last()).next(outcomes.last().0, outcomes.last().1).0
        }
    }

    /// Whether every outcome of a run answers the operation that is awaited when it
    /// comes.
    pub open spec fn answered_by(self, outcomes: Seq<(OutcomeView, u64)>) -> bool
        decreases outcomes.len(),
    {
        outcomes.len() == 0 || {
            &&& self.answered_by(outcomes.drop_last())
            &&& self.after(outcomes.drop_last()).pending() matches Some(operation)
                && operation.admits(outcomes.last().0)
        }
    }
}

/// However a session runs, once it has run to its end no more pings were answered
/// than the client asked for, and with a goal in bytes exactly that many bytes were
/// uploaded, and as many downloaded unless the server ended the stream first.
pub proof fn lemma_session_figures(client: Client, outcomes: Seq<(OutcomeView, u64)>)
    requires
        client.wf(),
        ClientEngineView::initial(client).answered_by(outcomes),
    ensures
        ClientEngineView::initial(client).after(outcomes).wf(),
        ClientEngineView::initial(client).after(outcomes).client == client,
        ClientEngineView::initial(client).after(outcomes).stage == ClientStage::Done ==> ({
            let end = ClientEngineView::initial(client).after(outcomes);
            &&& end.ping.successful <= client.ping_count
            &&& end.ping.samples.len() == end.ping.successful
            &&& phase_target(client.data, client.time) matches PhaseTarget::Bytes(bytes) ==> {
                &&& end.upload.sent == bytes
                &&& end.download.received <= bytes
                &&& !end.download.drained ==> end.download.received == bytes
            }
        }),
    decreases outcomes.len(),
{
    if outcomes.len() > 0 {
        let before = outcomes.drop_last();
        lemma_session_figures(client, before);
        lemma_client_step(
            ClientEngineView::initial(client).after(before),
            outcomes.last().0,
            outcomes.last().1,
        );
    }
}

impl Client {
    /// Begins a session: the engine, and the first thing it asks for. With no
    /// connection attempt allowed the session fails at once.
    pub fn contact(&self) -> (begun: (ClientEngine, Step))
        requires
            self.wf(),
        ensures
            begun.0@ == ClientEngineView::initial(*self),
            begun.1@ == ClientEngineView::first_step(*self),
            begun.0@.wf(),
            match begun.1@ {
                StepView::Next(operation) => begun.0@.pending() == Some(operation),
                _ => begun.0@.pending() is None,
            },
    {
        let target = PhaseTarget::new(self.data, self.time);
        let (ping, _) = PingPhase::start(self.ping_count);
        let (upload, _) = UploadPhase::start(target, self.chunk_size);
        let (download, _) = DownloadPhase::start(target, self.chunk_size);
        if self.retries == 0 {
            (
                ClientEngine {
                    client: *self,
                    attempt: 1,
                    stage: ClientStage::Over,
                    ping,
                    upload,
                    download,
                },
                Step::Failed(
                    NetbeatError::client(String::from_str("All connection attempts failed")),
                ),
            )
        } else {
            (
                ClientEngine {
                    client: *self,
                    attempt: 1,
                    stage: ClientStage::Connecting,
                    ping,
                    upload,
                    download,
                },
                Step::Next(Operation::Connect { timeout: self.timeout }),
            )
        }
    }
}

impl ClientEngine {
    /// Takes in the outcome of the operation that the session awaits, observed at
    /// `now` (nanoseconds on the caller's clock), and says what comes next.
    pub fn step(&mut self, outcome: Outcome, now: u64) -> (step: Step)
        requires
            old(self)@.wf(),
            old(self)@.pending() matches Some(operation) && operation.admits(outcome@),
        ensures
            (final(self)@, step@) == old(self)@.next(outcome@, now),
            final(self)@.wf(),
    {
        proof {
            lemma_client_step(self@, outcome@, now);
        }
        match self.stage {
            ClientStage::Connecting => match outcome {
                Outcome::Failed(failure) => if self.attempt < self.client.retries {
                    self.attempt = self.attempt + 1;
                    Step::Next(Operation::Connect { timeout: self.client.timeout })
                } else {
                    self.stage = ClientStage::Over;
                    fail_connection(Outcome::Failed(failure))
                },
                _ => {
                    self.stage = ClientStage::Configuring;
                    Step::Next(Operation::Configure { timeout: self.client.timeout })
                },
            },
            ClientStage::Configuring => match outcome {
                Outcome::Failed(failure) => {
                    self.stage = ClientStage::Over;
                    fail_connection(Outcome::Failed(failure))
                },
                _ => {
                    self.stage = ClientStage::Ping;
                    Step::Next(Operation::Send { message: Sentinel::Ping })
                },
            },
            ClientStage::Ping => match self.ping.step(outcome, now) {
                Step::Next(operation) => Step::Next(operation),
                Step::Finished => {
                    self.stage = ClientStage::Upload;
                    Step::Next(Operation::Send { message: Sentinel::UploadStart })
                },
                Step::Failed(error) => {
                    self.stage = ClientStage::Over;
                    fail_test("Ping test failed - ", &error)
                },
            },
            ClientStage::Upload => match self.upload.step(outcome, now) {
                Step::Next(operation) => Step::Next(operation),
                Step::Finished => {
                    self.stage = ClientStage::Pausing;
                    Step::Next(Operation::Sleep { millis: PAUSE_MILLIS })
                },
                Step::Failed(error) => {
                    self.stage = ClientStage::Over;
                    fail_test("Upload test failed - ", &error)
                },
            },
            ClientStage::Pausing => {
                self.stage = ClientStage::Download;
                Step::Next(Operation::Send { message: Sentinel::DownloadStart })
            },
            ClientStage::Download => match self.download.step(outcome, now) {
                Step::Next(operation) => Step::Next(operation),
                Step::Finished => {
                    self.stage = ClientStage::Closing;
                    Step::Next(Operation::Shutdown)
                },
                Step::Failed(error) => {
                    self.stage = ClientStage::Over;
                    fail_test("Download test failed - ", &error)
                },
            },
            ClientStage::Closing => match outcome {
                Outcome::Failed(failure) => {
                    self.stage = ClientStage::Over;
                    fail_connection(Outcome::Failed(failure))
                },
                _ => {
                    self.stage = ClientStage::Done;
                    Step::Finished
                },
            },
            _ => Step::Finished,
        }
    }

    /// The result of a session that ran to its end. As many pings were sent as the
    /// client asks for and no more were answered than sent; with a goal in bytes,
    /// exactly that many bytes were uploaded, and as many downloaded unless the
    /// server ended the stream first.
    pub fn into_report(self) -> (report: NetbeatReport)
        requires
            self@.wf(),
            self@.stage == ClientStage::Done,
        ensures
            report.ping_report.wf(),
            report.ping_report.ping_count == self@.client.ping_count,
            report.ping_report.successful_pings == self@.ping.successful,
            report.ping_report.ping_times@ == self@.ping.samples,
            report.ping_report.successful_pings <= report.ping_report.ping_count,
            report.upload_report.report_type@ == "upload"@,
            report.upload_report.bytes == self@.upload.sent,
            report.upload_report.duration == self@.upload.duration,
            report.download_report.report_type@ == "download"@,
            report.download_report.bytes == self@.download.received,
            report.download_report.duration == self@.download.duration,
            self@.target() matches PhaseTarget::Bytes(bytes) ==> {
                &&& report.upload_report.bytes == bytes
                &&& report.download_report.bytes <= bytes
                &&& !self@.download.drained ==> report.download_report.bytes == bytes
            },
    {
        let upload_report = self.upload.report();
        let download_report = self.download.report();
        let ping_report = self.ping.into_report();
        NetbeatReport::new(ping_report, upload_report, download_report)
    }
}

} // verus!
