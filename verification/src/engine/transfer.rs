//! The two throughput phases, on the client: upload, then download. Each runs to a
//! goal in bytes or in time, and counts exactly what went over the connection.

use crate::engine::config::{MAX_CHUNK_BYTES, MIN_CHUNK_BYTES};
use crate::engine::protocol::chunk_size_in_range;
use crate::engine::transport::{
    elapsed, elapsed_between, fail_protocol, protocol_failure, Operation, Outcome, OutcomeView,
    Sentinel, Step, StepView,
};
use crate::output::reports::{SpeedReport, NANOS_PER_SECOND};
use vstd::prelude::*;

verus! {

/// The goal of a throughput phase: an amount of data, or a length of time.
#[derive(Debug, Clone, Copy, PartialEq, Eq, Structural)]
pub enum PhaseTarget {
    /// Move exactly this many bytes; never zero.
    Bytes(u64),
    /// Keep moving data until this many seconds have passed.
    Seconds(u64),
}

/// The goal that a configuration stands for: the amount of data where one is given
/// and is not zero, else the length of time.
pub open spec fn phase_target(data: Option<u64>, time: u64) -> PhaseTarget {
    match data {
        Some(bytes) => if bytes > 0 {
            PhaseTarget::Bytes(bytes)
        } else {
            PhaseTarget::Seconds(time)
        },
        None => PhaseTarget::Seconds(time),
    }
}

impl PhaseTarget {
    /// The goal that a configuration stands for.
    pub fn new(data: Option<u64>, time: u64) -> (target: PhaseTarget)
        ensures
            target == phase_target(data, time),
            target.wf(),
    {
        match data {
            Some(bytes) => if bytes > 0 {
                PhaseTarget::Bytes(bytes)
            } else {
                PhaseTarget::Seconds(time)
            },
            None => PhaseTarget::Seconds(time),
        }
    }

    /// A goal in bytes is never zero.
    pub open spec fn wf(self) -> bool {
        self matches PhaseTarget::Bytes(bytes) ==> bytes > 0
    }

    /// Whether the phase goes on, with `moved` bytes over the connection and `spent`
    /// nanoseconds gone: while bytes are missing, or while time is left and the count
    /// has room for another chunk.
    pub open spec fn unmet(self, moved: u64, spent: u64, chunk: u64) -> bool {
        match self {
            PhaseTarget::Bytes(bytes) => moved < bytes,
            PhaseTarget::Seconds(seconds) => spent < seconds * NANOS_PER_SECOND && moved + chunk
                <= u64::MAX,
        }
    }

    /// The size of the next piece: a whole chunk, or what is missing where that is less.
    pub open spec fn piece(self, moved: u64, chunk: u64) -> u64 {
        match self {
            PhaseTarget::Bytes(bytes) => if bytes - moved >= chunk {
                chunk
            } else {
                (bytes - moved) as u64
            },
            PhaseTarget::Seconds(_) => chunk,
        }
    }

    /// Whether the phase goes on.
    pub fn is_unmet(self, moved: u64, spent: u64, chunk: u64) -> (unmet: bool)
        ensures
            unmet == self.unmet(moved, spent, chunk),
    {
        match self {
            PhaseTarget::Bytes(bytes) => moved < bytes,
            PhaseTarget::Seconds(seconds) => {
                assert(seconds * NANOS_PER_SECOND <= u128::MAX) by (nonlinear_arith)
                    requires
                        seconds <= 0xffff_ffff_ffff_ffff,
                        NANOS_PER_SECOND == 1_000_000_000,
                        u128::MAX == 0xffff_ffff_ffff_ffff_ffff_ffff_ffff_ffff,
                ;
                let limit: u128 = (seconds as u128) * (NANOS_PER_SECOND as u128);
                (spent as u128) < limit && moved <= u64::MAX - chunk
            },
        }
    }

    /// The size of the next piece.
    pub fn next_piece(self, moved: u64, chunk: u64) -> (piece: u64)
        requires
            self matches PhaseTarget::Bytes(bytes) ==> moved <= bytes,
        ensures
            piece == self.piece(moved, chunk),
            piece <= chunk,
    {
        match self {
            PhaseTarget::Bytes(bytes) => if bytes - moved >= chunk {
                chunk
            } else {
                bytes - moved
            },
            PhaseTarget::Seconds(_) => chunk,
        }
    }
}

/// Number of pieces of data between two looks at whether progress is to be shown.
pub const PROGRESS_CHECK_INTERVAL: u64 = 500;

/// Whether progress is to be shown, `pieces` pieces of data into a phase and `since`
/// nanoseconds after it was last shown: at every 500th piece, if a second has passed.
pub open spec fn progress_is_due(pieces: u64, since: u64) -> bool {
    pieces % PROGRESS_CHECK_INTERVAL == 0 && since >= NANOS_PER_SECOND
}

/// Whether progress is to be shown.
pub fn progress_due(pieces: u64, since: u64) -> (due: bool)
    ensures
        due == progress_is_due(pieces, since),
{
    pieces % PROGRESS_CHECK_INTERVAL == 0 && since >= NANOS_PER_SECOND
}

/// Where a throughput phase stands.
#[derive(Debug, Clone, Copy, PartialEq, Eq, Structural)]
pub enum TransferStage {
    /// The message that begins the phase is being sent.
    Announcing,
    /// A piece of data is on its way.
    Moving,
    /// The message that ends the phase is being sent.
    Closing,
    /// What was written is being flushed.
    Flushing,
    /// The phase ran to its end.
    Done,
    /// The phase was given up.
    Over,
}

/// The upload phase of one session.
#[derive(Debug, Clone, Copy, PartialEq, Eq, Structural)]
pub struct UploadPhase {
    pub target: PhaseTarget,
    /// Size of the transfer buffer in bytes
    pub chunk: u64,
    /// Bytes written so far
    pub sent: u64,
    /// Size of the piece that is on its way
    pub asked: u64,
    /// When the phase began to move data
    pub started: u64,
    /// How long the phase moved data, in nanoseconds
    pub duration: u64,
    pub stage: TransferStage,
}

impl UploadPhase {
    /// The phase before anything has been sent.
    pub open spec fn initial(target: PhaseTarget, chunk: u64) -> UploadPhase {
        UploadPhase {
            target,
            chunk,
            sent: 0,
            asked: 0,
            started: 0,
            duration: 0,
            stage: TransferStage::Announcing,
        }
    }

    /// What holds of the phase at every moment: the count never passes a goal in
    /// bytes, not even with the piece that is on its way, and once the data has all
    /// been moved the count is the goal.
    pub open spec fn wf(self) -> bool {
        &&& self.target.wf()
        &&& chunk_size_in_range(self.chunk)
        &&& self.target matches PhaseTarget::Bytes(bytes) ==> self.sent <= bytes
        &&& match self.stage {
            TransferStage::Announcing => self.sent == 0,
            TransferStage::Moving => {
                &&& 0 < self.asked <= self.chunk
                &&& self.sent + self.asked <= u64::MAX
                &&& self.target matches PhaseTarget::Bytes(bytes) ==> self.sent + self.asked
                    <= bytes
            },
            TransferStage::Over => true,
            _ => self.target matches PhaseTarget::Bytes(bytes) ==> self.sent == bytes,
        }
    }

    /// The operation whose outcome the phase awaits; none once it has ended.
    pub open spec fn pending(self) -> Option<Operation> {
        match self.stage {
            TransferStage::Announcing => Some(Operation::Send { message: Sentinel::UploadStart }),
            TransferStage::Moving => Some(Operation::SendPayload { len: self.asked }),
            TransferStage::Closing => Some(Operation::Send { message: Sentinel::UploadDone }),
            TransferStage::Flushing => Some(Operation::Flush),
            _ => None,
        }
    }

    /// Sends the next piece while the goal is unmet, else ends the moving of data.
    pub open spec fn pumped(self, now: u64) -> (UploadPhase, StepView) {
        if self.target.unmet(self.sent, elapsed_between(self.started, now), self.chunk) {
            let asked = self.target.piece(self.sent, self.chunk);
            (
                UploadPhase { asked, stage: TransferStage::Moving, ..self },
                StepView::Next(Operation::SendPayload { len: asked }),
            )
        } else {
            (
                UploadPhase {
                    duration: elapsed_between(self.started, now),
                    stage: TransferStage::Closing,
                    ..self
                },
                StepView::Next(Operation::Send { message: Sentinel::UploadDone }),
            )
        }
    }

    /// The phase after `outcome`, observed at `now`, and what it asks for next.
    pub open spec fn next(self, outcome: OutcomeView, now: u64) -> (UploadPhase, StepView) {
        let over = UploadPhase { stage: TransferStage::Over, ..self };
        match self.stage {
            TransferStage::Announcing => match outcome {
                OutcomeView::Failed { text, .. } => (
                    over,
                    protocol_failure("Failed to send upload start message - "@, text),
                ),
                _ => UploadPhase { started: now, ..self }.pumped(now),
            },
            TransferStage::Moving => match outcome {
                OutcomeView::Failed { text, .. } => (
                    over,
                    protocol_failure("Failed to send upload buffer - "@, text),
                ),
                _ => UploadPhase { sent: (self.sent + self.asked) as u64, ..self }.pumped(now),
            },
            TransferStage::Closing => match outcome {
                OutcomeView::Failed { text, .. } => (
                    over,
                    protocol_failure("Failed to send close message - "@, text),
                ),
                _ => (
                    UploadPhase { stage: TransferStage::Flushing, ..self },
                    StepView::Next(Operation::Flush),
                ),
            },
            TransferStage::Flushing => match outcome {
                OutcomeView::Failed { text, .. } => (
                    over,
                    protocol_failure("Failed to flush stream - "@, text),
                ),
                _ => (UploadPhase { stage: TransferStage::Done, ..self }, StepView::Finished),
            },
            _ => (self, StepView::Finished),
        }
    }

    /// Begins the phase: the message that begins the upload is sent first.
    pub fn start(target: PhaseTarget, chunk: u64) -> (started: (UploadPhase, Operation))
        requires
            target.wf(),
            chunk_size_in_range(chunk),
        ensures
            started.0 == UploadPhase::initial(target, chunk),
            started.0.wf(),
            started.0.pending() == Some(started.1),
    {
        (
            UploadPhase {
                target,
                chunk,
                sent: 0,
                asked: 0,
                started: 0,
                duration: 0,
                stage: TransferStage::Announcing,
            },
            Operation::Send { message: Sentinel::UploadStart },
        )
    }

    fn pump(&mut self, now: u64) -> (step: Step)
        requires
            old(self).target matches PhaseTarget::Bytes(bytes) ==> old(self).sent <= bytes,
        ensures
            (*final(self), step@) == old(self).pumped(now),
    {
        let spent = elapsed(self.started, now);
        if self.target.is_unmet(self.sent, spent, self.chunk) {
            self.asked = self.target.next_piece(self.sent, self.chunk);
            self.stage = TransferStage::Moving;
            Step::Next(Operation::SendPayload { len: self.asked })
        } else {
            self.duration = spent;
            self.stage = TransferStage::Closing;
            Step::Next(Operation::Send { message: Sentinel::UploadDone })
        }
    }

    /// Takes in the outcome of the operation that the phase awaits, observed at `now`
    /// (nanoseconds on the caller's clock), and says what comes next.
    pub fn step(&mut self, outcome: Outcome, now: u64) -> (step: Step)
        requires
            old(self).wf(),
            old(self).pending() matches Some(operation) && operation.admits(outcome@),
        ensures
            (*final(self), step@) == old(self).next(outcome@, now),
            final(self).wf(),
    {
        proof {
            lemma_upload_step(*self, outcome@, now);
        }
        match self.stage {
            TransferStage::Announcing => match outcome {
                Outcome::Failed(failure) => {
                    self.stage = TransferStage::Over;
                    fail_protocol("Failed to send upload start message - ", &failure)
                },
                _ => {
                    self.started = now;
                    self.pump(now)
                },
            },
            TransferStage::Moving => match outcome {
                Outcome::Failed(failure) => {
                    self.stage = TransferStage::Over;
                    fail_protocol("Failed to send upload buffer - ", &failure)
                },
                _ => {
                    self.sent = self.sent + self.asked;
                    self.pump(now)
                },
            },
            TransferStage::Closing => match outcome {
                Outcome::Failed(failure) => {
                    self.stage = TransferStage::Over;
                    fail_protocol("Failed to send close message - ", &failure)
                },
                _ => {
                    self.stage = TransferStage::Flushing;
                    Step::Next(Operation::Flush)
                },
            },
            TransferStage::Flushing => match outcome {
                Outcome::Failed(failure) => {
                    self.stage = TransferStage::Over;
                    fail_protocol("Failed to flush stream - ", &failure)
                },
                _ => {
                    self.stage = TransferStage::Done;
                    Step::Finished
                },
            },
            _ => Step::Finished,
        }
    }

    /// The figures of the phase: the bytes written and the time it took to write them.
    /// Of a phase that ran to its end with a goal in bytes, the bytes are the goal.
    pub fn report(&self) -> (report: SpeedReport)
        requires
            self.wf(),
        ensures
            report.report_type@ == "upload"@,
            report.bytes == self.sent,
            report.duration == self.duration,
            self.stage == TransferStage::Done ==> (self.target matches PhaseTarget::Bytes(bytes)
                ==> report.bytes == bytes),
    {
        SpeedReport::new("upload", self.duration, self.sent).unwrap()
    }
}

/// Every step of an upload keeps the phase well formed, asks next for the very
/// operation that the new state awaits, never asks for more bytes than are missing
/// from a goal in bytes, and leaves the goal and the chunk size as they were.
pub proof fn lemma_upload_step(phase: UploadPhase, outcome: OutcomeView, now: u64)
    requires
        phase.wf(),
        phase.pending() matches Some(operation) && operation.admits(outcome),
    ensures
        phase.next(outcome, now).0.wf(),
        phase.next(outcome, now).0.target == phase.target,
        phase.next(outcome, now).0.chunk == phase.chunk,
        phase.next(outcome, now).0.sent >= phase.sent,
        match phase.next(outcome, now).1 {
            StepView::Next(operation) => phase.next(outcome, now).0.pending() == Some(operation),
            _ => phase.next(outcome, now).0.pending() is None,
        },
        phase.next(outcome, now).1 matches StepView::Next(Operation::SendPayload { len })
            ==> (phase.target matches PhaseTarget::Bytes(bytes) ==> phase.next(outcome, now).0.sent
            + len <= bytes),
        phase.next(outcome, now).1 is Finished ==> (phase.target matches PhaseTarget::Bytes(
            bytes,
        ) ==> phase.next(outcome, now).0.sent == bytes),
{
}

impl UploadPhase {
    /// The phase after a run of outcomes, each with the time at which it was observed.
    pub open spec fn after(self, outcomes: Seq<(OutcomeView, u64)>) -> UploadPhase
        decreases outcomes.len(),
    {
        if outcomes.len() == 0 {
            self
        } else {
            self.after(outcomes.drop_last()).next(outcomes.last().0, outcomes.last().1).0
        }
    }

    /// Whether every outcome of a run answers the operation that is awaited when it
    /// comes.
    pub open spec fn answered_by(self, outcomes: Seq<(OutcomeView, u64)>) -> bool
        decreases outcomes.len(),
    {
        outcomes.len() == 0 || {
            &&& self.answered_by(outcomes.drop_last())
            &&& self.after(outcomes.drop_last()).pending() matches Some(operation)
                && operation.admits(outcomes.last().0)
        }
    }
}

/// However an upload runs, it never writes more than a goal in bytes, and once it has
/// run to its end it has written exactly the goal, whether or not the chunk size
/// divides it.
pub proof fn lemma_upload_meets_target(
    target: PhaseTarget,
    chunk: u64,
    outcomes: Seq<(OutcomeView, u64)>,
)
    requires
        target.wf(),
        chunk_size_in_range(chunk),
        UploadPhase::initial(target, chunk).answered_by(outcomes),
    ensures
        UploadPhase::initial(target, chunk).after(outcomes).wf(),
        UploadPhase::initial(target, chunk).after(outcomes).target == target,
        target matches PhaseTarget::Bytes(bytes) ==> {
            &&& UploadPhase::initial(target, chunk).after(outcomes).sent <= bytes
            &&& UploadPhase::initial(target, chunk).after(outcomes).stage == TransferStage::Done
                ==> UploadPhase::initial(target, chunk).after(outcomes).sent == bytes
        },
    decreases outcomes.len(),
{
    if outcomes.len() > 0 {
        let before = outcomes.drop_last();
        lemma_upload_meets_target(target, chunk, before);
        lemma_upload_step(
            UploadPhase::initial(target, chunk).after(before),
            outcomes.last().0,
            outcomes.last().1,
        );
    }
}

/// The download phase of one session.
#[derive(Debug, Clone, Copy, PartialEq, Eq, Structural)]
pub struct DownloadPhase {
    pub target: PhaseTarget,
    /// Size of the transfer buffer in bytes
    pub chunk: u64,
    /// Bytes read so far
    pub received: u64,
    /// The most that the read in progress may give
    pub asked: u64,
    /// Whether the peer ended the stream
    pub drained: bool,
    /// When the phase began to move data
    pub started: u64,
    /// How long the phase moved data, in nanoseconds
    pub duration: u64,
    pub stage: TransferStage,
}

impl DownloadPhase {
    /// The phase before anything has been sent.
    pub open spec fn initial(target: PhaseTarget, chunk: u64) -> DownloadPhase {
        DownloadPhase {
            target,
            chunk,
            received: 0,
            asked: 0,
            drained: false,
            started: 0,
            duration: 0,
            stage: TransferStage::Announcing,
        }
    }

    /// What holds of the phase at every moment: the count never passes a goal in
    /// bytes, whatever the read in progress gives, and once the reading has ended the
    /// count is the goal unless the peer ended the stream first.
    pub open spec fn wf(self) -> bool {
        &&& self.target.wf()
        &&& chunk_size_in_range(self.chunk)
        &&& self.target matches PhaseTarget::Bytes(bytes) ==> self.received <= bytes
        &&& match self.stage {
            TransferStage::Announcing => self.received == 0 && !self.drained,
            TransferStage::Moving => {
                &&& 0 < self.asked <= self.chunk
                &&& self.received + self.asked <= u64::MAX
                &&& !self.drained
                &&& self.target matches PhaseTarget::Bytes(bytes) ==> self.received + self.asked
                    <= bytes
            },
            TransferStage::Closing => false,
            TransferStage::Over => true,
            _ => !self.drained ==> (self.target matches PhaseTarget::Bytes(bytes)
                ==> self.received == bytes),
        }
    }

    /// The operation whose outcome the phase awaits; none once it has ended.
    pub open spec fn pending(self) -> Option<Operation> {
        match self.stage {
            TransferStage::Announcing => Some(
                Operation::Send { message: Sentinel::DownloadStart },
            ),
            TransferStage::Moving => Some(Operation::Read { max: self.asked }),
            TransferStage::Flushing => Some(Operation::Flush),
            _ => None,
        }
    }

    /// Ends the reading: what is left is to flush.
    pub open spec fn wound_up(self, now: u64) -> (DownloadPhase, StepView) {
        (
            DownloadPhase {
                duration: elapsed_between(self.started, now),
                stage: TransferStage::Flushing,
                ..self
            },
            StepView::Next(Operation::Flush),
        )
    }

    /// Reads the next piece while the goal is unmet, else ends the reading.
    pub open spec fn pumped(self, now: u64) -> (DownloadPhase, StepView) {
        if self.target.unmet(self.received, elapsed_between(self.started, now), self.chunk) {
            let asked = self.target.piece(self.received, self.chunk);
            (
                DownloadPhase { asked, stage: TransferStage::Moving, ..self },
                StepView::Next(Operation::Read { max: asked }),
            )
        } else {
            self.wound_up(now)
        }
    }

    /// The number of bytes that a read gave.
    pub open spec fn gained(outcome: OutcomeView) -> u64 {
        match outcome {
            OutcomeView::Received(count) => count,
            _ => 0,
        }
    }

    /// The phase after `outcome`, observed at `now`, and what it asks for next.
    pub open spec fn next(self, outcome: OutcomeView, now: u64) -> (DownloadPhase, StepView) {
        let over = DownloadPhase { stage: TransferStage::Over, ..self };
        match self.stage {
            TransferStage::Announcing => match outcome {
                OutcomeView::Failed { text, .. } => (
                    over,
                    protocol_failure("Failed to send download start message - "@, text),
                ),
                _ => DownloadPhase { started: now, ..self }.pumped(now),
            },
            TransferStage::Moving => match outcome {
                OutcomeView::Failed { text, .. } => (
                    over,
                    protocol_failure("Failed to read download buffer - "@, text),
                ),
                _ => if Self::gained(outcome) == 0 {
                    DownloadPhase { drained: true, ..self }.wound_up(now)
                } else {
                    DownloadPhase {
                        received: (self.received + Self::gained(outcome)) as u64,
                        ..self
                    }.pumped(now)
                },
            },
            TransferStage::Flushing => match outcome {
                OutcomeView::Failed { text, .. } => (
                    over,
                    protocol_failure("Failed to flush stream - "@, text),
                ),
                _ => (DownloadPhase { stage: TransferStage::Done, ..self }, StepView::Finished),
            },
            _ => (self, StepView::Finished),
        }
    }

    /// Begins the phase: the message that begins the download is sent first.
    pub fn start(target: PhaseTarget, chunk: u64) -> (started: (DownloadPhase, Operation))
        requires
            target.wf(),
            chunk_size_in_range(chunk),
        ensures
            started.0 == DownloadPhase::initial(target, chunk),
            started.0.wf(),
            started.0.pending() == Some(started.1),
    {
        (
            DownloadPhase {
                target,
                chunk,
                received: 0,
                asked: 0,
                drained: false,
                started: 0,
                duration: 0,
                stage: TransferStage::Announcing,
            },
            Operation::Send { message: Sentinel::DownloadStart },
        )
    }

    fn wind_up(&mut self, now: u64) -> (step: Step)
        ensures
            (*final(self), step@) == old(self).wound_up(now),
    {
        self.duration = elapsed(self.started, now);
        self.stage = TransferStage::Flushing;
        Step::Next(Operation::Flush)
    }

    fn pump(&mut self, now: u64) -> (step: Step)
        requires
            old(self).target matches PhaseTarget::Bytes(bytes) ==> old(self).received <= bytes,
        ensures
            (*final(self), step@) == old(self).pumped(now),
    {
        let spent = elapsed(self.started, now);
        if self.target.is_unmet(self.received, spent, self.chunk) {
            self.asked = self.target.next_piece(self.received, self.chunk);
            self.stage = TransferStage::Moving;
            Step::Next(Operation::Read { max: self.asked })
        } else {
            self.wind_up(now)
        }
    }

    /// Takes in the outcome of the operation that the phase awaits, observed at `now`
    /// (nanoseconds on the caller's clock), and says what comes next.
    pub fn step(&mut self, outcome: Outcome, now: u64) -> (step: Step)
        requires
            old(self).wf(),
            old(self).pending() matches Some(operation) && operation.admits(outcome@),
        ensures
            (*final(self), step@) == old(self).next(outcome@, now),
            final(self).wf(),
    {
        proof {
            lemma_download_step(*self, outcome@, now);
        }
        match self.stage {
            TransferStage::Announcing => match outcome {
                Outcome::Failed(failure) => {
                    self.stage = TransferStage::Over;
                    fail_protocol("Failed to send download start message - ", &failure)
                },
                _ => {
                    self.started = now;
                    self.pump(now)
                },
            },
            TransferStage::Moving => {
                let gained: u64 = match outcome {
                    Outcome::Failed(failure) => {
                        self.stage = TransferStage::Over;
                        return fail_protocol("Failed to read download buffer - ", &failure);
                    },
                    Outcome::Received(count) => count,
                    _ => 0,
                };
                if gained == 0 {
                    self.drained = true;
                    self.wind_up(now)
                } else {
                    self.received = self.received + gained;
                    self.pump(now)
                }
            },
            TransferStage::Flushing => match outcome {
                Outcome::Failed(failure) => {
                    self.stage = TransferStage::Over;
                    fail_protocol("Failed to flush stream - ", &failure)
                },
                _ => {
                    self.stage = TransferStage::Done;
                    Step::Finished
                },
            },
            _ => Step::Finished,
        }
    }

    /// The figures of the phase: the bytes read and the time it took to read them. Of
    /// a phase that ran to its end with a goal in bytes, the bytes are the goal unless
    /// the peer ended the stream first.
    pub fn report(&self) -> (report: SpeedReport)
        requires
            self.wf(),
        ensures
            report.report_type@ == "download"@,
            report.bytes == self.received,
            report.duration == self.duration,
            self.stage == TransferStage::Done && !self.drained ==> (self.target matches PhaseTarget::Bytes(
                bytes,
            ) ==> report.bytes == bytes),
    {
        SpeedReport::new("download", self.duration, self.received).unwrap()
    }
}

/// Every step of a download keeps the phase well formed, asks next for the very
/// operation that the new state awaits, never asks for more bytes than are missing
/// from a goal in bytes, and ends with the goal met unless the peer ended the stream.
pub proof fn lemma_download_step(phase: DownloadPhase, outcome: OutcomeView, now: u64)
    requires
        phase.wf(),
        phase.pending() matches Some(operation) && operation.admits(outcome),
    ensures
        phase.next(outcome, now).0.wf(),
        phase.next(outcome, now).0.target == phase.target,
        phase.next(outcome, now).0.chunk == phase.chunk,
        phase.next(outcome, now).0.received >= phase.received,
        match phase.next(outcome, now).1 {
            StepView::Next(operation) => phase.next(outcome, now).0.pending() == Some(operation),
            _ => phase.next(outcome, now).0.pending() is None,
        },
        phase.next(outcome, now).1 matches StepView::Next(Operation::Read { max }) ==> (
        phase.target matches PhaseTarget::Bytes(bytes) ==> phase.next(outcome, now).0.received
            + max <= bytes),
        phase.next(outcome, now).1 is Finished && !phase.next(outcome, now).0.drained ==> (
        phase.target matches PhaseTarget::Bytes(bytes) ==> phase.next(outcome, now).0.received
            == bytes),
{
}

impl DownloadPhase {
    /// The phase after a run of outcomes, each with the time at which it was observed.
    pub open spec fn after(self, outcomes: Seq<(OutcomeView, u64)>) -> DownloadPhase
        decreases outcomes.len(),
    {
        if outcomes.len() == 0 {
            self
        } else {
            self.after(outcomes.drop_last()).next(outcomes.last().0, outcomes.last().1).0
        }
    }

    /// Whether every outcome of a run answers the operation that is awaited when it
    /// comes.
    pub open spec fn answered_by(self, outcomes: Seq<(OutcomeView, u64)>) -> bool
        decreases outcomes.len(),
    {
        outcomes.len() == 0 || {
            &&& self.answered_by(outcomes.drop_last())
            &&& self.after(outcomes.drop_last()).pending() matches Some(operation)
                && operation.admits(outcomes.last().0)
        }
    }
}

/// However a download runs, it never reads more than a goal in bytes, and once it has
/// run to its end it has read exactly the goal, unless the peer ended the stream
/// before the goal was met.
pub proof fn lemma_download_meets_target(
    target: PhaseTarget,
    chunk: u64,
    outcomes: Seq<(OutcomeView, u64)>,
)
    requires
        target.wf(),
        chunk_size_in_range(chunk),
        DownloadPhase::initial(target, chunk).answered_by(outcomes),
    ensures
        DownloadPhase::initial(target, chunk).after(outcomes).wf(),
        DownloadPhase::initial(target, chunk).after(outcomes).target == target,
        target matches PhaseTarget::Bytes(bytes) ==> {
            &&& DownloadPhase::initial(target, chunk).after(outcomes).received <= bytes
            &&& DownloadPhase::initial(target, chunk).after(outcomes).stage == TransferStage::Done
                && !DownloadPhase::initial(target, chunk).after(outcomes).drained
                ==> DownloadPhase::initial(target, chunk).after(outcomes).received == bytes
        },
    decreases outcomes.len(),
{
    if outcomes.len() > 0 {
        let before = outcomes.drop_last();
        lemma_download_meets_target(target, chunk, before);
        lemma_download_step(
            DownloadPhase::initial(target, chunk).after(before),
            outcomes.last().0,
            outcomes.last().1,
        );
    }
}

} // verus!
