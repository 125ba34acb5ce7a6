//! The latency phase, on the client: a priming probe, then one probe per round, each
//! timed from its sending to its reply.

use crate::engine::transport::{
    elapsed, elapsed_between, fail_protocol, protocol_failure, Operation, Outcome, OutcomeView,
    Sentinel, Step, StepView,
};
use crate::output::reports::PingReport;
use crate::utils::error::{FailureClass, IoErrorKind};
use vstd::prelude::*;

verus! {

/// Milliseconds of rest between two rounds.
pub const PING_INTERVAL_MILLIS: u64 = 100;

/// Where the phase stands.
#[derive(Debug, Clone, Copy, PartialEq, Eq, Structural)]
pub enum PingStage {
    /// The priming probe is being sent.
    Priming,
    /// The probe of the current round is being sent.
    Probing,
    /// The reply to the probe of the current round is awaited.
    Listening,
    /// The rest after the current round.
    Resting,
    /// The message that ends the phase is being sent.
    Closing,
    /// Nothing more is asked of the transport.
    Over,
}

/// What a failed read of a reply means for the phase.
#[derive(Debug, Clone, Copy, PartialEq, Eq, Structural)]
pub enum ReplyFailure {
    /// The reply did not come in time: the ping is lost and the next round begins at once.
    Lost,
    /// The connection is gone: the remaining rounds are given up.
    Gone,
    /// Anything else: the ping is lost and the round ends as any other.
    Tolerated,
}

/// What a failed read of a reply means for the phase: a timeout loses the ping, a
/// connection that is closed, reset or at its end gives up the remaining rounds.
pub open spec fn reply_failure(kind: IoErrorKind) -> ReplyFailure {
    match kind.class() {
        FailureClass::Timeout => ReplyFailure::Lost,
        FailureClass::Reset => ReplyFailure::Gone,
        FailureClass::Eof => ReplyFailure::Gone,
        FailureClass::Other => ReplyFailure::Tolerated,
    }
}

/// Classifies a failed read of a reply.
pub fn classify_reply_failure(kind: IoErrorKind) -> (class: ReplyFailure)
    ensures
        class == reply_failure(kind),
{
    match kind.classify() {
        FailureClass::Timeout => ReplyFailure::Lost,
        FailureClass::Reset => ReplyFailure::Gone,
        FailureClass::Eof => ReplyFailure::Gone,
        FailureClass::Other => ReplyFailure::Tolerated,
    }
}

/// The latency phase of one session.
#[derive(Debug)]
pub struct PingPhase {
    /// Number of rounds to run
    pub count: u32,
    /// The round in progress, counted from one; zero before the first
    pub round: u32,
    /// Number of rounds answered so far
    pub successful: u32,
    /// The round-trip time of each answered round, in nanoseconds
    pub samples: Vec<u64>,
    /// When the probe of the round in progress was handed to the transport
    pub started: u64,
    pub stage: PingStage,
}

/// The latency phase as mathematical values.
pub struct PingView {
    pub count: u32,
    pub round: u32,
    pub successful: u32,
    pub samples: Seq<u64>,
    pub started: u64,
    pub stage: PingStage,
}

impl View for PingPhase {
    type V = PingView;

    open spec fn view(&self) -> PingView {
        PingView {
            count: self.count,
            round: self.round,
            successful: self.successful,
            samples: self.samples@,
            started: self.started,
            stage: self.stage,
        }
    }
}

impl PingView {
    /// The phase before anything has been sent.
    pub open spec fn initial(count: u32) -> PingView {
        PingView {
            count,
            round: 0,
            successful: 0,
            samples: Seq::empty(),
            started: 0,
            stage: PingStage::Priming,
        }
    }

    /// What holds of the phase at every moment: no more rounds were begun than are to
    /// be run, fewer were answered than begun while one is in progress, and one time
    /// was recorded for each answer.
    pub open spec fn wf(self) -> bool {
        &&& self.samples.len() == self.successful
        &&& self.round <= self.count
        &&& self.successful <= self.round
        &&& match self.stage {
            PingStage::Priming => self.round == 0,
            PingStage::Probing => self.successful < self.round,
            PingStage::Listening => self.successful < self.round,
            _ => true,
        }
    }

    /// The operation whose outcome the phase awaits; none once it is over.
    pub open spec fn pending(self) -> Option<Operation> {
        match self.stage {
            PingStage::Priming => Some(Operation::Send { message: Sentinel::Ping }),
            PingStage::Probing => Some(Operation::Send { message: Sentinel::Ping }),
            PingStage::Listening => Some(Operation::ReadExact { len: 12 }),
            PingStage::Resting => Some(Operation::Sleep { millis: PING_INTERVAL_MILLIS }),
            PingStage::Closing => Some(Operation::Send { message: Sentinel::PingDone }),
            PingStage::Over => None,
        }
    }

    /// Ends the rounds: the message that ends the phase is sent next.
    pub open spec fn close(self) -> (PingView, StepView) {
        (
            PingView { stage: PingStage::Closing, ..self },
            StepView::Next(Operation::Send { message: Sentinel::PingDone }),
        )
    }

    /// Goes on after the round in progress: to the next round while one is left,
    /// else to the end of the phase.
    pub open spec fn advance(self, now: u64) -> (PingView, StepView) {
        if self.round < self.count {
            (
                PingView {
                    round: (self.round + 1) as u32,
                    started: now,
                    stage: PingStage::Probing,
                    ..self
                },
                StepView::Next(Operation::Send { message: Sentinel::Ping }),
            )
        } else {
            self.close()
        }
    }

    /// Ends the round in progress: a rest follows every round but the last two.
    pub open spec fn settle(self, now: u64) -> (PingView, StepView) {
        if self.round + 1 < self.count {
            (
                PingView { stage: PingStage::Resting, ..self },
                StepView::Next(Operation::Sleep { millis: PING_INTERVAL_MILLIS }),
            )
        } else {
            self.advance(now)
        }
    }

    /// Takes in a reply: the round counts as answered if the reply is the expected
    /// message, and its time is then recorded.
    pub open spec fn heard(self, reply: Seq<u8>, now: u64) -> PingView {
        if reply == Sentinel::Pong.bytes() {
            PingView {
                successful: (self.successful + 1) as u32,
                samples: self.samples.push(elapsed_between(self.started, now)),
                ..self
            }
        } else {
            self
        }
    }

    /// The phase after `outcome`, observed at `now`, and what it asks for next.
    pub open spec fn next(self, outcome: OutcomeView, now: u64) -> (PingView, StepView) {
        let over = PingView { stage: PingStage::Over, ..self };
        match self.stage {
            PingStage::Priming => match outcome {
                OutcomeView::Failed { text, .. } => (
                    over,
                    protocol_failure("Failed to write ping message - "@, text),
                ),
                _ => self.advance(now),
            },
            PingStage::Probing => match outcome {
                OutcomeView::Failed { .. } => self.settle(now),
                _ => (
                    PingView { stage: PingStage::Listening, ..self },
                    StepView::Next(Operation::ReadExact { len: 12 }),
                ),
            },
            PingStage::Listening => match outcome {
                OutcomeView::Frame(reply) => self.heard(reply, now).settle(now),
                OutcomeView::Failed { kind, .. } => match reply_failure(kind) {
                    ReplyFailure::Lost => self.advance(now),
                    ReplyFailure::Gone => self.close(),
                    ReplyFailure::Tolerated => self.settle(now),
                },
                _ => self.settle(now),
            },
            PingStage::Resting => self.advance(now),
            PingStage::Closing => match outcome {
                OutcomeView::Failed { text, .. } => (
                    over,
                    protocol_failure("Failed to write ping termination - "@, text),
                ),
                _ => (over, StepView::Finished),
            },
            PingStage::Over => (self, StepView::Finished),
        }
    }
}

/// Every step keeps the phase well formed, and asks next for the very operation that
/// the new state awaits.
pub proof fn lemma_ping_step(phase: PingView, outcome: OutcomeView, now: u64)
    requires
        phase.wf(),
        phase.pending() matches Some(operation) && operation.admits(outcome),
    ensures
        phase.next(outcome, now).0.wf(),
        phase.next(outcome, now).0.count == phase.count,
        match phase.next(outcome, now).1 {
            StepView::Next(operation) => phase.next(outcome, now).0.pending() == Some(operation),
            _ => phase.next(outcome, now).0.pending() is None,
        },
{
}

impl PingView {
    /// The phase after a run of outcomes, each with the time at which it was observed.
    pub open spec fn after(self, outcomes: Seq<(OutcomeView, u64)>) -> PingView
        decreases outcomes.len(),
    {
        if outcomes.len() == 0 {
            self
        } else {
            self.after(outcomes.drop_last()).next(outcomes.last().0, outcomes.last().1).0
        }
    }

    /// Whether every outcome of a run answers the operation that is awaited when it
    /// comes.
    pub open spec fn answered_by(self, outcomes: Seq<(OutcomeView, u64)>) -> bool
        decreases outcomes.len(),
    {
        outcomes.len() == 0 || {
            &&& self.answered_by(outcomes.drop_last())
            &&& self.after(outcomes.drop_last()).pending() matches Some(operation)
                && operation.admits(outcomes.last().0)
        }
    }
}

/// However a latency phase runs, no more pings are answered than rounds were begun,
/// no more rounds are begun than were to be run, and one time is recorded for each
/// answer: of `N` pings `S` are answered with `0 <= S <= N`.
pub proof fn lemma_ping_counts(count: u32, outcomes: Seq<(OutcomeView, u64)>)
    requires
        PingView::initial(count).answered_by(outcomes),
    ensures
        PingView::initial(count).after(outcomes).wf(),
        PingView::initial(count).after(outcomes).count == count,
        PingView::initial(count).after(outcomes).successful <= PingView::initial(count).after(
            outcomes,
        ).round <= count,
        PingView::initial(count).after(outcomes).samples.len() == PingView::initial(count).after(
            outcomes,
        ).successful,
    decreases outcomes.len(),
{
    if outcomes.len() > 0 {
        let before = outcomes.drop_last();
        lemma_ping_counts(count, before);
        lemma_ping_step(
            PingView::initial(count).after(before),
            outcomes.last().0,
            outcomes.last().1,
        );
    }
}

impl PingPhase {
    /// Begins the phase: the priming probe is sent first.
    pub fn start(count: u32) -> (started: (PingPhase, Operation))
        ensures
            started.0@ == PingView::initial(count),
            started.0@.wf(),
            started.0@.pending() == Some(started.1),
    {
        (
            PingPhase {
                count,
                round: 0,
                successful: 0,
                samples: Vec::new(),
                started: 0,
                stage: PingStage::Priming,
            },
            Operation::Send { message: Sentinel::Ping },
        )
    }

    fn close(&mut self) -> (step: Step)
        ensures
            (final(self)@, step@) == old(self)@.close(),
    {
        self.stage = PingStage::Closing;
        Step::Next(Operation::Send { message: Sentinel::PingDone })
    }

    fn advance(&mut self, now: u64) -> (step: Step)
        requires
            old(self)@.round <= old(self)@.count,
        ensures
            (final(self)@, step@) == old(self)@.advance(now),
    {
        if self.round < self.count {
            self.round = self.round + 1;
            self.started = now;
            self.stage = PingStage::Probing;
            Step::Next(Operation::Send { message: Sentinel::Ping })
        } else {
            self.close()
        }
    }

    fn settle(&mut self, now: u64) -> (step: Step)
        requires
            old(self)@.round <= old(self)@.count,
        ensures
            (final(self)@, step@) == old(self)@.settle(now),
    {
        if self.round < self.count && self.round + 1 < self.count {
            self.stage = PingStage::Resting;
            Step::Next(Operation::Sleep { millis: PING_INTERVAL_MILLIS })
        } else {
            self.advance(now)
        }
    }

    fn heard(&mut self, reply: &[u8], now: u64)
        requires
            old(self)@.successful < old(self)@.round,
        ensures
            final(self)@ == old(self)@.heard(reply@, now),
    {
        if Sentinel::Pong.matches(reply) {
            self.successful = self.successful + 1;
            self.samples.push(elapsed(self.started, now));
        }
    }

    /// Takes in the outcome of the operation that the phase awaits, observed at `now`
    /// (nanoseconds on the caller's clock), and says what comes next.
    pub fn step(&mut self, outcome: Outcome, now: u64) -> (step: Step)
        requires
            old(self)@.wf(),
            old(self)@.pending() matches Some(operation) && operation.admits(outcome@),
        ensures
            (final(self)@, step@) == old(self)@.next(outcome@, now),
            final(self)@.wf(),
    {
        proof {
            lemma_ping_step(self@, outcome@, now);
        }
        match self.stage {
            PingStage::Priming => match outcome {
                Outcome::Failed(failure) => {
                    self.stage = PingStage::Over;
                    fail_protocol("Failed to write ping message - ", &failure)
                },
                _ => self.advance(now),
            },
            PingStage::Probing => match outcome {
                Outcome::Failed(_) => self.settle(now),
                _ => {
                    self.stage = PingStage::Listening;
                    Step::Next(Operation::ReadExact { len: 12 })
                },
            },
            PingStage::Listening => match outcome {
                Outcome::Frame(reply) => {
                    self.heard(reply, now);
                    self.settle(now)
                },
                Outcome::Failed(failure) => match classify_reply_failure(failure.kind) {
                    ReplyFailure::Lost => self.advance(now),
                    ReplyFailure::Gone => self.close(),
                    ReplyFailure::Tolerated => self.settle(now),
                },
                _ => self.settle(now),
            },
            PingStage::Resting => self.advance(now),
            PingStage::Closing => match outcome {
                Outcome::Failed(failure) => {
                    self.stage = PingStage::Over;
                    fail_protocol("Failed to write ping termination - ", &failure)
                },
                _ => {
                    self.stage = PingStage::Over;
                    Step::Finished
                },
            },
            PingStage::Over => Step::Finished,
        }
    }

    /// The figures of the phase: as many pings sent as rounds were to be run, as many
    /// answered as replies were recognised, and the times of those.
    pub fn into_report(self) -> (report: PingReport)
        requires
            self@.wf(),
        ensures
            report.wf(),
            report.ping_count == self@.count,
            report.successful_pings == self@.successful,
            report.ping_times@ == self@.samples,
            report.successful_pings <= report.ping_count,
    {
        PingReport::new(self.count, self.successful, self.samples)
    }
}

} // verus!
