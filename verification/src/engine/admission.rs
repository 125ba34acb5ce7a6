//! Admission control: the count of connections being served, and the listener that
//! consults it for every connection that comes in.

use crate::engine::server::Server;
use crate::engine::transport::{
    connection_failure, fail_connection, Operation, Outcome, OutcomeView, Step, StepView,
};
use vstd::prelude::*;

verus! {

/// Seconds by which the writes of an admitted connection are bounded.
pub const ADMITTED_WRITE_TIMEOUT: u64 = 30;

/// What happens at the door of the server.
#[derive(Debug, Clone, Copy, PartialEq, Eq, Structural)]
pub enum Traffic {
    /// A connection comes in and asks to be served.
    Arrival,
    /// A connection that was being served is done.
    Departure,
}

/// The number of connections being served after the given traffic, under a ceiling:
/// an arrival is taken in only while the number is under the ceiling.
pub open spec fn occupancy(limit: nat, traffic: Seq<Traffic>) -> nat
    decreases traffic.len(),
{
    if traffic.len() == 0 {
        0
    } else {
        let before = occupancy(limit, traffic.drop_last());
        match traffic.last() {
            Traffic::Arrival => if before < limit {
                before + 1
            } else {
                before
            },
            Traffic::Departure => if before > 0 {
                (before - 1) as nat
            } else {
                0
            },
        }
    }
}

/// Whether the arrival that follows the given traffic is taken in.
pub open spec fn admitted(limit: nat, traffic: Seq<Traffic>) -> bool {
    occupancy(limit, traffic) < limit
}

/// Whatever the traffic, no more connections are served at one time than the
/// ceiling allows.
pub proof fn lemma_occupancy_bounded(limit: nat, traffic: Seq<Traffic>)
    ensures
        occupancy(limit, traffic) <= limit,
    decreases traffic.len(),
{
    if traffic.len() > 0 {
        lemma_occupancy_bounded(limit, traffic.drop_last());
    }
}

/// With the ceiling reached, one more arrival is turned away and those being served
/// are unaffected; under the ceiling, an arrival is taken in and served with them.
pub proof fn lemma_arrival(limit: nat, traffic: Seq<Traffic>)
    ensures
        occupancy(limit, traffic) == limit ==> !admitted(limit, traffic) && occupancy(
            limit,
            traffic.push(Traffic::Arrival),
        ) == limit,
        occupancy(limit, traffic) < limit ==> admitted(limit, traffic) && occupancy(
            limit,
            traffic.push(Traffic::Arrival),
        ) == occupancy(limit, traffic) + 1,
{
    let after = traffic.push(Traffic::Arrival);
    assert(after.drop_last() =~= traffic);
}

/// After as many arrivals as the ceiling allows and no departure, the ceiling is
/// reached: every one of them was taken in, and the next is turned away.
pub proof fn lemma_fills_to_ceiling(limit: nat, arrivals: nat)
    requires
        arrivals <= limit,
    ensures
        occupancy(limit, Seq::new(arrivals, |i: int| Traffic::Arrival)) == arrivals,
        arrivals == limit ==> !admitted(limit, Seq::new(arrivals, |i: int| Traffic::Arrival)),
    decreases arrivals,
{
    let traffic = Seq::new(arrivals, |i: int| Traffic::Arrival);
    if arrivals > 0 {
        lemma_fills_to_ceiling(limit, (arrivals - 1) as nat);
        assert(traffic.drop_last() =~= Seq::new((arrivals - 1) as nat, |i: int| Traffic::Arrival));
    }
}

/// The count of connections being served, held under a ceiling. The count is never
/// above the ceiling. Every change takes the counter by exclusive reference, so a
/// counter that the listener shares with its workers can only be changed under a lock.
pub struct AdmissionCounter {
    active: u32,
    limit: u32,
    traffic: Ghost<Seq<Traffic>>,
}

impl AdmissionCounter {
    #[verifier::type_invariant]
    spec fn inv(self) -> bool {
        &&& self.active <= self.limit
        &&& self.active == occupancy(self.limit as nat, self.traffic@)
    }

    /// The ceiling.
    pub closed spec fn limit(&self) -> u32 {
        self.limit
    }

    /// The traffic that the counter has seen.
    pub closed spec fn traffic(&self) -> Seq<Traffic> {
        self.traffic@
    }

    /// The number of connections being served.
    pub open spec fn active(&self) -> nat {
        occupancy(self.limit() as nat, self.traffic())
    }

    /// A counter with nothing being served.
    pub fn new(limit: u32) -> (counter: AdmissionCounter)
        ensures
            counter.limit() == limit,
            counter.traffic() == Seq::<Traffic>::empty(),
            counter.active() == 0,
    {
        AdmissionCounter { active: 0, limit, traffic: Ghost(Seq::empty()) }
    }

    /// The number of connections being served: never more than the ceiling.
    pub fn active_connections(&self) -> (active: u32)
        ensures
            active == self.active(),
            active <= self.limit(),
    {
        proof {
            use_type_invariant(self);
        }
        self.active
    }

    /// The ceiling.
    pub fn max_connections(&self) -> (limit: u32)
        ensures
            limit == self.limit(),
    {
        self.limit
    }

    /// Takes a connection in if the ceiling is not reached, and says whether it did.
    pub fn try_admit(&mut self) -> (taken: bool)
        ensures
            taken == admitted(old(self).limit() as nat, old(self).traffic()),
            final(self).limit() == old(self).limit(),
            final(self).traffic() == old(self).traffic().push(Traffic::Arrival),
            taken ==> final(self).active() == old(self).active() + 1,
            !taken ==> final(self).active() == old(self).active(),
            final(self).active() <= final(self).limit(),
    {
        proof {
            use_type_invariant(&*self);
            lemma_arrival(self.limit as nat, self.traffic@);
        }
        let taken = self.active < self.limit;
        let active: u32 = if taken {
            self.active + 1
        } else {
            self.active
        };
        *self = AdmissionCounter {
            active,
            limit: self.limit,
            traffic: Ghost(self.traffic@.push(Traffic::Arrival)),
        };
        taken
    }

    /// Takes note that a connection that was being served is done.
    pub fn release(&mut self)
        requires
            old(self).active() > 0,
        ensures
            final(self).limit() == old(self).limit(),
            final(self).traffic() == old(self).traffic().push(Traffic::Departure),
            final(self).active() == old(self).active() - 1,
    {
        proof {
            use_type_invariant(&*self);
            assert(self.traffic@.push(Traffic::Departure).drop_last() =~= self.traffic@);
        }
        *self = AdmissionCounter {
            active: self.active - 1,
            limit: self.limit,
            traffic: Ghost(self.traffic@.push(Traffic::Departure)),
        };
    }
}

/// Where the listener stands.
#[derive(Debug, Clone, Copy, PartialEq, Eq, Structural)]
pub enum ListenStage {
    /// The listening socket is being bound.
    Binding,
    /// The next connection is awaited.
    Accepting,
    /// A connection is being turned away.
    Rejecting,
    /// A connection that was taken in is being configured.
    Admitting,
    /// A connection that was taken in and could not be configured is being dropped.
    Discarding,
    /// A connection that was taken in is being handed to its worker.
    Dispatching,
    /// The listener has stopped.
    Over,
}

/// The listener of a server: it binds once, then takes connections in for as long as
/// the process lives.
#[derive(Debug, Clone, Copy, PartialEq, Eq)]
pub struct Listener {
    pub server: Server,
    pub stage: ListenStage,
}

impl Listener {
    /// The operation whose outcome the listener awaits; none once it has stopped.
    pub open spec fn pending(self) -> Option<Operation> {
        match self.stage {
            ListenStage::Binding => Some(Operation::Bind),
            ListenStage::Accepting => Some(Operation::Accept),
            ListenStage::Rejecting => Some(Operation::Reject),
            ListenStage::Discarding => Some(Operation::Reject),
            ListenStage::Admitting => Some(Operation::Admit { timeout: ADMITTED_WRITE_TIMEOUT }),
            ListenStage::Dispatching => Some(
                Operation::Dispatch { chunk_size: self.server.chunk_size },
            ),
            ListenStage::Over => None,
        }
    }

    /// Whether the outcome is a connection that has come in.
    pub open spec fn arrival(self, outcome: OutcomeView) -> bool {
        self.stage == ListenStage::Accepting && !(outcome is Failed)
    }

    /// Whether the outcome is a connection that was taken in and is given up.
    pub open spec fn withdrawal(self, outcome: OutcomeView) -> bool {
        self.stage == ListenStage::Admitting && outcome is Failed
    }

    /// The listener after `outcome`, and what it asks for next; `room` says whether
    /// a connection that has come in is under the ceiling. Only a failure to bind
    /// stops the listener: a failed accept is passed over, and a connection that
    /// cannot be configured is dropped.
    pub open spec fn next(self, outcome: OutcomeView, room: bool) -> (Listener, StepView) {
        let accepting = (
            Listener { stage: ListenStage::Accepting, ..self },
            StepView::Next(Operation::Accept),
        );
        let over = (Listener { stage: ListenStage::Over, ..self }, connection_failure(outcome));
        match self.stage {
            ListenStage::Binding => if outcome is Failed {
                over
            } else {
                accepting
            },
            ListenStage::Accepting => if outcome is Failed {
                accepting
            } else if room {
                (
                    Listener { stage: ListenStage::Admitting, ..self },
                    StepView::Next(Operation::Admit { timeout: ADMITTED_WRITE_TIMEOUT }),
                )
            } else {
                (
                    Listener { stage: ListenStage::Rejecting, ..self },
                    StepView::Next(Operation::Reject),
                )
            },
            ListenStage::Rejecting => accepting,
            ListenStage::Discarding => accepting,
            ListenStage::Admitting => if outcome is Failed {
                (
                    Listener { stage: ListenStage::Discarding, ..self },
                    StepView::Next(Operation::Reject),
                )
            } else {
                (
                    Listener { stage: ListenStage::Dispatching, ..self },
                    StepView::Next(Operation::Dispatch { chunk_size: self.server.chunk_size }),
                )
            },
            ListenStage::Dispatching => accepting,
            ListenStage::Over => (self, StepView::Finished),
        }
    }

    /// Takes in the outcome of the operation that the listener awaits and says what
    /// comes next. A connection that has come in is counted if the counter has room
    /// for it and is turned away if not; one that was counted and cannot be
    /// configured is taken off the count again; nothing else touches the counter.
    pub fn step(&mut self, outcome: Outcome, counter: &mut AdmissionCounter) -> (step: Step)
        requires
            old(self).pending() matches Some(operation) && operation.admits(outcome@),
        ensures
            (*final(self), step@) == old(self).next(
                outcome@,
                admitted(old(counter).limit() as nat, old(counter).traffic()),
            ),
            final(counter).limit() == old(counter).limit(),
            final(counter).traffic() == if old(self).arrival(outcome@) {
                old(counter).traffic().push(Traffic::Arrival)
            } else if old(self).withdrawal(outcome@) && old(counter).active() > 0 {
                old(counter).traffic().push(Traffic::Departure)
            } else {
                old(counter).traffic()
            },
            match step@ {
                StepView::Next(operation) => final(self).pending() == Some(operation),
                _ => final(self).pending() is None,
            },
    {
        match self.stage {
            ListenStage::Binding => match outcome {
                Outcome::Failed(failure) => {
                    self.stage = ListenStage::Over;
                    fail_connection(Outcome::Failed(failure))
                },
                _ => {
                    self.stage = ListenStage::Accepting;
                    Step::Next(Operation::Accept)
                },
            },
            ListenStage::Accepting => match outcome {
                Outcome::Failed(_) => Step::Next(Operation::Accept),
                _ => if counter.try_admit() {
                    self.stage = ListenStage::Admitting;
                    Step::Next(Operation::Admit { timeout: ADMITTED_WRITE_TIMEOUT })
                } else {
                    self.stage = ListenStage::Rejecting;
                    Step::Next(Operation::Reject)
                },
            },
            ListenStage::Rejecting => {
                self.stage = ListenStage::Accepting;
                Step::Next(Operation::Accept)
            },
            ListenStage::Discarding => {
                self.stage = ListenStage::Accepting;
                Step::Next(Operation::Accept)
            },
            ListenStage::Admitting => match outcome {
                Outcome::Failed(_) => {
                    if counter.active_connections() > 0 {
                        counter.release();
                    }
                    self.stage = ListenStage::Discarding;
                    Step::Next(Operation::Reject)
                },
                _ => {
                    self.stage = ListenStage::Dispatching;
                    Step::Next(Operation::Dispatch { chunk_size: self.server.chunk_size })
                },
            },
            ListenStage::Dispatching => {
                self.stage = ListenStage::Accepting;
                Step::Next(Operation::Accept)
            },
            ListenStage::Over => Step::Finished,
        }
    }
}

impl Server {
    /// Begins to listen: the listener, the counter that it shares with its workers,
    /// and the first thing it asks for, which is to bind.
    pub fn listen(&self) -> (begun: (Listener, AdmissionCounter, Operation))
        ensures
            begun.0 == (Listener { server: *self, stage: ListenStage::Binding }),
            begun.1.limit() == self.max_connections,
            begun.1.traffic() == Seq::<Traffic>::empty(),
            begun.2 == Operation::Bind,
            begun.0.pending() == Some(begun.2),
    {
        (
            Listener { server: *self, stage: ListenStage::Binding },
            AdmissionCounter::new(self.max_connections),
            Operation::Bind,
        )
    }
}

} // verus!
