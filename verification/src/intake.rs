//! Event intake: the batching state machine that drives verification
//! from externally delivered payment events.
//!
//! The machine has two modes. Draining: events are pulled without
//! blocking and collected until the batch ceiling is reached or the
//! channel runs empty, whereupon the batch is dispatched. Waiting: with
//! nothing collected, the caller blocks for one event. A disconnected
//! upstream channel is terminal: the loop shuts down cleanly. The caller
//! performs the channel operations and feeds each poll's result in;
//! dispatching a batch means handing every event in it to the processor
//! and waiting for all of them before pulling more, which bounds
//! in-flight concurrency by the ceiling.

use vstd::prelude::*;
use crate::processor::PaymentEvent;

verus! {

/// What one pull from the upstream channel yielded.
pub enum PollResult {
    /// An event arrived.
    Event(PaymentEvent),
    /// The channel is currently empty.
    Empty,
    /// The channel is closed; no further event will arrive.
    Disconnected,
}

/// What the intake machine asks the caller to do next.
pub enum IntakeStep {
    /// Keep pulling: after an event below the ceiling, pull without
    /// blocking; after an empty poll with nothing collected, block for
    /// the next event.
    Continue,
    /// Hand this batch to the processor, in order, and wait for every
    /// handler before pulling again.
    Dispatch(Vec<PaymentEvent>),
    /// The upstream channel closed: exit cleanly.
    Shutdown,
}

/// The event intake machine: the batch ceiling and the events collected
/// since the last dispatch.
pub struct EventIntake {
    pub ceiling: usize,
    pub batch: Vec<PaymentEvent>,
}

impl EventIntake {
    /// Between polls the collected batch is strictly below the ceiling.
    pub open spec fn wf(&self) -> bool {
        &&& 1 <= self.ceiling
        &&& self.batch@.len() < self.ceiling
    }

    /// A fresh intake machine with the given batch ceiling.
    pub fn new(ceiling: usize) -> (s: EventIntake)
        requires
            ceiling >= 1,
        ensures
            s.wf(),
            s.ceiling == ceiling,
            s.batch@.len() == 0,
    {
        EventIntake { ceiling, batch: Vec::new() }
    }

    /// Feeds one poll into the machine. An arriving event joins the
    /// batch and fills it to the ceiling at most; a full batch is
    /// dispatched at once. An empty poll dispatches whatever has been
    /// collected, or asks the caller to block when nothing has. A closed
    /// channel shuts the loop down; a partial batch is discarded with
    /// it. Dispatched batches partition the delivered events in arrival
    /// order: each batch holds exactly the events collected since the
    /// last dispatch.
    pub fn on_poll(&mut self, poll: PollResult) -> (step: IntakeStep)
        requires
            old(self).wf(),
        ensures
            final(self).wf(),
            final(self).ceiling == old(self).ceiling,
            match poll {
                PollResult::Event(e) => {
                    if old(self).batch@.len() + 1 == old(self).ceiling {
                        &&& step matches IntakeStep::Dispatch(b) && b@ == old(self).batch@.push(e)
                        &&& final(self).batch@.len() == 0
                    } else {
                        &&& step is Continue
                        &&& final(self).batch@ == old(self).batch@.push(e)
                    }
                },
                PollResult::Empty => {
                    if old(self).batch@.len() > 0 {
                        &&& step matches IntakeStep::Dispatch(b) && b@ == old(self).batch@
                        &&& final(self).batch@.len() == 0
                    } else {
                        &&& step is Continue
                        &&& final(self).batch@ == old(self).batch@
                    }
                },
                PollResult::Disconnected => step is Shutdown && final(self).batch@.len() == 0,
            },
    {
        match poll {
            PollResult::Event(e) => {
                self.batch.push(e);
                if self.batch.len() == self.ceiling {
                    let mut b: Vec<PaymentEvent> = Vec::new();
                    core::mem::swap(&mut b, &mut self.batch);
                    IntakeStep::Dispatch(b)
                } else {
                    IntakeStep::Continue
                }
            },
            PollResult::Empty => {
                if self.batch.len() > 0 {
                    let mut b: Vec<PaymentEvent> = Vec::new();
                    core::mem::swap(&mut b, &mut self.batch);
                    IntakeStep::Dispatch(b)
                } else {
                    IntakeStep::Continue
                }
            },
            PollResult::Disconnected => {
                let mut b: Vec<PaymentEvent> = Vec::new();
                core::mem::swap(&mut b, &mut self.batch);
                IntakeStep::Shutdown
            },
        }
    }
}

} // verus!
