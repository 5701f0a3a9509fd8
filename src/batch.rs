//! The batch orchestrator, as a state machine.
//!
//! The caller performs the outside work (the network call, the write to
//! disk) and reports each outcome as an [`Event`]; [`Batch::advance`] answers
//! with the next [`Step`]. Actions run strictly in order, each response is
//! persisted before the next action starts, and the first failure halts the
//! batch: no later action is ever sent.
use vstd::prelude::*;
use crate::error::FesiError;
use crate::request::{executed_as, label_of, Outgoing, Request};

verus! {

/// Where the batch stands.
#[derive(Clone, Copy, Debug, PartialEq, Eq, Structural)]
pub enum Phase {
    /// About to start the action at `pos`.
    Ready,
    /// The call of the action at `pos` is in flight.
    Sending,
    /// The response of the action at `pos` is being persisted.
    Saving,
    /// A failure ended the batch.
    Halted,
    /// Every action ran and was persisted.
    Done,
}

/// An outcome reported by the caller.
#[derive(Clone, Debug)]
pub enum Event {
    /// Start the batch.
    Proceed,
    /// The call returned this body text (whatever its status code).
    Responded(String),
    /// The call failed in the transport; carries the message.
    RequestFailed(String),
    /// The response was persisted.
    Saved,
    /// Persisting failed; carries the reason.
    SaveFailed(String),
}

/// What the caller is to do next.
#[derive(Clone, Debug)]
pub enum Step {
    /// Make this call and report its outcome.
    Send(Outgoing),
    /// Persist `content` under `label` and report the outcome.
    Save { label: String, content: String },
    /// The batch failed with this error; nothing more is to be done.
    Fail(FesiError),
    /// The batch is over.
    Finish,
}

/// A batch of requests run one at a time.
pub struct Batch {
    pub requests: Vec<Request>,
    pub pos: usize,
    pub phase: Phase,
}

/// Which events each phase expects; a finished batch takes any.
pub open spec fn expects(phase: Phase, ev: Event) -> bool {
    match phase {
        Phase::Ready => ev is Proceed,
        Phase::Sending => ev is Responded || ev is RequestFailed,
        Phase::Saving => ev is Saved || ev is SaveFailed,
        Phase::Halted | Phase::Done => true,
    }
}

/// Starting the action at `i` of `reqs` led to state `b` and step `r`: past
/// the last action the batch is done; otherwise the action's call is sent,
/// or its error halts the batch.
pub open spec fn launched(reqs: Seq<Request>, i: int, b: Batch, r: Step) -> bool {
    &&& b.pos == i
    &&& if i == reqs.len() {
        b.phase == Phase::Done && r is Finish
    } else {
        match r {
            Step::Send(o) => b.phase == Phase::Sending && executed_as(reqs[i], Ok(o)),
            Step::Fail(e) => b.phase == Phase::Halted && executed_as(reqs[i], Err(e)),
            _ => false,
        }
    }
}

/// One step of the batch: from state `old`, event `ev` leads to state `new`
/// and step `r`. A response is persisted under the action's label before
/// anything else happens; a transport or write failure halts the batch; a
/// halted or finished batch stays as it is and only finishes.
pub open spec fn advanced(old: Batch, ev: Event, new: Batch, r: Step) -> bool {
    &&& new.requests == old.requests
    &&& match (old.phase, ev) {
        (Phase::Ready, Event::Proceed) => launched(
            old.requests@,
            old.pos as int,
            new,
            r,
        ),
        (Phase::Sending, Event::Responded(text)) => {
            &&& new.phase == Phase::Saving
            &&& new.pos == old.pos
            &&& r matches Step::Save { label, content } && label@ == label_of(
                old.requests[old.pos as int].name,
            ) && content == text
        },
        (Phase::Sending, Event::RequestFailed(msg)) => {
            &&& new.phase == Phase::Halted
            &&& new.pos == old.pos
            &&& r == Step::Fail(FesiError::Request(msg))
        },
        (Phase::Saving, Event::Saved) => launched(
            old.requests@,
            old.pos + 1,
            new,
            r,
        ),
        (Phase::Saving, Event::SaveFailed(msg)) => {
            &&& new.phase == Phase::Halted
            &&& new.pos == old.pos
            &&& r == Step::Fail(FesiError::Write(msg))
        },
        _ => new.pos == old.pos && new.phase == old.phase
            && r is Finish,
    }
}

impl Batch {
    pub open spec fn wf(&self) -> bool {
        &&& self.pos <= self.requests.len()
        &&& (self.phase == Phase::Sending || self.phase == Phase::Saving) ==> self.pos
            < self.requests.len()
        &&& self.phase == Phase::Done ==> self.pos == self.requests.len()
    }

    /// A batch about to start its first request.
    pub fn new(requests: Vec<Request>) -> (r: Batch)
        ensures
            r.wf(),
            r.requests == requests,
            r.pos == 0,
            r.phase == Phase::Ready,
    {
        Batch { requests, pos: 0, phase: Phase::Ready }
    }

    /// Whether the batch is over, by success or failure.
    pub fn is_over(&self) -> (r: bool)
        ensures
            r == (self.phase == Phase::Halted || self.phase == Phase::Done),
    {
        self.phase == Phase::Halted || self.phase == Phase::Done
    }

    /// Whether the batch expects `ev` now.
    pub fn accepts(&self, ev: &Event) -> (r: bool)
        ensures
            r == expects(self.phase, *ev),
    {
        match self.phase {
            Phase::Ready => matches!(ev, Event::Proceed),
            Phase::Sending => matches!(ev, Event::Responded(_) | Event::RequestFailed(_)),
            Phase::Saving => matches!(ev, Event::Saved | Event::SaveFailed(_)),
            Phase::Halted | Phase::Done => true,
        }
    }

    /// Starts the action at `pos`, or finishes past the last one.
    fn launch(&mut self)
        -> (r: Step)
        requires
            old(self).pos <= old(self).requests.len(),
        ensures
            final(self).wf(),
            final(self).requests == old(self).requests,
            launched(old(self).requests@, old(self).pos as int, *final(self), r),
    {
        if self.pos == self.requests.len() {
            self.phase = Phase::Done;
            return Step::Finish;
        }
        match self.requests[self.pos].run() {
            Ok(o) => {
                self.phase = Phase::Sending;
                Step::Send(o)
            },
            Err(e) => {
                self.phase = Phase::Halted;
                Step::Fail(e)
            },
        }
    }

    /// Takes the caller's report of the last step and decides the next one.
    pub fn advance(&mut self, ev: Event) -> (r: Step)
        requires
            old(self).wf(),
            expects(old(self).phase, ev),
        ensures
            final(self).wf(),
            final(self).requests == old(self).requests,
            advanced(*old(self), ev, *final(self), r),
    {
        match self.phase {
            Phase::Ready => self.launch(),
            Phase::Sending => match ev {
                Event::Responded(text) => {
                    self.phase = Phase::Saving;
                    let label = self.requests[self.pos].label();
                    Step::Save { label, content: text }
                },
                Event::RequestFailed(msg) => {
                    self.phase = Phase::Halted;
                    Step::Fail(FesiError::Request(msg))
                },
                _ => Step::Finish,
            },
            Phase::Saving => match ev {
                Event::Saved => {
                    self.pos = self.pos + 1;
                    self.launch()
                },
                Event::SaveFailed(msg) => {
                    self.phase = Phase::Halted;
                    Step::Fail(FesiError::Write(msg))
                },
                _ => Step::Finish,
            },
            Phase::Halted | Phase::Done => Step::Finish,
        }
    }
}

/// Once a batch has failed it stays halted: whatever is reported next, no
/// further action is sent and nothing more is persisted.
pub proof fn lemma_halted_batch_stays_halted(old: Batch, ev: Event, new: Batch, r: Step)
    requires
        old.phase == Phase::Halted,
        advanced(old, ev, new, r),
    ensures
        new.phase == Phase::Halted,
        new.pos == old.pos,
        r is Finish,
{
}

/// Actions run strictly in order: a call is only ever made for the action at
/// the current position, which moves forward by one only after the previous
/// response was persisted.
pub proof fn lemma_actions_run_in_order(old: Batch, ev: Event, new: Batch, r: Step)
    requires
        old.wf(),
        advanced(old, ev, new, r),
        r is Send,
    ensures
        (old.phase == Phase::Ready && new.pos == old.pos) || (old.phase == Phase::Saving
            && ev is Saved && new.pos == old.pos + 1),
        new.pos < new.requests.len(),
        r matches Step::Send(o) && executed_as(new.requests[new.pos as int], Ok(o)),
{
}

} // verus!
