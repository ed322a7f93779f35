//! One destructive operation at a time.
//!
//! The guard is a flag that its host owns. It is set when an operation is
//! admitted and cleared when the operation ends or the front end has seen
//! the end of the progress display. While it is set, a new operation is
//! turned away with a warning: nothing waits in a queue, and nothing is
//! asked of the host.

use vstd::prelude::*;
use crate::engine::{Outcome, Turn, TurnView};
use crate::event::{warning, Event, EventView};
use crate::operations::dispatch::{op_resume, op_start, Job, JobView, Operation, OperationView};
use crate::text::copy;

verus! {

/// The flag that says whether an operation is under way.
#[derive(Debug, PartialEq, Eq)]
pub struct OperationGuard {
    busy: bool,
}

impl View for OperationGuard {
    type V = bool;

    closed spec fn view(&self) -> bool {
        self.busy
    }
}

/// What became of the attempt to begin an operation.
#[derive(Debug, PartialEq, Eq)]
pub enum Admission {
    /// Another operation is under way; the event is the warning to show.
    Rejected(Event),
    /// The operation began; this is its first turn.
    Admitted(Turn<Operation, ()>),
}

/// The mathematical content of an [`Admission`].
pub enum AdmissionView {
    Rejected(EventView),
    Admitted(TurnView<OperationView, ()>),
}

impl View for Admission {
    type V = AdmissionView;

    open spec fn view(&self) -> AdmissionView {
        match self {
            Admission::Rejected(e) => AdmissionView::Rejected(e@),
            Admission::Admitted(t) => AdmissionView::Admitted(t@),
        }
    }
}

/// What becomes of the attempt to begin `job` under a guard that is set or
/// not.
pub open spec fn admission(busy: bool, job: JobView) -> AdmissionView {
    if busy {
        AdmissionView::Rejected(warning("Operation already in progress"@))
    } else {
        AdmissionView::Admitted(op_start(job))
    }
}

/// Whether the guard is set after the attempt to begin `job`: it stays set
/// if it was, and becomes set if the operation now waits for its host.
pub open spec fn busy_after_admission(busy: bool, job: JobView) -> bool {
    busy || op_start(job).flow is Wait
}

/// Whether the guard is set after the front end has seen an event: the end
/// of the progress display clears it.
pub open spec fn busy_after_event(busy: bool, e: EventView) -> bool {
    busy && !(e is EndProgress)
}

/// Whether the guard is set after a turn of the operation: the end of the
/// operation clears it.
pub open spec fn busy_after_turn(busy: bool, t: TurnView<OperationView, ()>) -> bool {
    busy && t.flow is Wait
}

/// While the guard is set, an operation is turned away, and the guard stays
/// set. Once the end of the progress display was seen, or the operation
/// under way has ended, the guard is clear, and the same operation is
/// admitted: its first turn is that of the job.
pub proof fn law_guard_rejects_while_set(job: JobView, done: TurnView<OperationView, ()>)
    requires
        done.flow is Done,
    ensures
        admission(true, job) is Rejected,
        busy_after_admission(true, job),
        !busy_after_event(true, EventView::EndProgress),
        !busy_after_turn(true, done),
        admission(busy_after_event(true, EventView::EndProgress), job) == AdmissionView::Admitted(
            op_start(job),
        ),
        admission(busy_after_turn(true, done), job) == AdmissionView::Admitted(op_start(job)),
{
}

impl OperationGuard {
    /// A guard that is clear.
    pub fn new() -> (g: OperationGuard)
        ensures
            !g@,
    {
        OperationGuard { busy: false }
    }

    /// Whether an operation is under way.
    pub fn is_set(&self) -> (b: bool)
        ensures
            b == self@,
    {
        self.busy
    }

    /// Begins `job` unless an operation is under way.
    pub fn try_start(&mut self, job: &Job) -> (a: Admission)
        ensures
            a@ == admission(old(self)@, job@),
            final(self)@ == busy_after_admission(old(self)@, job@),
    {
        if self.busy {
            Admission::Rejected(Event::warning(copy("Operation already in progress")))
        } else {
            let t = Operation::start(job);
            self.busy = match t.flow {
                crate::engine::Flow::Wait(_, _) => true,
                crate::engine::Flow::Done(_) => false,
            };
            Admission::Admitted(t)
        }
    }

    /// Continues the operation under way; its end clears the guard.
    pub fn resume(&mut self, operation: Operation, outcome: Outcome) -> (t: Turn<Operation, ()>)
        ensures
            t@ == op_resume(operation@, outcome@),
            final(self)@ == busy_after_turn(old(self)@, t@),
    {
        let t = operation.resume(outcome);
        match t.flow {
            crate::engine::Flow::Wait(_, _) => {},
            crate::engine::Flow::Done(_) => {
                self.busy = false;
            },
        }
        t
    }

    /// Clears the guard: the operation under way has ended.
    pub fn release(&mut self)
        ensures
            !final(self)@,
    {
        self.busy = false;
    }

    /// Takes note of an event that the front end has processed.
    pub fn observe(&mut self, event: &Event)
        ensures
            final(self)@ == busy_after_event(old(self)@, event@),
    {
        match event {
            Event::EndProgress => {
                self.busy = false;
            },
            _ => {},
        }
    }
}

} // verus!
