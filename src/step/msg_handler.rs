//! The observer that the scheduler's events are published to. The caller hands it every
//! event, one at a time.

pub mod console;
pub mod progress_bars;

pub use console::ConsoleLogEventHandler;
pub use progress_bars::ProgressBarsEventHandler;

use crate::step::event::{EventData, NewSequenceEvent, StepEvent};
use crate::step::StepDetails;
use vstd::prelude::*;

verus! {

/// Reacts to the lifecycle events of a run. `handle_event` routes sequence events to the
/// sequence handlers and step events, with the step's details, to the step handlers. Each
/// handler's effect is described by a spec function of the same kind, which each handler
/// type defines.
pub trait EventHandler: Sized {
    /// What handling the start of a sequence does.
    spec fn sequence_started(before: Self, details: NewSequenceEvent, after: Self) -> bool;

    /// What handling the end of a sequence does.
    spec fn sequence_ended(before: Self, details: EventData, after: Self) -> bool;

    /// What handling the start of a step does.
    spec fn step_started(before: Self, step: StepDetails, details: EventData, after: Self) -> bool;

    /// What handling a skipped step does.
    spec fn step_was_skipped(before: Self, step: StepDetails, details: EventData, after: Self) -> bool;

    /// What handling the successful end of a step does.
    spec fn step_ended(before: Self, step: StepDetails, details: EventData, after: Self) -> bool;

    /// What handling a failed step does.
    spec fn step_failed(before: Self, step: StepDetails, details: EventData, after: Self) -> bool;

    /// Routes one event to exactly one handler. A step event comes with the step's details.
    fn handle_event(&mut self, step: Option<StepDetails>, event: StepEvent)
        requires
            event is NewSequence || event is EndSequence || step is Some,
        ensures
            event is NewSequence ==> Self::sequence_started(*old(self), event->NewSequence_0, *final(self)),
            event is EndSequence ==> Self::sequence_ended(*old(self), event->EndSequence_0, *final(self)),
            event is Start ==> Self::step_started(*old(self), step->Some_0, event->Start_0, *final(self)),
            event is Skip ==> Self::step_was_skipped(*old(self), step->Some_0, event->Skip_0, *final(self)),
            event is End ==> Self::step_ended(*old(self), step->Some_0, event->End_0, *final(self)),
            event is Error ==> Self::step_failed(*old(self), step->Some_0, event->Error_0, *final(self)),
    {
        match event {
            StepEvent::NewSequence(details) => self.sequence_start(details),
            StepEvent::EndSequence(details) => self.sequence_end(&details),
            StepEvent::Start(details) => if let Some(step) = step {
                self.step_start(step, &details)
            },
            StepEvent::End(details) => if let Some(step) = step {
                self.step_end(step, &details)
            },
            StepEvent::Skip(details) => if let Some(step) = step {
                self.step_skipped(step, &details)
            },
            StepEvent::Error(details) => if let Some(step) = step {
                self.step_error(step, &details)
            },
        }
    }

    fn sequence_start(&mut self, details: NewSequenceEvent)
        ensures
            Self::sequence_started(*old(self), details, *final(self)),
    ;

    fn sequence_end(&mut self, details: &EventData)
        ensures
            Self::sequence_ended(*old(self), *details, *final(self)),
    ;

    fn step_start(&mut self, step: StepDetails, details: &EventData)
        ensures
            Self::step_started(*old(self), step, *details, *final(self)),
    ;

    fn step_skipped(&mut self, step: StepDetails, details: &EventData)
        ensures
            Self::step_was_skipped(*old(self), step, *details, *final(self)),
    ;

    fn step_end(&mut self, step: StepDetails, details: &EventData)
        ensures
            Self::step_ended(*old(self), step, *details, *final(self)),
    ;

    fn step_error(&mut self, step: StepDetails, details: &EventData)
        ensures
            Self::step_failed(*old(self), step, *details, *final(self)),
    ;
}

} // verus!
