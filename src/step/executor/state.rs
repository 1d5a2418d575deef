//! The lifecycle of one work item within a run: it starts, is checked, and is then skipped,
//! failed, or executed to completion or failure. Each transition says which event, if any,
//! is published.

use crate::step::event::{EventData, StepEvent};
use crate::step::{ShouldRunResult, Step, StepDetails};
use vstd::prelude::*;
use vstd::string::*;

verus! {

/// Where a work item stands.
pub enum StepStatus {
    /// Nothing has happened yet.
    NotStarted,
    /// Started; waiting for the answer of its check.
    Checking,
    /// The check said the work is to be done; waiting for its execution.
    ShouldRun,
    /// The work was already done.
    Skipped,
    /// The check or the execution failed with this message.
    Error(String),
    /// The work was executed successfully.
    Completed,
}

/// The message of the `Skip` event.
pub open spec fn skip_message() -> Seq<char> {
    "Skipped. Already completed."@
}

/// The text before the message in the `Error` event of a failed check.
pub open spec fn check_error_prefix() -> Seq<char> {
    "Unexpected error processing step.\n"@
}

/// `e` is a step-level event of kind `kind` with message `msg` in sequence `name`.
pub open spec fn step_event_is(e: StepEvent, kind: StepEventKind, msg: Seq<char>, name: Seq<char>) -> bool {
    let d = match e {
        StepEvent::End(d) => d,
        StepEvent::Error(d) => d,
        StepEvent::Start(d) => d,
        StepEvent::Skip(d) => d,
        StepEvent::EndSequence(d) => d,
        StepEvent::NewSequence(_) => EventData { msg: arbitrary(), sequence_name: arbitrary() },
    };
    &&& match kind {
        StepEventKind::Start => e is Start,
        StepEventKind::Skip => e is Skip,
        StepEventKind::End => e is End,
        StepEventKind::Error => e is Error,
    }
    &&& d.msg@ == msg
    &&& d.sequence_name@ == name
}

/// The kinds of step-level events.
pub enum StepEventKind {
    Start,
    Skip,
    End,
    Error,
}

/// The lifecycle state of one work item.
pub struct StepState {
    /// The item's title and description, carried by each of its events.
    pub details: StepDetails,
    /// The sequence the item belongs to.
    pub sequence_name: String,
    pub status: StepStatus,
}

/// `after` keeps the details and the sequence of `before`.
pub open spec fn same_item(before: StepState, after: StepState) -> bool {
    after.details == before.details && after.sequence_name == before.sequence_name
}

/// True of the states after which nothing more happens.
pub open spec fn is_terminal(status: StepStatus) -> bool {
    status is Skipped || status is Error || status is Completed
}

/// What an item's check does to its state, and the event it publishes.
pub open spec fn checks(
    before: StepState,
    result: ShouldRunResult,
    after: StepState,
    r: Option<StepEvent>,
) -> bool {
    &&& same_item(before, after)
    &&& match result {
        ShouldRunResult::Run => after.status is ShouldRun && r is None,
        ShouldRunResult::Skip => {
            &&& after.status is Skipped
            &&& r is Some
            &&& step_event_is(
                r->Some_0,
                StepEventKind::Skip,
                skip_message(),
                before.sequence_name@,
            )
        },
        ShouldRunResult::Error(e) => {
            &&& after.status == StepStatus::Error(e.message)
            &&& r is Some
            &&& step_event_is(
                r->Some_0,
                StepEventKind::Error,
                check_error_prefix() + e.message@,
                before.sequence_name@,
            )
        },
    }
}

/// What an item's execution does to its state, and the event it publishes.
pub open spec fn executes(
    before: StepState,
    result: Result<String, String>,
    after: StepState,
    r: StepEvent,
) -> bool {
    &&& same_item(before, after)
    &&& match result {
        Ok(m) => after.status is Completed && step_event_is(
            r,
            StepEventKind::End,
            m@,
            before.sequence_name@,
        ),
        Err(m) => after.status == StepStatus::Error(m) && step_event_is(
            r,
            StepEventKind::Error,
            m@,
            before.sequence_name@,
        ),
    }
}

impl StepState {
    pub fn new(details: StepDetails, sequence_name: &str) -> (r: StepState)
        ensures
            r.details == details,
            r.sequence_name@ == sequence_name@,
            r.status is NotStarted,
    {
        StepState { details, sequence_name: sequence_name.to_owned(), status: StepStatus::NotStarted }
    }

    /// Starts the item: it is to be checked next.
    pub fn start(&mut self) -> (r: StepEvent)
        requires
            old(self).status is NotStarted,
        ensures
            same_item(*old(self), *final(self)),
            final(self).status is Checking,
            step_event_is(r, StepEventKind::Start, Seq::empty(), old(self).sequence_name@),
    {
        self.status = StepStatus::Checking;
        let data = EventData { msg: String::new(), sequence_name: self.sequence_name.clone() };
        StepEvent::Start(data)
    }

    /// Takes the answer of the item's check. Only `Run` leads to an execution.
    pub fn checked(&mut self, result: ShouldRunResult) -> (r: Option<StepEvent>)
        requires
            old(self).status is Checking,
        ensures
            checks(*old(self), result, *final(self), r),
    {
        match result {
            ShouldRunResult::Run => {
                self.status = StepStatus::ShouldRun;
                None
            },
            ShouldRunResult::Skip => {
                self.status = StepStatus::Skipped;
                let data = EventData::new("Skipped. Already completed.", self.sequence_name.as_str());
                Some(StepEvent::Skip(data))
            },
            ShouldRunResult::Error(e) => {
                let mut msg = String::from_str("Unexpected error processing step.\n");
                msg.append(e.message.as_str());
                let data = EventData { msg, sequence_name: self.sequence_name.clone() };
                self.status = StepStatus::Error(e.message);
                Some(StepEvent::Error(data))
            },
        }
    }

    /// Takes the result of the item's execution.
    pub fn executed(&mut self, result: Result<String, String>) -> (r: StepEvent)
        requires
            old(self).status is ShouldRun,
        ensures
            executes(*old(self), result, *final(self), r),
    {
        match result {
            Ok(m) => {
                self.status = StepStatus::Completed;
                StepEvent::End(EventData { msg: m, sequence_name: self.sequence_name.clone() })
            },
            Err(m) => {
                let data = EventData { msg: m.clone(), sequence_name: self.sequence_name.clone() };
                self.status = StepStatus::Error(m);
                StepEvent::Error(data)
            },
        }
    }

    /// Whether nothing more happens to the item.
    pub fn is_finished(&self) -> (r: bool)
        ensures
            r == is_terminal(self.status),
    {
        match self.status {
            StepStatus::Skipped | StepStatus::Error(_) | StepStatus::Completed => true,
            _ => false,
        }
    }

    /// What the finished item reports to the scheduler.
    pub fn outcome<T>(&self) -> (r: Result<Vec<Step<T>>, String>)
        requires
            is_terminal(self.status),
        ensures
            r is Err <==> self.status is Error,
            self.status is Error ==> r == Err::<Vec<Step<T>>, String>(self.status->Error_0),
            r is Ok ==> r->Ok_0@.len() == 0,
    {
        match &self.status {
            StepStatus::Error(m) => Err(m.clone()),
            _ => Ok(Vec::new()),
        }
    }
}

} // verus!
