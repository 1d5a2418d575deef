//! During the lifecycle of a step, several events take place: the start of a work item, its
//! end, an error or a skip, and the start or the end of a sequence.

use vstd::prelude::*;

verus! {

/// During the lifecycle of a step, the following events can be emitted.
pub enum StepEvent {
    End(EventData),
    Error(EventData),
    Start(EventData),
    NewSequence(NewSequenceEvent),
    EndSequence(EventData),
    Skip(EventData),
}

/// Additional information and context that an event carries.
pub struct EventData {
    pub msg: String,
    pub sequence_name: String,
}

impl EventData {
    pub fn new(msg: &str, sequence_name: &str) -> (r: EventData)
        ensures
            r.msg@ == msg@,
            r.sequence_name@ == sequence_name@,
    {
        EventData { msg: msg.to_owned(), sequence_name: sequence_name.to_owned() }
    }
}

/// Published when the executor enters a sequence for the first time.
pub struct NewSequenceEvent {
    pub length: usize,
    pub sequence_name: String,
}

impl NewSequenceEvent {
    pub fn new(length: usize, sequence_name: &str) -> (r: NewSequenceEvent)
        ensures
            r.length == length,
            r.sequence_name@ == sequence_name@,
    {
        NewSequenceEvent { length, sequence_name: sequence_name.to_owned() }
    }
}

/// `e` announces the sequence `name` with `length` steps.
pub open spec fn is_new_sequence(e: StepEvent, length: usize, name: Seq<char>) -> bool {
    &&& e is NewSequence
    &&& e->NewSequence_0.length == length
    &&& e->NewSequence_0.sequence_name@ == name
}

/// `e` reports that the sequence `name` has ended.
pub open spec fn is_end_sequence(e: StepEvent, name: Seq<char>) -> bool {
    &&& e is EndSequence
    &&& e->EndSequence_0.msg@ == name
    &&& e->EndSequence_0.sequence_name@ == name
}

} // verus!
