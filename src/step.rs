//! A "step" in a series of steps that completes a process. Steps are recoverable: when a run
//! fails it can be started again, and every step whose effect is already present is skipped.

pub mod event;
pub mod executor;
pub mod msg_handler;
pub mod sequence;


pub use executor::{ExecutorProperties, StepExecutor};
pub use sequence::StepSequence;

use vstd::prelude::*;

verus! {

/// A step is either a single work item or a sequence of steps. A sequence defines an order
/// of dependencies, where several steps of one batch can be completed at once.
///
/// The work item itself is opaque to the scheduler: it is handed back to the caller, who
/// performs it.
pub enum Step<T> {
    /// A single work item.
    Step(T),
    /// A sequence of batches of steps.
    Sequence(StepSequence<T>),
}

/// What the scheduler knows of a work item: its title and its description. Every step-level
/// event carries these.
pub trait StepItem {
    spec fn title_view(&self) -> Seq<char>;

    spec fn description_view(&self) -> Seq<char>;

    fn title(&self) -> (r: String)
        ensures
            r@ == self.title_view(),
    ;

    fn description(&self) -> (r: String)
        ensures
            r@ == self.description_view(),
    ;

    fn get_step_details(&self) -> (r: StepDetails)
        ensures
            r.title@ == self.title_view(),
            r.description@ == self.description_view(),
    {
        StepDetails { title: self.title(), description: self.description() }
    }
}

/// The details of a step, passed to the event handler with each step-level event.
#[derive(Clone)]
pub struct StepDetails {
    pub title: String,
    pub description: String,
}

/// The answer of a work item to the question whether its work still has to be done.
pub enum ShouldRunResult {
    /// The step should be run.
    Run,
    /// The step has already completed and is skipped.
    Skip,
    /// The check itself failed: a hard error that interrupts the run.
    Error(StepProcessError),
}

/// A failure reported by a work item.
pub struct StepProcessError {
    pub message: String,
}

impl StepProcessError {
    pub fn new(message: &str) -> (r: StepProcessError)
        ensures
            r.message@ == message@,
    {
        StepProcessError { message: message.to_owned() }
    }

    /// The message of the error, as text.
    pub fn to_string(&self) -> (r: String)
        ensures
            r@ == self.message@,
    {
        self.message.clone()
    }
}

/// An identifier of a step, generated at random. It is used for equality only, never for
/// ordering, and no collision check is made.
#[derive(Clone, Copy, Debug, PartialEq, Eq, Structural, Hash)]
pub struct StepId {
    pub id: u128,
}

/// The bits of a version 4 UUID that its version and variant fix.
pub const UUID_V4_MASK: u128 = 0xF000_C000_0000_0000_0000;

/// The value of those bits in a version 4 UUID of the RFC variant.
pub const UUID_V4_BITS: u128 = 0x4000_8000_0000_0000_0000;

/// Relies on uuid::Uuid::new_v4 and Uuid::as_u128: a random UUID of version 4 and of the RFC
/// variant, as an integer.
#[verifier::external_body]
fn random_uuid() -> (r: u128)
    ensures
        r & UUID_V4_MASK == UUID_V4_BITS,
{
    uuid::Uuid::new_v4().as_u128()
}

impl StepId {
    /// Generates a random id, a version 4 UUID.
    pub fn new_random() -> (r: StepId)
        ensures
            r.id & UUID_V4_MASK == UUID_V4_BITS,
    {
        StepId { id: random_uuid() }
    }
}

} // verus!
