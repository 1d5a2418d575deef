//! A resumable, concurrency-aware execution engine for multi-step automation workflows.
//!
//! Work items are composed into sequences and parallel batches. The scheduler in
//! [`step::executor`] decides what runs next, which events are published, and when a run
//! ends; the caller performs the work itself and reports the outcomes back.

pub mod command;
pub mod log;
pub mod step;
pub mod subcommands;
pub mod text;
