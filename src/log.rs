//! Logging utilities.

use vstd::prelude::*;

verus! {

/// How much logging to provide to the user.
#[derive(Clone, Copy, Debug, PartialEq, Eq, Structural)]
pub enum LogLevel {
    /// Do not print any information.
    Silent,
    /// Print only steps that contain errors.
    Error,
    /// Print any steps that possibly contain some errors.
    Warning,
    /// Print progress of all steps.
    Info,
    /// Print all output of all steps and what they do.
    Verbose,
}

} // verus!
