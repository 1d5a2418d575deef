//! Running `npm install`.

use crate::step::{ShouldRunResult, StepItem};
use vstd::prelude::*;

verus! {

/// Runs `npm install` in a directory.
pub struct NPMInstall {
    /// Path relative to the current directory.
    pub path: String,
}

impl NPMInstall {
    pub fn new(path: &str) -> (r: NPMInstall)
        ensures
            r.path@ == path@,
    {
        NPMInstall { path: path.to_owned() }
    }

    /// The install is always run.
    pub fn should_run(&self) -> (r: ShouldRunResult)
        ensures
            r is Run,
    {
        ShouldRunResult::Run
    }
}

impl StepItem for NPMInstall {
    open spec fn title_view(&self) -> Seq<char> {
        "Running npm install"@
    }

    open spec fn description_view(&self) -> Seq<char> {
        "Will run 'npm install' in the newly provided directory"@
    }

    fn title(&self) -> (r: String) {
        "Running npm install".to_owned()
    }

    fn description(&self) -> (r: String) {
        "Will run 'npm install' in the newly provided directory".to_owned()
    }
}

} // verus!
