//! Turning the outcome of an external command into a step result.

use crate::text::{join3, join4};
use vstd::prelude::*;

verus! {

/// What running an external command came to.
pub enum CommandOutcome {
    /// The command ran and exited; `stderr` is what it wrote to its error stream.
    Exited { success: bool, stderr: String },
    /// The command could not be run; the text describes why.
    FailedToStart(String),
}

impl CommandOutcome {
    /// The command ran and exited successfully.
    pub open spec fn succeeded(self) -> bool {
        self matches CommandOutcome::Exited { success, .. } && success
    }

    /// What the outcome says of a failure: the error stream, or why the command could not
    /// run.
    pub open spec fn detail(self) -> Seq<char> {
        match self {
            CommandOutcome::Exited { stderr, .. } => stderr@,
            CommandOutcome::FailedToStart(e) => e@,
        }
    }

    pub fn is_success(&self) -> (r: bool)
        ensures
            r == self.succeeded(),
    {
        match self {
            CommandOutcome::Exited { success, .. } => *success,
            CommandOutcome::FailedToStart(_) => false,
        }
    }

    pub fn detail_text(&self) -> (r: String)
        ensures
            r@ == self.detail(),
    {
        match self {
            CommandOutcome::Exited { stderr, .. } => stderr.clone(),
            CommandOutcome::FailedToStart(e) => e.clone(),
        }
    }
}

/// `r` holds the text of `t`.
pub open spec fn result_is(r: Result<String, String>, t: Result<Seq<char>, Seq<char>>) -> bool {
    match (r, t) {
        (Ok(a), Ok(b)) => a@ == b,
        (Err(a), Err(b)) => a@ == b,
        _ => false,
    }
}

/// The result of a step that runs one command named `name`.
pub open spec fn command_text(name: Seq<char>, outcome: CommandOutcome) -> Result<Seq<char>, Seq<char>> {
    match outcome {
        CommandOutcome::Exited { success, stderr } => if success {
            Ok("Completed running `"@ + name + "`."@)
        } else {
            Err("Error running `"@ + name + "`. stderr: "@ + stderr@)
        },
        CommandOutcome::FailedToStart(e) => Err("Failed to run `"@ + name + "`. Error: "@ + e@),
    }
}

/// The result of a step that runs the command named `cmd_name`, from its outcome.
pub fn command_result(cmd_name: &str, outcome: &CommandOutcome) -> (r: Result<String, String>)
    ensures
        result_is(r, command_text(cmd_name@, *outcome)),
{
    match outcome {
        CommandOutcome::Exited { success, stderr } => if *success {
            Ok(join3("Completed running `", cmd_name, "`."))
        } else {
            Err(join4("Error running `", cmd_name, "`. stderr: ", stderr.as_str()))
        },
        CommandOutcome::FailedToStart(e) => Err(
            join4("Failed to run `", cmd_name, "`. Error: ", e.as_str()),
        ),
    }
}

} // verus!
