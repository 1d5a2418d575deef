//! Running the pre-commit tasks that come with a repository.

use crate::command::{result_is, CommandOutcome};
use crate::step::{ShouldRunResult, StepItem};
use crate::text::{join2, join3, join4};
use vstd::prelude::*;

verus! {

/// The pre-commit tasks.
#[derive(Clone, Copy, Debug, PartialEq, Eq, Structural)]
pub enum PreCommitCommand {
    Init,
    Update,
}

impl PreCommitCommand {
    pub open spec fn spec_subcommand(self) -> Seq<char> {
        match self {
            PreCommitCommand::Init => "precommit:init"@,
            PreCommitCommand::Update => "precommit:update"@,
        }
    }

    /// The name of the task.
    pub fn precommit_subcommand(&self) -> (r: String)
        ensures
            r@ == self.spec_subcommand(),
    {
        match self {
            PreCommitCommand::Init => "precommit:init".to_owned(),
            PreCommitCommand::Update => "precommit:update".to_owned(),
        }
    }
}

/// Runs a pre-commit task in a directory.
pub struct PreCommit {
    pub command: PreCommitCommand,
    /// The directory to run under.
    pub path: String,
}

impl PreCommit {
    pub fn new(command: PreCommitCommand, path: &str) -> (r: PreCommit)
        ensures
            r.command == command,
            r.path@ == path@,
    {
        PreCommit { command, path: path.to_owned() }
    }

    /// The task is always run.
    pub fn should_run(&self) -> (r: ShouldRunResult)
        ensures
            r is Run,
    {
        ShouldRunResult::Run
    }

    /// The result of the step, from the outcome of `task <subcommand>`.
    pub fn task_result(&self, outcome: &CommandOutcome) -> (r: Result<String, String>)
        ensures
            result_is(
                r,
                match *outcome {
                    CommandOutcome::Exited { success, stderr } => if success {
                        Ok("Running `task "@ + self.command.spec_subcommand() + "`"@)
                    } else {
                        Err(
                            "Error Running `task "@ + self.command.spec_subcommand() + "` Msg: "@
                                + stderr@,
                        )
                    },
                    CommandOutcome::FailedToStart(e) => Err(
                        "Running `task "@ + self.command.spec_subcommand() + "` Msg: "@ + e@,
                    ),
                },
            ),
    {
        let sub = self.command.precommit_subcommand();
        match outcome {
            CommandOutcome::Exited { success, stderr } => if *success {
                Ok(join3("Running `task ", sub.as_str(), "`"))
            } else {
                Err(join4("Error Running `task ", sub.as_str(), "` Msg: ", stderr.as_str()))
            },
            CommandOutcome::FailedToStart(e) => Err(
                join4("Running `task ", sub.as_str(), "` Msg: ", e.as_str()),
            ),
        }
    }
}

impl StepItem for PreCommit {
    open spec fn title_view(&self) -> Seq<char> {
        "Running task "@ + self.command.spec_subcommand()
    }

    open spec fn description_view(&self) -> Seq<char> {
        "Runs the pre-commit "@ + self.command.spec_subcommand() + " command"@
    }

    fn title(&self) -> (r: String) {
        let sub = self.command.precommit_subcommand();
        join2("Running task ", sub.as_str())
    }

    fn description(&self) -> (r: String) {
        let sub = self.command.precommit_subcommand();
        join3("Runs the pre-commit ", sub.as_str(), " command")
    }
}

} // verus!
