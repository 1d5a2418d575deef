//! Creating and cloning GitHub repositories through the GitHub CLI.

use crate::command::{result_is, CommandOutcome};
use crate::step::{ShouldRunResult, StepItem, StepProcessError};
use crate::subcommands::is_check_error;
use crate::text::{join2, join3, join4, join5};
use vstd::prelude::*;

verus! {

/// The text of the first capture group of the leftmost match of a regular expression in a
/// text, if the expression compiles, matches, and that group takes part in the match.
pub uninterp spec fn first_group(pattern: Seq<char>, text: Seq<char>) -> Option<Seq<char>>;

/// Relies on regex::Regex::new, Regex::captures and Captures::get: the first capture group
/// of the leftmost match, if any.
#[verifier::external_body]
fn first_capture(pattern: &str, text: &str) -> (r: Option<String>)
    ensures
        match r {
            Some(s) => first_group(pattern@, text@) == Some(s@),
            None => first_group(pattern@, text@) is None,
        },
{
    let re = regex::Regex::new(pattern).ok()?;
    let caps = re.captures(text)?;
    caps.get(1).map(|m| m.as_str().to_string())
}

/// The expression that finds the user name in the output of `gh auth status`: what stands
/// between "github.com as " and " (".
pub open spec fn user_pattern() -> Seq<char> {
    "github.com as (.*) \\("@
}

/// The logged-in user, read from what `gh auth status` wrote.
pub fn user_from_auth_status(output: &str) -> (r: Option<String>)
    ensures
        match r {
            Some(s) => first_group(user_pattern(), output@) == Some(s@),
            None => first_group(user_pattern(), output@) is None,
        },
{
    first_capture("github.com as (.*) \\(", output)
}

/// Clones the repository of the logged-in user with this name into the current directory.
pub struct CloneRepo {
    pub repo_name: String,
}

impl CloneRepo {
    pub fn new(repo_name: &str) -> (r: CloneRepo)
        ensures
            r.repo_name@ == repo_name@,
    {
        CloneRepo { repo_name: repo_name.to_owned() }
    }

    /// The repository to clone, for the logged-in user `username`.
    pub fn full_repo(&self, username: &str) -> (r: String)
        ensures
            r@ == username@ + "/"@ + self.repo_name@,
    {
        join3(username, "/", self.repo_name.as_str())
    }

    /// The result of the step, from the outcome of `gh repo clone`.
    pub fn clone_result(&self, outcome: &CommandOutcome) -> (r: Result<String, String>)
        ensures
            result_is(
                r,
                if outcome.succeeded() {
                    Ok("Repo "@ + self.repo_name@ + " cloned."@)
                } else {
                    Err("Failed to clone repo "@ + self.repo_name@ + ".\n"@ + outcome.detail())
                },
            ),
    {
        if outcome.is_success() {
            Ok(join3("Repo ", self.repo_name.as_str(), " cloned."))
        } else {
            let detail = outcome.detail_text();
            Err(join4("Failed to clone repo ", self.repo_name.as_str(), ".\n", detail.as_str()))
        }
    }
}

impl StepItem for CloneRepo {
    open spec fn title_view(&self) -> Seq<char> {
        "Cloning repo "@ + self.repo_name@
    }

    open spec fn description_view(&self) -> Seq<char> {
        "Will clone the repo from the current logged in user."@
    }

    fn title(&self) -> (r: String) {
        join2("Cloning repo ", self.repo_name.as_str())
    }

    fn description(&self) -> (r: String) {
        "Will clone the repo from the current logged in user.".to_owned()
    }
}

/// Creates a new GitHub repository from a template repository.
pub struct CreateTemplateRepo {
    /// Name of the new repository.
    pub name: String,
    /// The template, as `owner/name`.
    pub repo: String,
    pub public: bool,
}

/// What `gh repo view` reports of a repository that does not exist.
pub open spec fn missing_repo_text(repo: Seq<char>, name: Seq<char>) -> Seq<char> {
    "GraphQL: Could not resolve to a Repository with the name '"@ + repo + "/"@ + name
        + "'. (repository)"@
}

impl CreateTemplateRepo {
    pub fn new(name: &str, repo: &str, public: bool) -> (r: CreateTemplateRepo)
        ensures
            r.name@ == name@,
            r.repo@ == repo@,
            r.public == public,
    {
        CreateTemplateRepo { name: name.to_owned(), repo: repo.to_owned(), public }
    }

    /// The first half of the check, from the outcome of `gh auth status`: a failure ends
    /// the check with an error, a success leads to the second half (`None`).
    pub fn after_auth_status(&self, auth: &CommandOutcome) -> (r: Option<ShouldRunResult>)
        ensures
            auth.succeeded() ==> r is None,
            auth is Exited && !auth.succeeded() ==> r is Some && is_check_error(
                r->Some_0,
                "GitHub CLI authentication failed. Make sure you are logged in."@,
            ),
            auth is FailedToStart ==> r is Some && is_check_error(
                r->Some_0,
                "Github CLI had an unexpected failure.\n"@ + auth.detail(),
            ),
    {
        match auth {
            CommandOutcome::Exited { success, .. } => if *success {
                None
            } else {
                Some(
                    ShouldRunResult::Error(
                        StepProcessError::new(
                            "GitHub CLI authentication failed. Make sure you are logged in.",
                        ),
                    ),
                )
            },
            CommandOutcome::FailedToStart(e) => Some(
                ShouldRunResult::Error(
                    StepProcessError {
                        message: join2("Github CLI had an unexpected failure.\n", e.as_str()),
                    },
                ),
            ),
        }
    }

    /// The second half of the check, from the outcome of `gh repo view`: an existing
    /// repository is skipped, a missing one is created, any other failure is an error.
    pub fn after_repo_view(&self, view: &CommandOutcome) -> (r: ShouldRunResult)
        ensures
            view is Exited ==> if view.succeeded() {
                r is Skip
            } else {
                r is Run
            },
            view is FailedToStart && view.detail() == missing_repo_text(self.repo@, self.name@)
                ==> r is Run,
            view is FailedToStart && view.detail() != missing_repo_text(self.repo@, self.name@)
                ==> is_check_error(
                r,
                "Failed to check if repo "@ + self.name@ + " exists.\n"@ + view.detail(),
            ),
    {
        match view {
            CommandOutcome::Exited { success, .. } => if *success {
                ShouldRunResult::Skip
            } else {
                ShouldRunResult::Run
            },
            CommandOutcome::FailedToStart(e) => {
                let missing = join5(
                    "GraphQL: Could not resolve to a Repository with the name '",
                    self.repo.as_str(),
                    "/",
                    self.name.as_str(),
                    "'. (repository)",
                );
                if *e == missing {
                    ShouldRunResult::Run
                } else {
                    let message = join4(
                        "Failed to check if repo ",
                        self.name.as_str(),
                        " exists.\n",
                        e.as_str(),
                    );
                    ShouldRunResult::Error(StepProcessError { message })
                }
            },
        }
    }

    /// The visibility flag of the new repository.
    pub fn visibility(&self) -> (r: String)
        ensures
            r@ == if self.public {
                "--public"@
            } else {
                "--private"@
            },
    {
        if self.public {
            "--public".to_owned()
        } else {
            "--private".to_owned()
        }
    }

    /// The result of the step, from the outcome of `gh repo create`.
    pub fn create_result(&self, outcome: &CommandOutcome) -> (r: Result<String, String>)
        ensures
            result_is(
                r,
                if outcome.succeeded() {
                    Ok("Created Github repository "@ + self.name@)
                } else {
                    Err("Failed to create repo "@ + self.name@ + ".\n"@ + outcome.detail())
                },
            ),
    {
        if outcome.is_success() {
            Ok(join2("Created Github repository ", self.name.as_str()))
        } else {
            let detail = outcome.detail_text();
            Err(join4("Failed to create repo ", self.name.as_str(), ".\n", detail.as_str()))
        }
    }
}

impl StepItem for CreateTemplateRepo {
    open spec fn title_view(&self) -> Seq<char> {
        "Creating template from "@ + self.repo@
    }

    open spec fn description_view(&self) -> Seq<char> {
        "Will check if the repo already exists, if it doesn't; Will clone it."@
    }

    fn title(&self) -> (r: String) {
        join2("Creating template from ", self.repo.as_str())
    }

    fn description(&self) -> (r: String) {
        "Will check if the repo already exists, if it doesn't; Will clone it.".to_owned()
    }
}

} // verus!
