//! Setting up an age key for a repository.

use crate::step::StepItem;
use crate::text::join3;
use vstd::prelude::*;

verus! {

/// Generates an age key for a repository and installs it under the home directory.
pub struct Age {
    /// Name of the repository.
    pub name: String,
}

impl Age {
    pub fn new(name: &str) -> (r: Age)
        ensures
            r.name@ == name@,
    {
        Age { name: name.to_owned() }
    }

    pub open spec fn spec_key_path(&self) -> Seq<char> {
        "/home/oe/.config/sops/age/"@ + self.name@ + ".txt"@
    }

    /// Where the key is installed; the step is skipped where a file is there.
    pub fn key_path(&self) -> (r: String)
        ensures
            r@ == self.spec_key_path(),
    {
        join3("/home/oe/.config/sops/age/", self.name.as_str(), ".txt")
    }

    /// The message of a successful execution.
    pub fn success_message(&self) -> (r: String)
        ensures
            r@ == "Age key generated and moved to ~/.config/sops/age/"@ + self.name@ + ".txt"@,
    {
        join3("Age key generated and moved to ~/.config/sops/age/", self.name.as_str(), ".txt")
    }

    /// What follows command `index` of the set-up (0 generates the key, 1 makes the key
    /// directory, 2 moves the key there) once it returned `result`: the step's result, or
    /// `None` when the next command is to run. The first failure ends the step.
    pub fn after_command(&self, index: usize, result: Result<String, String>) -> (r: Option<
        Result<String, String>,
    >)
        requires
            index < 3,
        ensures
            result is Err ==> r == Some(result),
            result is Ok && index < 2 ==> r is None,
            result is Ok && index == 2 ==> r is Some && r->Some_0 is Ok && r->Some_0->Ok_0@
                == "Age key generated and moved to ~/.config/sops/age/"@ + self.name@ + ".txt"@,
    {
        match result {
            Err(m) => Some(Err(m)),
            Ok(_) => if index == 2 {
                Some(Ok(self.success_message()))
            } else {
                None
            },
        }
    }
}

impl StepItem for Age {
    open spec fn title_view(&self) -> Seq<char> {
        "Set up age key for repo."@
    }

    open spec fn description_view(&self) -> Seq<char> {
        "Sets up the age key and installs it to the home directory."@
    }

    fn title(&self) -> (r: String) {
        "Set up age key for repo.".to_owned()
    }

    fn description(&self) -> (r: String) {
        "Sets up the age key and installs it to the home directory.".to_owned()
    }
}

} // verus!
