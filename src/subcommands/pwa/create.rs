//! Creating a new progressive web app.

use crate::step::{ExecutorProperties, Step, StepSequence};
use crate::subcommands::cloud_home::init::is_item;
use crate::subcommands::github::{CloneRepo, CreateTemplateRepo};
use crate::subcommands::node::NPMInstall;
use crate::subcommands::WorkItem;
use vstd::prelude::*;

verus! {

/// Creates a repository from the PatternFly Yew quick-start template, clones it, and runs
/// `npm install` in it.
pub struct PwaCreate {
    /// Name of the app; it becomes the repository's name.
    pub name: String,
    /// Whether the new repository is public; it is private when nothing is said.
    pub public: Option<bool>,
}

/// The template the app is created from.
pub open spec fn pwa_template() -> Seq<char> {
    "ctron/patternfly-yew-quickstart"@
}

/// The plan of `create` for the app `name`: create the repository, clone it, install.
pub open spec fn is_create_sequence(s: StepSequence<WorkItem>, name: Seq<char>, public: bool) -> bool {
    &&& s.wf()
    &&& s.cursor() == 0
    &&& s.title@ == "Set up cloud home repository"@
    &&& s.remaining().len() == 3
    &&& s.remaining()[0].len() == 1
    &&& is_item(
        s.remaining()[0][0],
        |w: WorkItem|
            w is CreateTemplateRepo && w->CreateTemplateRepo_0.name@ == name
                && w->CreateTemplateRepo_0.repo@ == pwa_template()
                && w->CreateTemplateRepo_0.public == public,
    )
    &&& s.remaining()[1].len() == 1
    &&& is_item(s.remaining()[1][0], |w: WorkItem| w is CloneRepo && w->CloneRepo_0.repo_name@ == name)
    &&& s.remaining()[2].len() == 1
    &&& is_item(s.remaining()[2][0], |w: WorkItem| w is NPMInstall && w->NPMInstall_0.path@ == name)
}

impl PwaCreate {
    /// Adds the plan of `create` to `cmd_props`, as one batch holding one sequence.
    pub fn set_properties(&self, cmd_props: ExecutorProperties<WorkItem>) -> (r: ExecutorProperties<
        WorkItem,
    >)
        ensures
            r.batches().len() == cmd_props.batches().len() + 1,
            r.batches().drop_last() == cmd_props.batches(),
            r.batches().last().len() == 1,
            r.batches().last()[0] is Sequence,
            is_create_sequence(
                r.batches().last()[0]->Sequence_0,
                self.name@,
                match self.public {
                    Some(p) => p,
                    None => false,
                },
            ),
    {
        let name = self.name.as_str();
        let public = match self.public {
            Some(p) => p,
            None => false,
        };
        let create_template_repo = CreateTemplateRepo::new(
            name,
            "ctron/patternfly-yew-quickstart",
            public,
        );
        let clone_repo = CloneRepo::new(name);
        let npm_install = NPMInstall::new(name);
        let sequence = StepSequence::new("Set up cloud home repository", "").then_run(
            Step::Step(WorkItem::CreateTemplateRepo(create_template_repo)),
        ).then_run(Step::Step(WorkItem::CloneRepo(clone_repo))).then_run(
            Step::Step(WorkItem::NPMInstall(npm_install)),
        );
        let r = cmd_props.then_run_parallel(vec![Step::Sequence(sequence)]);
        assert(r.batches().drop_last() =~= cmd_props.batches());
        r
    }
}

} // verus!
