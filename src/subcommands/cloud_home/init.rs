//! Initialising a new OECloud@Home installation.

use crate::step::{ExecutorProperties, Step, StepSequence};
use crate::subcommands::age::Age;
use crate::subcommands::filesystem::{CopyFile, CreateFile};
use crate::subcommands::github::{CloneRepo, CreateTemplateRepo};
use crate::subcommands::precommit::{PreCommit, PreCommitCommand};
use crate::subcommands::WorkItem;
use crate::text::join2;
use vstd::prelude::*;

verus! {

/// Creates the cluster's repository from a template and sets it up.
pub struct CloudHomeInit {
    /// Name of the cloud; it becomes the repository's name.
    pub name: String,
    /// Whether the new repository is public; it is when nothing is said.
    pub public: Option<bool>,
}

/// The template the repository is created from.
pub open spec fn cloud_home_template() -> Seq<char> {
    "k8s-at-home/flux-cluster-template"@
}

/// `step` is the work item `w`.
pub open spec fn is_item(step: Step<WorkItem>, w: spec_fn(WorkItem) -> bool) -> bool {
    step is Step && w(step->Step_0)
}

/// The sequence that runs the repository's pre-commit tasks: `init`, then `update`.
pub open spec fn is_precommit_sequence(step: Step<WorkItem>, name: Seq<char>) -> bool {
    &&& step is Sequence
    &&& {
        let s = step->Sequence_0;
        &&& s.wf()
        &&& s.cursor() == 0
        &&& s.title@ == "Run pre-commit hooks that come with the repository."@
        &&& s.remaining().len() == 2
        &&& s.remaining()[0].len() == 1
        &&& is_item(
            s.remaining()[0][0],
            |w: WorkItem|
                w is PreCommit && w->PreCommit_0.command == PreCommitCommand::Init
                    && w->PreCommit_0.path@ == name,
        )
        &&& s.remaining()[1].len() == 1
        &&& is_item(
            s.remaining()[1][0],
            |w: WorkItem|
                w is PreCommit && w->PreCommit_0.command == PreCommitCommand::Update
                    && w->PreCommit_0.path@ == name,
        )
    }
}

/// The plan of `init` for the cloud `name`: one sequence that creates the repository from
/// the template, clones it, then at once creates `oecloudhome.toml`, runs the pre-commit
/// tasks and copies the sample configuration, and last sets up the age key.
pub open spec fn is_init_sequence(s: StepSequence<WorkItem>, name: Seq<char>, public: bool) -> bool {
    &&& s.wf()
    &&& s.cursor() == 0
    &&& s.title@ == "Set up cloud home repository"@
    &&& s.remaining().len() == 4
    &&& s.remaining()[0].len() == 1
    &&& is_item(
        s.remaining()[0][0],
        |w: WorkItem|
            w is CreateTemplateRepo && w->CreateTemplateRepo_0.name@ == name
                && w->CreateTemplateRepo_0.repo@ == cloud_home_template()
                && w->CreateTemplateRepo_0.public == public,
    )
    &&& s.remaining()[1].len() == 1
    &&& is_item(s.remaining()[1][0], |w: WorkItem| w is CloneRepo && w->CloneRepo_0.repo_name@ == name)
    &&& s.remaining()[2].len() == 3
    &&& is_item(
        s.remaining()[2][0],
        |w: WorkItem| w is CreateFile && w->CreateFile_0.file_path@ == name + "/oecloudhome.toml"@,
    )
    &&& is_precommit_sequence(s.remaining()[2][1], name)
    &&& is_item(
        s.remaining()[2][2],
        |w: WorkItem|
            w is CopyFile && w->CopyFile_0.src_file_path@ == name + "/.config.sample.env"@
                && w->CopyFile_0.dst_file_path@ == name + "/.config.env"@,
    )
    &&& s.remaining()[3].len() == 1
    &&& is_item(s.remaining()[3][0], |w: WorkItem| w is Age && w->Age_0.name@ == name)
}

impl CloudHomeInit {
    /// Adds the plan of `init` to `cmd_props`, as one batch holding one sequence.
    pub fn set_properties(&self, cmd_props: ExecutorProperties<WorkItem>) -> (r: ExecutorProperties<
        WorkItem,
    >)
        ensures
            r.batches().len() == cmd_props.batches().len() + 1,
            r.batches().drop_last() == cmd_props.batches(),
            r.batches().last().len() == 1,
            r.batches().last()[0] is Sequence,
            is_init_sequence(
                r.batches().last()[0]->Sequence_0,
                self.name@,
                match self.public {
                    Some(p) => p,
                    None => true,
                },
            ),
    {
        let name = self.name.as_str();
        let public = match self.public {
            Some(p) => p,
            None => true,
        };
        let create_template_repo = CreateTemplateRepo::new(
            name,
            "k8s-at-home/flux-cluster-template",
            public,
        );
        let clone_repo = CloneRepo::new(name);
        let toml_path = join2(name, "/oecloudhome.toml");
        let pwa_toml = CreateFile::new(toml_path.as_str());
        let sample = join2(name, "/.config.sample.env");
        let config = join2(name, "/.config.env");
        let cpy_config = CopyFile::new(sample.as_str(), config.as_str());
        let precommit_init = PreCommit::new(PreCommitCommand::Init, name);
        let precommit_update = PreCommit::new(PreCommitCommand::Update, name);

        let precommit_sequence = StepSequence::new(
            "Run pre-commit hooks that come with the repository.",
            "",
        ).set_steps(vec![Step::Step(WorkItem::PreCommit(precommit_init))]).then_run(
            Step::Step(WorkItem::PreCommit(precommit_update)),
        );

        let sequence = StepSequence::new("Set up cloud home repository", "").then_run(
            Step::Step(WorkItem::CreateTemplateRepo(create_template_repo)),
        ).then_run(Step::Step(WorkItem::CloneRepo(clone_repo))).then_run_parallel(
            vec![
                Step::Step(WorkItem::CreateFile(pwa_toml)),
                Step::Sequence(precommit_sequence),
                Step::Step(WorkItem::CopyFile(cpy_config)),
            ],
        ).then_run(Step::Step(WorkItem::Age(Age::new(name))));
        let r = cmd_props.then_run_parallel(vec![Step::Sequence(sequence)]);
        assert(r.batches().drop_last() =~= cmd_props.batches());
        r
    }
}

} // verus!
