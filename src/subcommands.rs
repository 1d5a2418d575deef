//! Work items of the command line tool. Each item knows its title and description, decides
//! from what its check found whether its work is still to be done, and words its result; the
//! caller runs the external commands.

pub mod age;
pub mod cloud_home;
pub mod filesystem;
pub mod github;
pub mod node;
pub mod precommit;
pub mod pwa;

use crate::step::{ShouldRunResult, StepItem};
use age::Age;
use filesystem::{CopyFile, CreateFile};
use github::{CloneRepo, CreateTemplateRepo};
use node::NPMInstall;
use precommit::PreCommit;
use vstd::prelude::*;

verus! {

/// The answer of a check that looks for the item's effect: skip where it is present, run
/// otherwise.
pub fn skip_when_present(present: bool) -> (r: ShouldRunResult)
    ensures
        present ==> r is Skip,
        !present ==> r is Run,
{
    if present {
        ShouldRunResult::Skip
    } else {
        ShouldRunResult::Run
    }
}

/// The work items of the command line tool.
pub enum WorkItem {
    Age(Age),
    CreateFile(CreateFile),
    CopyFile(CopyFile),
    CloneRepo(CloneRepo),
    CreateTemplateRepo(CreateTemplateRepo),
    NPMInstall(NPMInstall),
    PreCommit(PreCommit),
}

impl StepItem for WorkItem {
    open spec fn title_view(&self) -> Seq<char> {
        match self {
            WorkItem::Age(w) => w.title_view(),
            WorkItem::CreateFile(w) => w.title_view(),
            WorkItem::CopyFile(w) => w.title_view(),
            WorkItem::CloneRepo(w) => w.title_view(),
            WorkItem::CreateTemplateRepo(w) => w.title_view(),
            WorkItem::NPMInstall(w) => w.title_view(),
            WorkItem::PreCommit(w) => w.title_view(),
        }
    }

    open spec fn description_view(&self) -> Seq<char> {
        match self {
            WorkItem::Age(w) => w.description_view(),
            WorkItem::CreateFile(w) => w.description_view(),
            WorkItem::CopyFile(w) => w.description_view(),
            WorkItem::CloneRepo(w) => w.description_view(),
            WorkItem::CreateTemplateRepo(w) => w.description_view(),
            WorkItem::NPMInstall(w) => w.description_view(),
            WorkItem::PreCommit(w) => w.description_view(),
        }
    }

    fn title(&self) -> (r: String) {
        match self {
            WorkItem::Age(w) => w.title(),
            WorkItem::CreateFile(w) => w.title(),
            WorkItem::CopyFile(w) => w.title(),
            WorkItem::CloneRepo(w) => w.title(),
            WorkItem::CreateTemplateRepo(w) => w.title(),
            WorkItem::NPMInstall(w) => w.title(),
            WorkItem::PreCommit(w) => w.title(),
        }
    }

    fn description(&self) -> (r: String) {
        match self {
            WorkItem::Age(w) => w.description(),
            WorkItem::CreateFile(w) => w.description(),
            WorkItem::CopyFile(w) => w.description(),
            WorkItem::CloneRepo(w) => w.description(),
            WorkItem::CreateTemplateRepo(w) => w.description(),
            WorkItem::NPMInstall(w) => w.description(),
            WorkItem::PreCommit(w) => w.description(),
        }
    }
}

/// `r` is a failed check with message `msg`.
pub open spec fn is_check_error(r: ShouldRunResult, msg: Seq<char>) -> bool {
    r is Error && r->Error_0.message@ == msg
}

} // verus!
