//! Creating and copying files.

use crate::step::StepItem;
use crate::text::{join2, join4};
use vstd::prelude::*;

verus! {

/// Creates an empty file, unless one is already there.
pub struct CreateFile {
    pub file_path: String,
}

impl CreateFile {
    pub fn new(file_path: &str) -> (r: CreateFile)
        ensures
            r.file_path@ == file_path@,
    {
        CreateFile { file_path: file_path.to_owned() }
    }

    /// The name under which the command is reported.
    pub fn command_name(&self) -> (r: String)
        ensures
            r@ == "touch "@ + self.file_path@,
    {
        join2("touch ", self.file_path.as_str())
    }
}

impl StepItem for CreateFile {
    open spec fn title_view(&self) -> Seq<char> {
        "Creating File "@ + self.file_path@
    }

    open spec fn description_view(&self) -> Seq<char> {
        "Creates a new file at the destination path."@
    }

    fn title(&self) -> (r: String) {
        join2("Creating File ", self.file_path.as_str())
    }

    fn description(&self) -> (r: String) {
        "Creates a new file at the destination path.".to_owned()
    }
}

/// Copies a file, unless the destination is already there.
pub struct CopyFile {
    pub src_file_path: String,
    pub dst_file_path: String,
}

impl CopyFile {
    pub fn new(src_file_path: &str, dst_file_path: &str) -> (r: CopyFile)
        ensures
            r.src_file_path@ == src_file_path@,
            r.dst_file_path@ == dst_file_path@,
    {
        CopyFile { src_file_path: src_file_path.to_owned(), dst_file_path: dst_file_path.to_owned() }
    }

    /// The name under which the command is reported.
    pub fn command_name(&self) -> (r: String)
        ensures
            r@ == "cp "@ + self.src_file_path@ + " "@ + self.dst_file_path@,
    {
        join4("cp ", self.src_file_path.as_str(), " ", self.dst_file_path.as_str())
    }
}

impl StepItem for CopyFile {
    open spec fn title_view(&self) -> Seq<char> {
        "Copying File "@ + self.src_file_path@ + " to "@ + self.dst_file_path@
    }

    open spec fn description_view(&self) -> Seq<char> {
        "Copies the source file "@ + self.src_file_path@ + " and creates the copy at "@
            + self.dst_file_path@ + "."@
    }

    fn title(&self) -> (r: String) {
        join4("Copying File ", self.src_file_path.as_str(), " to ", self.dst_file_path.as_str())
    }

    fn description(&self) -> (r: String) {
        let mut r = join4(
            "Copies the source file ",
            self.src_file_path.as_str(),
            " and creates the copy at ",
            self.dst_file_path.as_str(),
        );
        r.append(".");
        r
    }
}

} // verus!
