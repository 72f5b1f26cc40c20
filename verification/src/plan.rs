pub use crate::text::strings_view;
use vstd::prelude::*;

verus! {

/// What one step of a file-system plan does with its two paths.
#[derive(Debug, Clone, Copy, PartialEq, Eq, Structural)]
pub enum StepKind {
    /// Copy `from` to `to`; a failure ends the plan with an error.
    Copy,
    /// Copy `from` to `to` if `from` exists; a failure is ignored.
    CopyIfPresent,
    /// Fetch the URL `from` into the file `to`; a failure is ignored.
    Download,
    /// Fetch the gzip-compressed tar archive at the URL `from` and write the
    /// files it becomes (`crate::disk::archive_writes`), the disk image into
    /// `to`; a failure is ignored.
    DownloadArchive,
    /// Remove the file `to`; a failure is ignored.
    Remove,
    /// Make `to` a symbolic link to `from`; a failure is ignored.
    Link,
    /// Make `to` a symbolic link to `from`; a failure ends the plan with an error.
    LinkRequired,
    /// Create the directory `to` and its parents; a failure ends the plan with
    /// an error.
    CreateDir,
    /// Check that the file `to` exists; the plan ends with an error when it
    /// does not.
    RequireFile,
}

/// One step of a file-system plan.
#[derive(Debug, Clone)]
pub struct FileStep {
    pub kind: StepKind,
    pub from: String,
    pub to: String,
}

impl View for FileStep {
    type V = (StepKind, Seq<char>, Seq<char>);

    open spec fn view(&self) -> (StepKind, Seq<char>, Seq<char>) {
        (self.kind, self.from@, self.to@)
    }
}

/// The steps of a plan as plain values.
pub open spec fn steps_view(steps: Seq<FileStep>) -> Seq<(StepKind, Seq<char>, Seq<char>)> {
    steps.map_values(|s: FileStep| s@)
}

/// A step with the given kind and paths.
pub fn step(kind: StepKind, from: &str, to: &str) -> (s: FileStep)
    ensures
        s@ == (kind, from@, to@),
{
    FileStep { kind, from: String::from_str(from), to: String::from_str(to) }
}

} // verus!
