//! Replacing the file of a document: the steps, their order, and what a
//! run that stops half-way leaves on disk.
//!
//! The document is first written to a temporary file beside the target;
//! only then is the temporary file given the name of the target, which
//! replaces a target that is there. No other step touches the target, so
//! until the last step went well the target holds what it held before.

use crate::storage::{Document, StorageError};
use vstd::prelude::*;
use vstd::string::*;

verus! {

/// One step of replacing the file of a document.
#[derive(Clone, Copy, PartialEq, Eq, Structural, Debug)]
pub enum SaveStep {
    /// Create the directory of the file, if the path names one.
    CreateParentDirectory,
    /// Turn the document into text.
    Serialize,
    /// Write the text to the temporary file beside the target.
    WriteTemporary,
    /// Rename the temporary file to the target, in place of a target that
    /// is there.
    RenameTemporary,
    /// Nothing is left to do.
    Finished,
}

impl SaveStep {
    /// The place of the step in a run.
    pub open spec fn rank(self) -> nat {
        match self {
            SaveStep::CreateParentDirectory => 0,
            SaveStep::Serialize => 1,
            SaveStep::WriteTemporary => 2,
            SaveStep::RenameTemporary => 3,
            SaveStep::Finished => 4,
        }
    }

    /// The step that follows when this one went well.
    pub open spec fn following(self) -> SaveStep {
        match self {
            SaveStep::CreateParentDirectory => SaveStep::Serialize,
            SaveStep::Serialize => SaveStep::WriteTemporary,
            SaveStep::WriteTemporary => SaveStep::RenameTemporary,
            SaveStep::RenameTemporary => SaveStep::Finished,
            SaveStep::Finished => SaveStep::Finished,
        }
    }

    /// The step that a run begins with.
    pub fn first() -> (step: SaveStep)
        ensures
            step == SaveStep::CreateParentDirectory,
    {
        SaveStep::CreateParentDirectory
    }

    /// The step that follows when this one went well.
    pub fn next(self) -> (step: SaveStep)
        ensures
            step == self.following(),
    {
        match self {
            SaveStep::CreateParentDirectory => SaveStep::Serialize,
            SaveStep::Serialize => SaveStep::WriteTemporary,
            SaveStep::WriteTemporary => SaveStep::RenameTemporary,
            SaveStep::RenameTemporary => SaveStep::Finished,
            SaveStep::Finished => SaveStep::Finished,
        }
    }

    /// The error that ends the run when the file system refuses this step
    /// on `path` with the message `detail`; none for the steps that ask
    /// nothing of the file system.
    pub fn failure(self, document: Document, path: &str, detail: &str) -> (error: Option<
        StorageError,
    >)
        ensures
            match self {
                SaveStep::CreateParentDirectory => error matches Some(
                    StorageError::CreateDirectory { path: at, detail: why },
                ) && at@ == path@ && why@ == detail@,
                SaveStep::WriteTemporary => error matches Some(
                    StorageError::WriteTemporary { document: failed, detail: why },
                ) && failed == document && why@ == detail@,
                SaveStep::RenameTemporary => error matches Some(
                    StorageError::Finalize { document: failed, detail: why },
                ) && failed == document && why@ == detail@,
                SaveStep::Serialize | SaveStep::Finished => error is None,
            },
    {
        match self {
            SaveStep::CreateParentDirectory => Some(
                StorageError::CreateDirectory {
                    path: String::from_str(path),
                    detail: String::from_str(detail),
                },
            ),
            SaveStep::Serialize => None,
            SaveStep::WriteTemporary => Some(
                StorageError::WriteTemporary { document, detail: String::from_str(detail) },
            ),
            SaveStep::RenameTemporary => Some(
                StorageError::Finalize { document, detail: String::from_str(detail) },
            ),
            SaveStep::Finished => None,
        }
    }
}

/// The two files of a document as a run finds and leaves them, each by its
/// content if it is there.
pub struct DocumentFiles {
    /// The file that holds the document.
    pub target: Option<Seq<char>>,
    /// The file beside it that a run writes first.
    pub temporary: Option<Seq<char>>,
}

impl SaveStep {
    /// What a step that went well leaves of the two files, where `text` is
    /// the document as text.
    pub open spec fn leaves(self, files: DocumentFiles, text: Seq<char>) -> DocumentFiles {
        match self {
            SaveStep::WriteTemporary => DocumentFiles { temporary: Some(text), ..files },
            SaveStep::RenameTemporary => DocumentFiles {
                target: files.temporary,
                temporary: None,
            },
            _ => files,
        }
    }
}

/// Where a run stands after `count` steps that went well, and what it has
/// left of the two files.
pub open spec fn run_after(
    count: nat,
    step: SaveStep,
    files: DocumentFiles,
    text: Seq<char>,
) -> (SaveStep, DocumentFiles)
    decreases count,
{
    if count == 0 {
        (step, files)
    } else {
        run_after((count - 1) as nat, step.following(), step.leaves(files, text), text)
    }
}

/// A run that has finished changes nothing any more.
pub proof fn lemma_finished_run_stays(count: nat, files: DocumentFiles, text: Seq<char>)
    ensures
        run_after(count, SaveStep::Finished, files, text) == (SaveStep::Finished, files),
    decreases count,
{
    if count > 0 {
        lemma_finished_run_stays((count - 1) as nat, files, text);
    }
}

/// A run of `first + second` steps is a run of `first` steps followed by
/// one of `second`.
pub proof fn lemma_run_splits(
    first: nat,
    second: nat,
    step: SaveStep,
    files: DocumentFiles,
    text: Seq<char>,
)
    ensures
        run_after(first + second, step, files, text) == run_after(
            second,
            run_after(first, step, files, text).0,
            run_after(first, step, files, text).1,
            text,
        ),
    decreases first,
{
    if first > 0 {
        lemma_run_splits(
            (first - 1) as nat,
            second,
            step.following(),
            step.leaves(files, text),
            text,
        );
    }
}

/// A run that is not refused ends with the document in the target and no
/// temporary file left, whether or not a target was there before.
pub proof fn lemma_save_run_replaces_target(files: DocumentFiles, text: Seq<char>)
    ensures
        run_after(4, SaveStep::CreateParentDirectory, files, text) == (
            SaveStep::Finished,
            DocumentFiles { target: Some(text), temporary: None },
        ),
{
    reveal_with_fuel(run_after, 5);
}

/// Wherever a run stops short of its end, the target holds what it held
/// before the run, be it a document or nothing; at its end the target
/// holds the new document.
pub proof fn lemma_save_run_keeps_target_until_finished(
    count: nat,
    files: DocumentFiles,
    text: Seq<char>,
)
    ensures
        ({
            let (step, left) = run_after(count, SaveStep::CreateParentDirectory, files, text);
            if step == SaveStep::Finished {
                left.target == Some(text)
            } else {
                left.target == files.target
            }
        }),
{
    reveal_with_fuel(run_after, 5);
    if count > 4 {
        lemma_save_run_replaces_target(files, text);
        lemma_finished_run_stays(
            (count - 4) as nat,
            DocumentFiles { target: Some(text), temporary: None },
            text,
        );
        lemma_run_splits(4, (count - 4) as nat, SaveStep::CreateParentDirectory, files, text);
    }
}

/// Only the rename touches the target, and it puts there what the
/// temporary file holds.
pub proof fn lemma_only_rename_touches_target(
    step: SaveStep,
    files: DocumentFiles,
    text: Seq<char>,
)
    ensures
        step != SaveStep::RenameTemporary ==> step.leaves(files, text).target == files.target,
        step == SaveStep::RenameTemporary ==> step.leaves(files, text).target == files.temporary,
{
}

/// A run moves forward: every step but the last is followed by a later
/// one, so a run ends after at most four steps; and the rename comes only
/// after the temporary file was written.
pub proof fn lemma_save_run_advances(step: SaveStep)
    requires
        step != SaveStep::Finished,
    ensures
        step.following().rank() > step.rank(),
        step.following().rank() <= SaveStep::Finished.rank(),
        step.following() == SaveStep::RenameTemporary ==> step == SaveStep::WriteTemporary,
{
}

} // verus!
