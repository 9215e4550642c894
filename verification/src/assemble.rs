//! The output assembler: the order in which a decoded container is put on
//! disk, and what each failure on the way means. The program does the work
//! on the file system; what to do next, and how the task ends, is decided here.

use vstd::prelude::*;
use crate::error::NcmError;

verus! {

/// Where the storing of one decoded container stands.
#[derive(Debug, Clone, Copy, PartialEq, Eq)]
pub enum Stage {
    /// The output directory is to be created.
    CreatingDir,
    /// The decoded audio is to be written.
    WritingAudio,
    /// A write failed; what it left behind is to be removed.
    RemovingPartial,
    /// The audio is written; the cover is to be embedded into it.
    EmbeddingCover,
    /// Nothing is left to do; the task ended with this result.
    Finished(Result<(), NcmError>),
}

/// The work on the file system that a stage asks for.
#[derive(Debug, Clone, Copy, PartialEq, Eq)]
pub enum Action {
    /// Create the output directory with all its parents; one that exists
    /// already counts as created.
    CreateDir,
    /// Write the decoded audio to the output file.
    WriteAudio,
    /// Remove the output file, whether or not it is there.
    RemoveFile,
    /// Hand the output file and the cover image to the tagger.
    EmbedCover,
    /// Report the result; the task is over.
    Report(Result<(), NcmError>),
}

impl Stage {
    /// The action that this stage asks for.
    pub open spec fn action_of(self) -> Action {
        match self {
            Stage::CreatingDir => Action::CreateDir,
            Stage::WritingAudio => Action::WriteAudio,
            Stage::RemovingPartial => Action::RemoveFile,
            Stage::EmbeddingCover => Action::EmbedCover,
            Stage::Finished(result) => Action::Report(result),
        }
    }

    /// The stage that follows when the action of this stage succeeded or
    /// failed. A directory that cannot be created and audio that cannot be
    /// written end the task with `FileWriteError`, the second after what the
    /// write left is removed. A cover that cannot be embedded ends the task
    /// with `CoverCannotSave` and leaves the audio where it is.
    pub open spec fn after(self, succeeded: bool) -> Stage {
        match self {
            Stage::CreatingDir => if succeeded {
                Stage::WritingAudio
            } else {
                Stage::Finished(Err(NcmError::FileWriteError))
            },
            Stage::WritingAudio => if succeeded {
                Stage::EmbeddingCover
            } else {
                Stage::RemovingPartial
            },
            Stage::RemovingPartial => Stage::Finished(Err(NcmError::FileWriteError)),
            Stage::EmbeddingCover => if succeeded {
                Stage::Finished(Ok(()))
            } else {
                Stage::Finished(Err(NcmError::CoverCannotSave))
            },
            Stage::Finished(result) => Stage::Finished(result),
        }
    }

    /// Whether the whole of the decoded audio stands in the output file.
    pub open spec fn audio_is_stored(self) -> bool {
        self == Stage::EmbeddingCover || self == Stage::Finished(Ok(())) || self
            == Stage::Finished(Err(NcmError::CoverCannotSave))
    }

    /// The stage in which every task starts.
    pub fn start() -> (stage: Stage)
        ensures
            stage == Stage::CreatingDir,
    {
        Stage::CreatingDir
    }

    /// What the program is to do now.
    pub fn action(&self) -> (action: Action)
        ensures
            action == self.action_of(),
    {
        match self {
            Stage::CreatingDir => Action::CreateDir,
            Stage::WritingAudio => Action::WriteAudio,
            Stage::RemovingPartial => Action::RemoveFile,
            Stage::EmbeddingCover => Action::EmbedCover,
            Stage::Finished(result) => Action::Report(*result),
        }
    }

    /// Moves on after the action of this stage was tried.
    pub fn next(&self, succeeded: bool) -> (stage: Stage)
        ensures
            stage == self.after(succeeded),
    {
        match self {
            Stage::CreatingDir => if succeeded {
                Stage::WritingAudio
            } else {
                Stage::Finished(Err(NcmError::FileWriteError))
            },
            Stage::WritingAudio => if succeeded {
                Stage::EmbeddingCover
            } else {
                Stage::RemovingPartial
            },
            Stage::RemovingPartial => Stage::Finished(Err(NcmError::FileWriteError)),
            Stage::EmbeddingCover => if succeeded {
                Stage::Finished(Ok(()))
            } else {
                Stage::Finished(Err(NcmError::CoverCannotSave))
            },
            Stage::Finished(result) => Stage::Finished(*result),
        }
    }
}

/// Every task is over after four actions, whatever succeeds and whatever fails.
pub proof fn lemma_task_ends(first: bool, second: bool, third: bool, fourth: bool)
    ensures
        Stage::CreatingDir.after(first).after(second).after(third).after(fourth) is Finished,
{
}

/// A task ends well only where the directory was created, the audio written
/// and the cover embedded; it ends with `FileWriteError` where the directory
/// or the write failed, and with `CoverCannotSave` where only the cover did.
pub proof fn lemma_task_result(dir: bool, write: bool, third: bool)
    ensures
        Stage::CreatingDir.after(dir).after(write).after(third) == Stage::Finished(
            if !dir || !write {
                Err(NcmError::FileWriteError)
            } else if third {
                Ok(())
            } else {
                Err(NcmError::CoverCannotSave)
            },
        ),
{
}

/// Once the audio is stored, nothing that follows takes it away: no later
/// stage asks for the file to be removed, and the audio stays stored.
pub proof fn lemma_stored_audio_stays(stage: Stage, succeeded: bool)
    requires
        stage.audio_is_stored(),
    ensures
        stage.after(succeeded).audio_is_stored(),
        stage.action_of() != Action::RemoveFile,
        stage.after(succeeded).action_of() != Action::RemoveFile,
{
}

/// A task that ends with `FileWriteError` has no audio stored, and one that
/// ends otherwise has.
pub proof fn lemma_write_error_stores_nothing(dir: bool, write: bool, third: bool)
    ensures
        ({
            let end = Stage::CreatingDir.after(dir).after(write).after(third);
            end.audio_is_stored() <==> end != Stage::Finished(Err(NcmError::FileWriteError))
        }),
{
}

} // verus!
