//! The phase that runs once the system has booted: an update image that the
//! boot ran on becomes the base image.

use vstd::prelude::*;
use crate::boot::{boot_result, BootAction, BootError, BootPhase, StateFile};
use crate::image::ImageFiles;

verus! {

/// Where the phase stands: the request whose answer is awaited.
#[derive(Clone, Copy, Debug, PartialEq, Eq)]
pub enum BootCompletedState {
    /// Nothing was asked yet.
    Start,
    Reporting,
    /// Asked whether the update image exists.
    ProbingUpdate,
    Renaming,
    Copying,
    RemovingUpdate,
    /// Over, with this result.
    Finished { result: Result<(), BootError> },
}

/// The end of the phase with `result`.
pub open spec fn boot_completed_end(result: Result<(), BootError>) -> (
    BootCompletedState,
    BootAction,
) {
    (BootCompletedState::Finished { result }, BootAction::Finish { result })
}

/// The next state and the request that leads to it, given the state that
/// `answer` belongs to. The update image is renamed; where that fails it is
/// copied and then removed, and a failure of either ends the phase with an
/// error.
pub open spec fn boot_completed_step(state: BootCompletedState, answer: bool) -> (
    BootCompletedState,
    BootAction,
) {
    match state {
        BootCompletedState::Start => (
            BootCompletedState::Reporting,
            BootAction::ReportPhase { phase: BootPhase::BootCompleted },
        ),
        BootCompletedState::Reporting => (
            BootCompletedState::ProbingUpdate,
            BootAction::ProbeFile { file: StateFile::UpdateImage },
        ),
        BootCompletedState::ProbingUpdate => if answer {
            (BootCompletedState::Renaming, BootAction::RenameUpdateToBase)
        } else {
            boot_completed_end(Ok(()))
        },
        BootCompletedState::Renaming => if answer {
            boot_completed_end(Ok(()))
        } else {
            (BootCompletedState::Copying, BootAction::CopyUpdateToBase)
        },
        BootCompletedState::Copying => if answer {
            (
                BootCompletedState::RemovingUpdate,
                BootAction::RemoveFile { file: StateFile::UpdateImage },
            )
        } else {
            boot_completed_end(Err(BootError::CopyImage))
        },
        BootCompletedState::RemovingUpdate => if answer {
            boot_completed_end(Ok(()))
        } else {
            boot_completed_end(Err(BootError::RemoveImage))
        },
        BootCompletedState::Finished { result } => boot_completed_end(result),
    }
}

fn end(result: Result<(), BootError>) -> (next: (BootCompletedState, BootAction))
    ensures
        next == boot_completed_end(result),
{
    (BootCompletedState::Finished { result }, BootAction::Finish { result })
}

/// Takes the phase one step further.
///
/// `state` is the state that the last call returned (`Start` for the first
/// call) and `answer` the answer to the request that the last call returned.
/// The caller performs the returned request and calls again, until the
/// request is `Finish`.
pub fn on_boot_completed(state: BootCompletedState, answer: bool) -> (next: (
    BootCompletedState,
    BootAction,
))
    ensures
        next == boot_completed_step(state, answer),
{
    match state {
        BootCompletedState::Start => (
            BootCompletedState::Reporting,
            BootAction::ReportPhase { phase: BootPhase::BootCompleted },
        ),
        BootCompletedState::Reporting => (
            BootCompletedState::ProbingUpdate,
            BootAction::ProbeFile { file: StateFile::UpdateImage },
        ),
        BootCompletedState::ProbingUpdate => {
            if answer {
                (BootCompletedState::Renaming, BootAction::RenameUpdateToBase)
            } else {
                end(Ok(()))
            }
        },
        BootCompletedState::Renaming => {
            if answer {
                end(Ok(()))
            } else {
                (BootCompletedState::Copying, BootAction::CopyUpdateToBase)
            }
        },
        BootCompletedState::Copying => {
            if answer {
                (
                    BootCompletedState::RemovingUpdate,
                    BootAction::RemoveFile { file: StateFile::UpdateImage },
                )
            } else {
                end(Err(BootError::CopyImage))
            }
        },
        BootCompletedState::RemovingUpdate => {
            if answer {
                end(Ok(()))
            } else {
                end(Err(BootError::RemoveImage))
            }
        },
        BootCompletedState::Finished { result } => end(result),
    }
}

/// How many calls the phase still takes at most from `state`, the one that
/// returns `Finish` included.
pub open spec fn boot_completed_steps_left(state: BootCompletedState) -> nat {
    match state {
        BootCompletedState::Start => 6,
        BootCompletedState::Reporting => 5,
        BootCompletedState::ProbingUpdate => 4,
        BootCompletedState::Renaming => 3,
        BootCompletedState::Copying => 2,
        BootCompletedState::RemovingUpdate => 1,
        BootCompletedState::Finished { .. } => 0,
    }
}

/// Everything that [`on_boot_completed`] returns from `state` on when the
/// request that opens a state is answered as `answers` says of that state.
pub open spec fn boot_completed_run_from(
    answers: spec_fn(BootCompletedState) -> bool,
    state: BootCompletedState,
) -> Seq<BootAction>
    decreases boot_completed_steps_left(state),
{
    let (next, action) = boot_completed_step(state, answers(state));
    if next is Finished {
        seq![action]
    } else {
        seq![action] + boot_completed_run_from(answers, next)
    }
}

/// The whole phase, from the first call on.
pub open spec fn boot_completed_run(answers: spec_fn(BootCompletedState) -> bool) -> Seq<
    BootAction,
> {
    boot_completed_run_from(answers, BootCompletedState::Start)
}

/// The image files after the requests made from `state` on, where they are
/// `files` in `state`.
pub open spec fn boot_completed_files_from(
    answers: spec_fn(BootCompletedState) -> bool,
    state: BootCompletedState,
    files: ImageFiles,
) -> ImageFiles
    decreases boot_completed_steps_left(state),
{
    let (next, action) = boot_completed_step(state, answers(state));
    if next is Finished {
        files
    } else {
        boot_completed_files_from(answers, next, files.after(action, answers(next)))
    }
}

/// With an update image there when the boot completes: where the phase ends
/// in success, the base image holds what the update image held and the
/// update image is gone. Where it fails, the update image is still there:
/// after a failed copy with the base image as it was, after a failed removal
/// with its content in the base image too.
pub proof fn lemma_promotion(answers: spec_fn(BootCompletedState) -> bool, files: ImageFiles)
    requires
        files.update is Some,
        answers(BootCompletedState::ProbingUpdate),
    ensures
        ({
            let run = boot_completed_run(answers);
            let after = boot_completed_files_from(answers, BootCompletedState::Start, files);
            &&& run[2] == BootAction::RenameUpdateToBase
            &&& after.marker == files.marker
            &&& boot_result(run) is Ok ==> after.base == files.update && after.update is None
            &&& boot_result(run) is Ok <==> answers(BootCompletedState::Renaming) || (answers(
                BootCompletedState::Copying,
            ) && answers(BootCompletedState::RemovingUpdate))
            &&& boot_result(run) == Err::<(), BootError>(BootError::CopyImage) ==> after == files
            &&& boot_result(run) == Err::<(), BootError>(BootError::RemoveImage) ==> after.base
                == files.update && after.update == files.update
        }),
{
    reveal_with_fuel(boot_completed_run_from, 7);
    reveal_with_fuel(boot_completed_files_from, 7);
}

/// With no update image there, the phase reports its entry, looks for the
/// image and ends in success; the files stay as they are.
pub proof fn lemma_nothing_to_promote(answers: spec_fn(BootCompletedState) -> bool, files: ImageFiles)
    requires
        !answers(BootCompletedState::ProbingUpdate),
    ensures
        boot_completed_run(answers) == seq![
            BootAction::ReportPhase { phase: BootPhase::BootCompleted },
            BootAction::ProbeFile { file: StateFile::UpdateImage },
            BootAction::Finish { result: Ok(()) },
        ],
        boot_completed_files_from(answers, BootCompletedState::Start, files) == files,
{
    reveal_with_fuel(boot_completed_run_from, 4);
    reveal_with_fuel(boot_completed_files_from, 4);
}

/// The phase mounts no image and applies no module, whatever it is
/// answered.
pub proof fn lemma_boot_completed_mounts_nothing(answers: spec_fn(BootCompletedState) -> bool)
    ensures
        forall|i: int|
            0 <= i < boot_completed_run(answers).len() ==> {
                let action = #[trigger] boot_completed_run(answers)[i];
                !(action is MountImage) && !action.applies_modules()
            },
{
    reveal_with_fuel(boot_completed_run_from, 7);
}

/// Every step brings the end nearer, and a phase that is over stays over,
/// with its result.
pub proof fn lemma_boot_completed_ends(state: BootCompletedState, answer: bool)
    ensures
        ({
            let (next, action) = boot_completed_step(state, answer);
            &&& !(state is Finished) ==> boot_completed_steps_left(next)
                < boot_completed_steps_left(state)
            &&& state is Finished ==> next == state
            &&& next is Finished <==> action is Finish
        }),
{
}

} // verus!
