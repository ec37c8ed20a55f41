//! The phase that runs once the data partition is there and before the
//! early services start: it picks and mounts the module image and, unless
//! the boot is a safe-mode boot, applies the modules.

use vstd::prelude::*;
use crate::boot::{boot_result, BootAction, BootError, BootPhase, HookStage, ImageSlot, StateFile};
use crate::image::{select_image, spec_select_image, ImageFiles};

verus! {

/// Where the phase stands: the request whose answer is awaited.
#[derive(Clone, Copy, Debug, PartialEq, Eq)]
pub enum PostFsDataState {
    /// Nothing was asked yet.
    Start,
    Reporting,
    ProbingFramework,
    ResettingUmask,
    CleaningModuleDir,
    ExtractingBinaries,
    /// Asked whether the update image exists.
    ProbingUpdate,
    /// Asked whether the update marker exists.
    ProbingMarker,
    RemovingMarker,
    RemovingStaleUpdate,
    /// Asked whether the chosen image exists.
    ProbingImage { slot: ImageSlot },
    MountingImage,
    ProbingSafeMode,
    DisablingModules,
    RunningCommonScripts,
    LoadingSepolicyRules,
    RunningModuleScripts,
    LoadingSystemProps,
    UnmountingStockOverlay,
    MountingSystemlessly,
    MountingStockOverlay,
    /// Over, with this result.
    Finished { result: Result<(), BootError> },
}

/// The end of the phase with `result`.
pub open spec fn post_fs_data_end(result: Result<(), BootError>) -> (PostFsDataState, BootAction) {
    (PostFsDataState::Finished { result }, BootAction::Finish { result })
}

/// The next state and the request that leads to it, given the state that
/// `answer` belongs to. In `Start` no request is open and the answer is not
/// looked at; the same holds of the requests whose failure changes nothing.
pub open spec fn post_fs_data_step(state: PostFsDataState, answer: bool) -> (
    PostFsDataState,
    BootAction,
) {
    match state {
        PostFsDataState::Start => (
            PostFsDataState::Reporting,
            BootAction::ReportPhase { phase: BootPhase::PostFsData },
        ),
        PostFsDataState::Reporting => (
            PostFsDataState::ProbingFramework,
            BootAction::ProbeAlternateFramework,
        ),
        PostFsDataState::ProbingFramework => if answer {
            post_fs_data_end(Ok(()))
        } else {
            (PostFsDataState::ResettingUmask, BootAction::ResetUmask)
        },
        PostFsDataState::ResettingUmask => (
            PostFsDataState::CleaningModuleDir,
            BootAction::CleanModuleDir,
        ),
        PostFsDataState::CleaningModuleDir => if answer {
            (PostFsDataState::ExtractingBinaries, BootAction::ExtractBinaries)
        } else {
            post_fs_data_end(Err(BootError::CleanModuleDir))
        },
        PostFsDataState::ExtractingBinaries => if answer {
            (PostFsDataState::ProbingUpdate, BootAction::ProbeFile { file: StateFile::UpdateImage })
        } else {
            post_fs_data_end(Err(BootError::ExtractBinaries))
        },
        PostFsDataState::ProbingUpdate => if answer {
            (PostFsDataState::ProbingMarker, BootAction::ProbeFile { file: StateFile::UpdateMarker })
        } else {
            let slot = spec_select_image(false, false).slot;
            (PostFsDataState::ProbingImage { slot }, BootAction::ProbeFile { file: slot.spec_file() })
        },
        PostFsDataState::ProbingMarker => {
            let plan = spec_select_image(true, answer);
            match plan.remove {
                Some(file) => (
                    match plan.slot {
                        ImageSlot::Update => PostFsDataState::RemovingMarker,
                        ImageSlot::Base => PostFsDataState::RemovingStaleUpdate,
                    },
                    BootAction::RemoveFile { file },
                ),
                None => (
                    PostFsDataState::ProbingImage { slot: plan.slot },
                    BootAction::ProbeFile { file: plan.slot.spec_file() },
                ),
            }
        },
        PostFsDataState::RemovingMarker => if answer {
            (
                PostFsDataState::ProbingImage { slot: ImageSlot::Update },
                BootAction::ProbeFile { file: StateFile::UpdateImage },
            )
        } else {
            post_fs_data_end(Err(BootError::RemoveMarker))
        },
        PostFsDataState::RemovingStaleUpdate => (
            PostFsDataState::ProbingImage { slot: ImageSlot::Base },
            BootAction::ProbeFile { file: StateFile::BaseImage },
        ),
        PostFsDataState::ProbingImage { slot } => if answer {
            (PostFsDataState::MountingImage, BootAction::MountImage { slot, read_only: false })
        } else {
            post_fs_data_end(Ok(()))
        },
        PostFsDataState::MountingImage => if answer {
            (PostFsDataState::ProbingSafeMode, BootAction::ProbeSafeMode)
        } else {
            post_fs_data_end(Err(BootError::MountImage))
        },
        PostFsDataState::ProbingSafeMode => if answer {
            (PostFsDataState::DisablingModules, BootAction::DisableAllModules)
        } else {
            (
                PostFsDataState::RunningCommonScripts,
                BootAction::RunCommonScripts { stage: HookStage::PostFsData, wait: true },
            )
        },
        PostFsDataState::DisablingModules => post_fs_data_end(Ok(())),
        PostFsDataState::RunningCommonScripts => (
            PostFsDataState::LoadingSepolicyRules,
            BootAction::LoadSepolicyRules,
        ),
        PostFsDataState::LoadingSepolicyRules => (
            PostFsDataState::RunningModuleScripts,
            BootAction::RunModuleScripts { stage: HookStage::PostFsData },
        ),
        PostFsDataState::RunningModuleScripts => (
            PostFsDataState::LoadingSystemProps,
            BootAction::LoadSystemProps,
        ),
        PostFsDataState::LoadingSystemProps => (
            PostFsDataState::UnmountingStockOverlay,
            BootAction::UnmountStockOverlay,
        ),
        PostFsDataState::UnmountingStockOverlay => (
            PostFsDataState::MountingSystemlessly,
            BootAction::MountSystemlessly,
        ),
        PostFsDataState::MountingSystemlessly => (
            PostFsDataState::MountingStockOverlay,
            BootAction::MountStockOverlay,
        ),
        PostFsDataState::MountingStockOverlay => post_fs_data_end(Ok(())),
        PostFsDataState::Finished { result } => post_fs_data_end(result),
    }
}

fn end(result: Result<(), BootError>) -> (next: (PostFsDataState, BootAction))
    ensures
        next == post_fs_data_end(result),
{
    (PostFsDataState::Finished { result }, BootAction::Finish { result })
}

/// Takes the phase one step further.
///
/// `state` is the state that the last call returned (`Start` for the first
/// call) and `answer` the answer to the request that the last call returned.
/// The caller performs the returned request and calls again, until the
/// request is `Finish`.
pub fn on_post_data_fs(state: PostFsDataState, answer: bool) -> (next: (PostFsDataState, BootAction))
    ensures
        next == post_fs_data_step(state, answer),
{
    match state {
        PostFsDataState::Start => (
            PostFsDataState::Reporting,
            BootAction::ReportPhase { phase: BootPhase::PostFsData },
        ),
        PostFsDataState::Reporting => (
            PostFsDataState::ProbingFramework,
            BootAction::ProbeAlternateFramework,
        ),
        PostFsDataState::ProbingFramework => {
            if answer {
                end(Ok(()))
            } else {
                (PostFsDataState::ResettingUmask, BootAction::ResetUmask)
            }
        },
        PostFsDataState::ResettingUmask => (
            PostFsDataState::CleaningModuleDir,
            BootAction::CleanModuleDir,
        ),
        PostFsDataState::CleaningModuleDir => {
            if answer {
                (PostFsDataState::ExtractingBinaries, BootAction::ExtractBinaries)
            } else {
                end(Err(BootError::CleanModuleDir))
            }
        },
        PostFsDataState::ExtractingBinaries => {
            if answer {
                (
                    PostFsDataState::ProbingUpdate,
                    BootAction::ProbeFile { file: StateFile::UpdateImage },
                )
            } else {
                end(Err(BootError::ExtractBinaries))
            }
        },
        PostFsDataState::ProbingUpdate => {
            if answer {
                (
                    PostFsDataState::ProbingMarker,
                    BootAction::ProbeFile { file: StateFile::UpdateMarker },
                )
            } else {
                let slot = select_image(false, false).slot;
                (PostFsDataState::ProbingImage { slot }, BootAction::ProbeFile { file: slot.file() })
            }
        },
        PostFsDataState::ProbingMarker => {
            let plan = select_image(true, answer);
            match plan.remove {
                Some(file) => {
                    let removing = match plan.slot {
                        ImageSlot::Update => PostFsDataState::RemovingMarker,
                        ImageSlot::Base => PostFsDataState::RemovingStaleUpdate,
                    };
                    (removing, BootAction::RemoveFile { file })
                },
                None => (
                    PostFsDataState::ProbingImage { slot: plan.slot },
                    BootAction::ProbeFile { file: plan.slot.file() },
                ),
            }
        },
        PostFsDataState::RemovingMarker => {
            if answer {
                (
                    PostFsDataState::ProbingImage { slot: ImageSlot::Update },
                    BootAction::ProbeFile { file: StateFile::UpdateImage },
                )
            } else {
                end(Err(BootError::RemoveMarker))
            }
        },
        PostFsDataState::RemovingStaleUpdate => (
            PostFsDataState::ProbingImage { slot: ImageSlot::Base },
            BootAction::ProbeFile { file: StateFile::BaseImage },
        ),
        PostFsDataState::ProbingImage { slot } => {
            if answer {
                (PostFsDataState::MountingImage, BootAction::MountImage { slot, read_only: false })
            } else {
                end(Ok(()))
            }
        },
        PostFsDataState::MountingImage => {
            if answer {
                (PostFsDataState::ProbingSafeMode, BootAction::ProbeSafeMode)
            } else {
                end(Err(BootError::MountImage))
            }
        },
        PostFsDataState::ProbingSafeMode => {
            if answer {
                (PostFsDataState::DisablingModules, BootAction::DisableAllModules)
            } else {
                (
                    PostFsDataState::RunningCommonScripts,
                    BootAction::RunCommonScripts { stage: HookStage::PostFsData, wait: true },
                )
            }
        },
        PostFsDataState::DisablingModules => end(Ok(())),
        PostFsDataState::RunningCommonScripts => (
            PostFsDataState::LoadingSepolicyRules,
            BootAction::LoadSepolicyRules,
        ),
        PostFsDataState::LoadingSepolicyRules => (
            PostFsDataState::RunningModuleScripts,
            BootAction::RunModuleScripts { stage: HookStage::PostFsData },
        ),
        PostFsDataState::RunningModuleScripts => (
            PostFsDataState::LoadingSystemProps,
            BootAction::LoadSystemProps,
        ),
        PostFsDataState::LoadingSystemProps => (
            PostFsDataState::UnmountingStockOverlay,
            BootAction::UnmountStockOverlay,
        ),
        PostFsDataState::UnmountingStockOverlay => (
            PostFsDataState::MountingSystemlessly,
            BootAction::MountSystemlessly,
        ),
        PostFsDataState::MountingSystemlessly => (
            PostFsDataState::MountingStockOverlay,
            BootAction::MountStockOverlay,
        ),
        PostFsDataState::MountingStockOverlay => end(Ok(())),
        PostFsDataState::Finished { result } => end(result),
    }
}

/// How many calls the phase still takes at most from `state`, the one that
/// returns `Finish` included.
pub open spec fn post_fs_data_steps_left(state: PostFsDataState) -> nat {
    match state {
        PostFsDataState::Start => 19,
        PostFsDataState::Reporting => 18,
        PostFsDataState::ProbingFramework => 17,
        PostFsDataState::ResettingUmask => 16,
        PostFsDataState::CleaningModuleDir => 15,
        PostFsDataState::ExtractingBinaries => 14,
        PostFsDataState::ProbingUpdate => 13,
        PostFsDataState::ProbingMarker => 12,
        PostFsDataState::RemovingMarker => 11,
        PostFsDataState::RemovingStaleUpdate => 11,
        PostFsDataState::ProbingImage { .. } => 10,
        PostFsDataState::MountingImage => 9,
        PostFsDataState::ProbingSafeMode => 8,
        PostFsDataState::RunningCommonScripts => 7,
        PostFsDataState::LoadingSepolicyRules => 6,
        PostFsDataState::RunningModuleScripts => 5,
        PostFsDataState::LoadingSystemProps => 4,
        PostFsDataState::UnmountingStockOverlay => 3,
        PostFsDataState::MountingSystemlessly => 2,
        PostFsDataState::MountingStockOverlay => 1,
        PostFsDataState::DisablingModules => 1,
        PostFsDataState::Finished { .. } => 0,
    }
}

/// Everything that [`on_post_data_fs`] returns from `state` on when the
/// request that opens a state is answered as `answers` says of that state:
/// the requests in order, closed by `Finish`.
pub open spec fn post_fs_data_run_from(
    answers: spec_fn(PostFsDataState) -> bool,
    state: PostFsDataState,
) -> Seq<BootAction>
    decreases post_fs_data_steps_left(state),
{
    let (next, action) = post_fs_data_step(state, answers(state));
    if next is Finished {
        seq![action]
    } else {
        seq![action] + post_fs_data_run_from(answers, next)
    }
}

/// The whole phase, from the first call on.
pub open spec fn post_fs_data_run(answers: spec_fn(PostFsDataState) -> bool) -> Seq<BootAction> {
    post_fs_data_run_from(answers, PostFsDataState::Start)
}

/// The image files after the requests made from `state` on, where they are
/// `files` in `state`.
pub open spec fn post_fs_data_files_from(
    answers: spec_fn(PostFsDataState) -> bool,
    state: PostFsDataState,
    files: ImageFiles,
) -> ImageFiles
    decreases post_fs_data_steps_left(state),
{
    let (next, action) = post_fs_data_step(state, answers(state));
    if next is Finished {
        files
    } else {
        post_fs_data_files_from(answers, next, files.after(action, answers(next)))
    }
}

/// Whether the phase gets as far as looking at the images: no other
/// framework is active, and the module directory and the helper binaries
/// are in place.
pub open spec fn reaches_images(answers: spec_fn(PostFsDataState) -> bool) -> bool {
    &&& !answers(PostFsDataState::ProbingFramework)
    &&& answers(PostFsDataState::CleaningModuleDir)
    &&& answers(PostFsDataState::ExtractingBinaries)
}

/// Whether the phase gets as far as asking for safe mode with the image in
/// `slot` mounted.
pub open spec fn mounts_image(answers: spec_fn(PostFsDataState) -> bool, slot: ImageSlot) -> bool {
    &&& reaches_images(answers)
    &&& match slot {
        ImageSlot::Update => answers(PostFsDataState::ProbingUpdate) && answers(
            PostFsDataState::ProbingMarker,
        ) && answers(PostFsDataState::RemovingMarker),
        ImageSlot::Base => !answers(PostFsDataState::ProbingUpdate) || !answers(
            PostFsDataState::ProbingMarker,
        ),
    }
    &&& answers(PostFsDataState::ProbingImage { slot })
    &&& answers(PostFsDataState::MountingImage)
}

/// The requests up to the first look at the images, where the phase gets
/// that far.
pub open spec fn preparation() -> Seq<BootAction> {
    seq![
        BootAction::ReportPhase { phase: BootPhase::PostFsData },
        BootAction::ProbeAlternateFramework,
        BootAction::ResetUmask,
        BootAction::CleanModuleDir,
        BootAction::ExtractBinaries,
        BootAction::ProbeFile { file: StateFile::UpdateImage },
    ]
}

/// The requests that apply the modules, closed by the end of the phase.
pub open spec fn application() -> Seq<BootAction> {
    seq![
        BootAction::RunCommonScripts { stage: HookStage::PostFsData, wait: true },
        BootAction::LoadSepolicyRules,
        BootAction::RunModuleScripts { stage: HookStage::PostFsData },
        BootAction::LoadSystemProps,
        BootAction::UnmountStockOverlay,
        BootAction::MountSystemlessly,
        BootAction::MountStockOverlay,
        BootAction::Finish { result: Ok(()) },
    ]
}

/// Where another rooting framework is active, the phase reports its entry,
/// finds the framework and ends in success with nothing else done.
pub proof fn lemma_alternate_framework_skips_phase(answers: spec_fn(PostFsDataState) -> bool)
    requires
        answers(PostFsDataState::ProbingFramework),
    ensures
        post_fs_data_run(answers) == seq![
            BootAction::ReportPhase { phase: BootPhase::PostFsData },
            BootAction::ProbeAlternateFramework,
            BootAction::Finish { result: Ok(()) },
        ],
{
    reveal_with_fuel(post_fs_data_run_from, 4);
}

/// What ends the phase with an error: a module directory that cannot be
/// made empty, helper binaries that cannot be extracted, and an image that
/// is there and cannot be mounted. Each ends it at once.
pub proof fn lemma_fatal_failures(answers: spec_fn(PostFsDataState) -> bool, slot: ImageSlot)
    requires
        !answers(PostFsDataState::ProbingFramework),
    ensures
        !answers(PostFsDataState::CleaningModuleDir) ==> post_fs_data_run(answers) == seq![
            BootAction::ReportPhase { phase: BootPhase::PostFsData },
            BootAction::ProbeAlternateFramework,
            BootAction::ResetUmask,
            BootAction::CleanModuleDir,
            BootAction::Finish { result: Err(BootError::CleanModuleDir) },
        ],
        answers(PostFsDataState::CleaningModuleDir) && !answers(PostFsDataState::ExtractingBinaries)
            ==> post_fs_data_run(answers) == seq![
            BootAction::ReportPhase { phase: BootPhase::PostFsData },
            BootAction::ProbeAlternateFramework,
            BootAction::ResetUmask,
            BootAction::CleanModuleDir,
            BootAction::ExtractBinaries,
            BootAction::Finish { result: Err(BootError::ExtractBinaries) },
        ],
        answers(PostFsDataState::ProbingImage { slot }) && !answers(PostFsDataState::MountingImage)
            ==> post_fs_data_run_from(answers, PostFsDataState::ProbingImage { slot }) == seq![
            BootAction::MountImage { slot, read_only: false },
            BootAction::Finish { result: Err(BootError::MountImage) },
        ],
{
    reveal_with_fuel(post_fs_data_run_from, 7);
    if !answers(PostFsDataState::CleaningModuleDir) {
        assert(post_fs_data_run(answers) =~= seq![
            BootAction::ReportPhase { phase: BootPhase::PostFsData },
            BootAction::ProbeAlternateFramework,
            BootAction::ResetUmask,
            BootAction::CleanModuleDir,
            BootAction::Finish { result: Err(BootError::CleanModuleDir) },
        ]);
    } else if !answers(PostFsDataState::ExtractingBinaries) {
        assert(post_fs_data_run(answers) =~= seq![
            BootAction::ReportPhase { phase: BootPhase::PostFsData },
            BootAction::ProbeAlternateFramework,
            BootAction::ResetUmask,
            BootAction::CleanModuleDir,
            BootAction::ExtractBinaries,
            BootAction::Finish { result: Err(BootError::ExtractBinaries) },
        ]);
    }
}

/// A phase that gets as far as the images has made the preparing requests,
/// in order, and goes on from the answer on the update image.
pub proof fn lemma_preparation(answers: spec_fn(PostFsDataState) -> bool)
    requires
        reaches_images(answers),
    ensures
        post_fs_data_run(answers) == preparation() + post_fs_data_run_from(
            answers,
            PostFsDataState::ProbingUpdate,
        ),
        forall|files: ImageFiles|
            #[trigger] post_fs_data_files_from(answers, PostFsDataState::Start, files)
                == post_fs_data_files_from(answers, PostFsDataState::ProbingUpdate, files),
{
    reveal_with_fuel(post_fs_data_run_from, 7);
    reveal_with_fuel(post_fs_data_files_from, 7);
    assert(post_fs_data_run(answers) =~= preparation() + post_fs_data_run_from(
        answers,
        PostFsDataState::ProbingUpdate,
    ));
}

/// Once the image was looked for, no request touches the image files or the
/// marker any more.
pub proof fn lemma_files_settled(
    answers: spec_fn(PostFsDataState) -> bool,
    state: PostFsDataState,
    files: ImageFiles,
)
    requires
        post_fs_data_steps_left(state) <= post_fs_data_steps_left(
            PostFsDataState::ProbingImage { slot: ImageSlot::Base },
        ),
    ensures
        post_fs_data_files_from(answers, state, files) == files,
    decreases post_fs_data_steps_left(state),
{
    let (next, action) = post_fs_data_step(state, answers(state));
    if !(next is Finished) {
        lemma_files_settled(answers, next, files);
    }
}

/// An update image with its marker: the marker is removed, then the update
/// image is the one that is mounted, and the marker is gone from then on. If
/// the marker cannot be removed, the phase fails with nothing mounted.
pub proof fn lemma_pending_update_is_selected(
    answers: spec_fn(PostFsDataState) -> bool,
    files: ImageFiles,
)
    requires
        reaches_images(answers),
        files.update is Some,
        files.marker,
        answers(PostFsDataState::ProbingUpdate),
        answers(PostFsDataState::ProbingMarker),
        answers(PostFsDataState::ProbingImage { slot: ImageSlot::Update }),
    ensures
        ({
            let run = post_fs_data_run(answers);
            let after = post_fs_data_files_from(answers, PostFsDataState::Start, files);
            &&& run[6] == (BootAction::ProbeFile { file: StateFile::UpdateMarker })
            &&& run[7] == (BootAction::RemoveFile { file: StateFile::UpdateMarker })
            &&& answers(PostFsDataState::RemovingMarker) ==> {
                &&& run[8] == (BootAction::ProbeFile { file: StateFile::UpdateImage })
                &&& run[9] == (BootAction::MountImage { slot: ImageSlot::Update, read_only: false })
                &&& !after.marker
                &&& after.update == files.update
                &&& after.base == files.base
            }
            &&& !answers(PostFsDataState::RemovingMarker) ==> {
                &&& run.len() == 9
                &&& boot_result(run) == Err::<(), BootError>(BootError::RemoveMarker)
                &&& after == files
            }
        }),
{
    lemma_preparation(answers);
    reveal_with_fuel(post_fs_data_run_from, 5);
    reveal_with_fuel(post_fs_data_files_from, 4);
    let gone = ImageFiles { marker: false, ..files };
    lemma_files_settled(answers, PostFsDataState::ProbingImage { slot: ImageSlot::Update }, gone);
    lemma_files_settled(answers, PostFsDataState::MountingImage, gone);
}

/// An update image without marker is stale: it is removed, and the base
/// image is the one that is looked for and, if it exists, mounted. That the
/// removal fails does not end the phase.
pub proof fn lemma_stale_update_is_removed(
    answers: spec_fn(PostFsDataState) -> bool,
    files: ImageFiles,
)
    requires
        reaches_images(answers),
        files.update is Some,
        !files.marker,
        answers(PostFsDataState::ProbingUpdate),
        !answers(PostFsDataState::ProbingMarker),
    ensures
        ({
            let run = post_fs_data_run(answers);
            let after = post_fs_data_files_from(answers, PostFsDataState::Start, files);
            let base = PostFsDataState::ProbingImage { slot: ImageSlot::Base };
            &&& run[6] == (BootAction::ProbeFile { file: StateFile::UpdateMarker })
            &&& run[7] == (BootAction::RemoveFile { file: StateFile::UpdateImage })
            &&& run[8] == (BootAction::ProbeFile { file: StateFile::BaseImage })
            &&& answers(base) ==> run[9] == (BootAction::MountImage {
                slot: ImageSlot::Base,
                read_only: false,
            })
            &&& !answers(base) ==> run.len() == 10 && boot_result(run) == Ok::<(), BootError>(())
            &&& answers(PostFsDataState::RemovingStaleUpdate) ==> after.update is None
            &&& after.base == files.base
            &&& !after.marker
        }),
{
    lemma_preparation(answers);
    reveal_with_fuel(post_fs_data_run_from, 5);
    reveal_with_fuel(post_fs_data_files_from, 4);
    let base = PostFsDataState::ProbingImage { slot: ImageSlot::Base };
    lemma_files_settled(answers, base, files);
    lemma_files_settled(answers, base, ImageFiles { update: None, ..files });
    lemma_files_settled(answers, PostFsDataState::MountingImage, files);
    lemma_files_settled(answers, PostFsDataState::MountingImage, ImageFiles { update: None, ..files });
}

/// With neither image there, nothing is selected: the phase ends in success
/// after the two probes, and no image is mounted.
pub proof fn lemma_no_image_mounts_nothing(answers: spec_fn(PostFsDataState) -> bool)
    requires
        reaches_images(answers),
        !answers(PostFsDataState::ProbingUpdate),
        !answers(PostFsDataState::ProbingImage { slot: ImageSlot::Base }),
    ensures
        post_fs_data_run(answers) == preparation() + seq![
            BootAction::ProbeFile { file: StateFile::BaseImage },
            BootAction::Finish { result: Ok(()) },
        ],
{
    lemma_preparation(answers);
    reveal_with_fuel(post_fs_data_run_from, 3);
}

/// From any state up to the question for safe mode, and from the disabling
/// of the modules, a safe-mode boot makes no request that applies a module.
pub proof fn lemma_safe_mode_from(answers: spec_fn(PostFsDataState) -> bool, state: PostFsDataState)
    requires
        answers(PostFsDataState::ProbingSafeMode),
        post_fs_data_steps_left(state) >= post_fs_data_steps_left(PostFsDataState::ProbingSafeMode)
            || state is DisablingModules || state is Finished,
    ensures
        forall|i: int|
            0 <= i < post_fs_data_run_from(answers, state).len() ==> !(
            #[trigger] post_fs_data_run_from(answers, state)[i]).applies_modules(),
    decreases post_fs_data_steps_left(state),
{
    let (next, action) = post_fs_data_step(state, answers(state));
    let run = post_fs_data_run_from(answers, state);
    if !(next is Finished) {
        lemma_safe_mode_from(answers, next);
        let rest = post_fs_data_run_from(answers, next);
        assert forall|i: int| 0 <= i < run.len() implies !(#[trigger] run[i]).applies_modules() by {
            if i > 0 {
                assert(run[i] == rest[i - 1]);
            }
        }
    }
}

/// In a safe-mode boot no script is run, no rule or property loaded and no
/// overlay mounted. Where the phase gets as far as the question, every
/// module is given its disable marker next, and the phase then ends in
/// success whether or not that worked.
pub proof fn lemma_safe_mode_applies_no_module(answers: spec_fn(PostFsDataState) -> bool)
    requires
        answers(PostFsDataState::ProbingSafeMode),
    ensures
        forall|i: int|
            0 <= i < post_fs_data_run(answers).len() ==> !(#[trigger] post_fs_data_run(
                answers,
            )[i]).applies_modules(),
        post_fs_data_run_from(answers, PostFsDataState::ProbingSafeMode) == seq![
            BootAction::DisableAllModules,
            BootAction::Finish { result: Ok(()) },
        ],
{
    lemma_safe_mode_from(answers, PostFsDataState::Start);
    reveal_with_fuel(post_fs_data_run_from, 3);
}

/// Once the image in `slot` is mounted, the phase goes on from the question
/// for safe mode: the run from the first look at the images on ends with the
/// mount, the question and everything that follows from its answer.
pub proof fn lemma_image_mounted(answers: spec_fn(PostFsDataState) -> bool, slot: ImageSlot)
    requires
        mounts_image(answers, slot),
    ensures
        ({
            let run = post_fs_data_run(answers);
            let rest = seq![
                BootAction::MountImage { slot, read_only: false },
                BootAction::ProbeSafeMode,
            ] + post_fs_data_run_from(answers, PostFsDataState::ProbingSafeMode);
            &&& run.len() >= rest.len()
            &&& run.subrange(run.len() - rest.len(), run.len() as int) == rest
        }),
{
    lemma_preparation(answers);
    let from_probe = post_fs_data_run_from(answers, PostFsDataState::ProbingImage { slot });
    let rest = seq![BootAction::MountImage { slot, read_only: false }, BootAction::ProbeSafeMode]
        + post_fs_data_run_from(answers, PostFsDataState::ProbingSafeMode);
    assert(from_probe =~= rest) by {
        reveal_with_fuel(post_fs_data_run_from, 3);
    }
    let from_update = post_fs_data_run_from(answers, PostFsDataState::ProbingUpdate);
    assert(from_update.len() >= rest.len() && from_update.subrange(
        from_update.len() - rest.len(),
        from_update.len() as int,
    ) =~= rest) by {
        reveal_with_fuel(post_fs_data_run_from, 4);
    }
    let run = post_fs_data_run(answers);
    assert(run.subrange(run.len() - rest.len(), run.len() as int) =~= rest);
}

/// Outside safe mode the modules are applied in a fixed order, and the phase
/// ends in success whatever any of these requests answers: common scripts,
/// policy rules, module scripts, properties, then the partitions' overlays
/// between the unmount and the remount of the stock overlays.
pub proof fn lemma_modules_applied_in_order(answers: spec_fn(PostFsDataState) -> bool)
    requires
        !answers(PostFsDataState::ProbingSafeMode),
    ensures
        post_fs_data_run_from(answers, PostFsDataState::ProbingSafeMode) == application(),
{
    reveal_with_fuel(post_fs_data_run_from, 9);
    assert(post_fs_data_run_from(answers, PostFsDataState::ProbingSafeMode) =~= application());
}

/// From no state on does the phase replace the base image by the update
/// image.
pub proof fn lemma_promotes_nothing_from(
    answers: spec_fn(PostFsDataState) -> bool,
    state: PostFsDataState,
)
    ensures
        forall|i: int|
            0 <= i < post_fs_data_run_from(answers, state).len() ==> !(
            #[trigger] post_fs_data_run_from(answers, state)[i]).promotes_update(),
    decreases post_fs_data_steps_left(state),
{
    let (next, action) = post_fs_data_step(state, answers(state));
    let run = post_fs_data_run_from(answers, state);
    if !(next is Finished) {
        lemma_promotes_nothing_from(answers, next);
        let rest = post_fs_data_run_from(answers, next);
        assert forall|i: int| 0 <= i < run.len() implies !(#[trigger] run[i]).promotes_update() by {
            if i > 0 {
                assert(run[i] == rest[i - 1]);
            }
        }
    }
}

/// Every step brings the end nearer, so the phase is over after nineteen
/// calls at most; and a phase that is over stays over, with its result.
pub proof fn lemma_post_fs_data_ends(state: PostFsDataState, answer: bool)
    ensures
        ({
            let (next, action) = post_fs_data_step(state, answer);
            &&& !(state is Finished) ==> post_fs_data_steps_left(next) < post_fs_data_steps_left(
                state,
            )
            &&& state is Finished ==> next == state
            &&& next is Finished <==> action is Finish
        }),
{
}

} // verus!
