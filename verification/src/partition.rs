//! Mounting the overlay of one partition.
//!
//! The mount is a short conversation with the operating system. The library
//! decides each request from the answers so far; the caller performs the
//! request and reports the answer. [`mount_run`] is the whole conversation
//! for given answers, and the lemmas below say what it looks like.

use vstd::prelude::*;
use crate::paths::{
    lemma_base_is_last, overlay_lowerdir, partition_target, spec_join, spec_overlay_lowerdir,
    spec_partition_target, spec_stock_mount_root, stock_mount_root, views,
};

verus! {

/// Why the overlay of a partition was not mounted.
#[derive(Clone, Copy, Debug, PartialEq, Eq)]
pub enum MountError {
    /// The stock mounts below the partition could not be captured.
    StockCapture,
    /// The overlay mount itself failed.
    Overlay,
}

/// Where the mount of one partition stands: the request whose answer is
/// awaited.
#[derive(Clone, Copy, Debug, PartialEq, Eq)]
pub enum MountPhase {
    /// Nothing was asked yet.
    Start,
    /// Asked whether the mount point is a symbolic link.
    ProbingTarget,
    /// Asked to capture the stock mounts below the mount point.
    CapturingStock,
    /// Asked to mount the overlay.
    MountingOverlay,
    /// Asked to put the stock mounts back; `overlay_ok` is how the overlay
    /// mount went.
    RestoringStock { overlay_ok: bool },
    /// Asked to unmount the overlay because the stock mounts did not come
    /// back.
    UnwindingOverlay,
    /// Over, with this result.
    Finished { result: Result<(), MountError> },
}

/// A request to the operating system, or the end of the mount.
#[derive(Debug, PartialEq, Eq)]
pub enum MountAction {
    /// Is `path` a symbolic link? Answer `true` if it is.
    ProbeSymlink { path: String },
    /// Capture the stock mounts below `path`. Answer `true` on success.
    CaptureStock { path: String },
    /// Mount an overlay with the lower directories `lowerdir` (joined by
    /// colons, highest precedence first) onto `target`. Answer `true` on
    /// success.
    MountOverlay { lowerdir: String, target: String },
    /// Put the captured stock mounts back. Answer `true` on success.
    RestoreStock,
    /// Unmount `target`. Answer `true` on success.
    Unmount { target: String },
    /// Nothing more to do; `result` is the outcome of the mount.
    Finish { result: Result<(), MountError> },
}

/// A [`MountAction`] with its strings as sequences of characters.
pub enum MountActionView {
    ProbeSymlink { path: Seq<char> },
    CaptureStock { path: Seq<char> },
    MountOverlay { lowerdir: Seq<char>, target: Seq<char> },
    RestoreStock,
    Unmount { target: Seq<char> },
    Finish { result: Result<(), MountError> },
}

impl View for MountAction {
    type V = MountActionView;

    open spec fn view(&self) -> MountActionView {
        match *self {
            MountAction::ProbeSymlink { path } => MountActionView::ProbeSymlink { path: path@ },
            MountAction::CaptureStock { path } => MountActionView::CaptureStock { path: path@ },
            MountAction::MountOverlay { lowerdir, target } => MountActionView::MountOverlay {
                lowerdir: lowerdir@,
                target: target@,
            },
            MountAction::RestoreStock => MountActionView::RestoreStock,
            MountAction::Unmount { target } => MountActionView::Unmount { target: target@ },
            MountAction::Finish { result } => MountActionView::Finish { result },
        }
    }
}

/// The next phase and the request that leads to it, given the phase that
/// `answer` belongs to. In `Start` no request is open and the answer is not
/// looked at.
pub open spec fn mount_step(
    partition: Seq<char>,
    lowerdirs: Seq<Seq<char>>,
    phase: MountPhase,
    answer: bool,
) -> (MountPhase, MountActionView) {
    let target = spec_partition_target(partition);
    let finish = |result: Result<(), MountError>|
        (MountPhase::Finished { result }, MountActionView::Finish { result });
    match phase {
        MountPhase::Start => if lowerdirs.len() == 0 {
            finish(Ok(()))
        } else {
            (MountPhase::ProbingTarget, MountActionView::ProbeSymlink { path: target })
        },
        MountPhase::ProbingTarget => if answer {
            finish(Ok(()))
        } else {
            (
                MountPhase::CapturingStock,
                MountActionView::CaptureStock { path: spec_stock_mount_root(partition) },
            )
        },
        MountPhase::CapturingStock => if answer {
            (
                MountPhase::MountingOverlay,
                MountActionView::MountOverlay {
                    lowerdir: spec_overlay_lowerdir(lowerdirs, target),
                    target,
                },
            )
        } else {
            finish(Err(MountError::StockCapture))
        },
        MountPhase::MountingOverlay => (
            MountPhase::RestoringStock { overlay_ok: answer },
            MountActionView::RestoreStock,
        ),
        MountPhase::RestoringStock { overlay_ok } => if overlay_ok && !answer {
            (MountPhase::UnwindingOverlay, MountActionView::Unmount { target })
        } else if overlay_ok {
            finish(Ok(()))
        } else {
            finish(Err(MountError::Overlay))
        },
        MountPhase::UnwindingOverlay => finish(Ok(())),
        MountPhase::Finished { result } => finish(result),
    }
}

/// Takes the mount of `partition` one step further.
///
/// `phase` is the phase that the last call returned (`Start` for the first
/// call) and `answer` the operating system's answer to the request that the
/// last call returned. The caller performs the returned request and calls
/// again, until the request is `Finish`.
pub fn mount_partition(
    partition: &str,
    lowerdir: &Vec<String>,
    phase: MountPhase,
    answer: bool,
) -> (next: (MountPhase, MountAction))
    ensures
        (next.0, next.1@) == mount_step(partition@, views(lowerdir@), phase, answer),
{
    match phase {
        MountPhase::Start => {
            if lowerdir.len() == 0 {
                finished(Ok(()))
            } else {
                (MountPhase::ProbingTarget, MountAction::ProbeSymlink { path: partition_target(partition) })
            }
        },
        MountPhase::ProbingTarget => {
            if answer {
                finished(Ok(()))
            } else {
                (
                    MountPhase::CapturingStock,
                    MountAction::CaptureStock { path: stock_mount_root(partition) },
                )
            }
        },
        MountPhase::CapturingStock => {
            if answer {
                let target = partition_target(partition);
                let joined = overlay_lowerdir(lowerdir, target.as_str());
                (MountPhase::MountingOverlay, MountAction::MountOverlay { lowerdir: joined, target })
            } else {
                finished(Err(MountError::StockCapture))
            }
        },
        MountPhase::MountingOverlay => (
            MountPhase::RestoringStock { overlay_ok: answer },
            MountAction::RestoreStock,
        ),
        MountPhase::RestoringStock { overlay_ok } => {
            if overlay_ok && !answer {
                (MountPhase::UnwindingOverlay, MountAction::Unmount { target: partition_target(partition) })
            } else if overlay_ok {
                finished(Ok(()))
            } else {
                finished(Err(MountError::Overlay))
            }
        },
        MountPhase::UnwindingOverlay => finished(Ok(())),
        MountPhase::Finished { result } => finished(result),
    }
}

fn finished(result: Result<(), MountError>) -> (next: (MountPhase, MountAction))
    ensures
        next.0 == (MountPhase::Finished { result }),
        next.1@ == (MountActionView::Finish { result }),
{
    (MountPhase::Finished { result }, MountAction::Finish { result })
}

/// How the operating system answers during one mount.
pub struct MountAnswers {
    pub target_is_symlink: bool,
    pub capture_ok: bool,
    pub overlay_ok: bool,
    pub restore_ok: bool,
    pub unwind_ok: bool,
}

impl MountAnswers {
    /// The answer to the request that opens `phase`.
    pub open spec fn to(self, phase: MountPhase) -> bool {
        match phase {
            MountPhase::ProbingTarget => self.target_is_symlink,
            MountPhase::CapturingStock => self.capture_ok,
            MountPhase::MountingOverlay => self.overlay_ok,
            MountPhase::RestoringStock { .. } => self.restore_ok,
            MountPhase::UnwindingOverlay => self.unwind_ok,
            _ => true,
        }
    }
}

/// How many calls a mount in `phase` still takes at most, the one that
/// returns `Finish` included.
pub open spec fn steps_left(phase: MountPhase) -> nat {
    match phase {
        MountPhase::Start => 6,
        MountPhase::ProbingTarget => 5,
        MountPhase::CapturingStock => 4,
        MountPhase::MountingOverlay => 3,
        MountPhase::RestoringStock { .. } => 2,
        MountPhase::UnwindingOverlay => 1,
        MountPhase::Finished { .. } => 0,
    }
}

/// Everything that [`mount_partition`] returns from `phase` on when each
/// request is answered as `answers` says: the requests in order, closed by
/// `Finish`.
pub open spec fn mount_run_from(
    partition: Seq<char>,
    lowerdirs: Seq<Seq<char>>,
    answers: MountAnswers,
    phase: MountPhase,
) -> Seq<MountActionView>
    decreases steps_left(phase),
{
    let (next, action) = mount_step(partition, lowerdirs, phase, answers.to(phase));
    if next is Finished {
        seq![action]
    } else {
        seq![action] + mount_run_from(partition, lowerdirs, answers, next)
    }
}

/// The whole mount of `partition`, from the first call on.
pub open spec fn mount_run(
    partition: Seq<char>,
    lowerdirs: Seq<Seq<char>>,
    answers: MountAnswers,
) -> Seq<MountActionView> {
    mount_run_from(partition, lowerdirs, answers, MountPhase::Start)
}

/// The result that a run ends with.
pub open spec fn mount_result(run: Seq<MountActionView>) -> Result<(), MountError> {
    match run.last() {
        MountActionView::Finish { result } => result,
        _ => Ok(()),
    }
}

/// What is mounted at a partition's mount point.
pub struct TargetMounts {
    /// Whether the overlay is mounted there.
    pub overlay: bool,
    /// Whether the stock mounts below the mount point are in place.
    pub stock: bool,
}

impl TargetMounts {
    /// The mounts after `action`, which was answered with `ok`. A request
    /// that failed leaves them as they were. The overlay hides the stock
    /// mounts; restoring puts them on top of whatever is mounted, and
    /// unmounting the overlay uncovers them.
    pub open spec fn after(self, action: MountActionView, ok: bool) -> TargetMounts {
        if !ok {
            self
        } else {
            match action {
                MountActionView::MountOverlay { .. } => TargetMounts { overlay: true, stock: false },
                MountActionView::RestoreStock => TargetMounts { stock: true, ..self },
                MountActionView::Unmount { .. } => TargetMounts { overlay: false, stock: true },
                _ => self,
            }
        }
    }
}

/// The mounts at the mount point after the requests made from `phase` on,
/// where they are `mounts` in `phase`.
pub open spec fn mounts_after(
    partition: Seq<char>,
    lowerdirs: Seq<Seq<char>>,
    answers: MountAnswers,
    phase: MountPhase,
    mounts: TargetMounts,
) -> TargetMounts
    decreases steps_left(phase),
{
    let (next, action) = mount_step(partition, lowerdirs, phase, answers.to(phase));
    if next is Finished {
        mounts
    } else {
        mounts_after(partition, lowerdirs, answers, next, mounts.after(action, answers.to(next)))
    }
}

/// Where no module contributes to a partition, nothing is asked of the
/// operating system and the mount succeeds at once.
pub proof fn lemma_empty_lowerdirs_mount_nothing(
    partition: Seq<char>,
    lowerdirs: Seq<Seq<char>>,
    answers: MountAnswers,
    before: TargetMounts,
)
    requires
        lowerdirs.len() == 0,
    ensures
        mount_run(partition, lowerdirs, answers) == seq![
            MountActionView::Finish { result: Ok(()) },
        ],
        mounts_after(partition, lowerdirs, answers, MountPhase::Start, before) == before,
{
}

/// Where the mount point is a symbolic link, the link is probed and the
/// mount succeeds with no mount, capture or unmount asked for, whatever the
/// lower directories are.
pub proof fn lemma_symlink_target_mounts_nothing(
    partition: Seq<char>,
    lowerdirs: Seq<Seq<char>>,
    answers: MountAnswers,
    before: TargetMounts,
)
    requires
        lowerdirs.len() > 0,
        answers.target_is_symlink,
    ensures
        mount_run(partition, lowerdirs, answers) == seq![
            MountActionView::ProbeSymlink { path: spec_partition_target(partition) },
            MountActionView::Finish { result: Ok(()) },
        ],
        mounts_after(partition, lowerdirs, answers, MountPhase::Start, before) == before,
{
    reveal_with_fuel(mount_run_from, 3);
    reveal_with_fuel(mounts_after, 3);
}

/// Where the stock mounts cannot be captured, no overlay is mounted and the
/// mount fails with `StockCapture`.
pub proof fn lemma_capture_failure_mounts_nothing(
    partition: Seq<char>,
    lowerdirs: Seq<Seq<char>>,
    answers: MountAnswers,
)
    requires
        lowerdirs.len() > 0,
        !answers.target_is_symlink,
        !answers.capture_ok,
    ensures
        mount_run(partition, lowerdirs, answers) == seq![
            MountActionView::ProbeSymlink { path: spec_partition_target(partition) },
            MountActionView::CaptureStock { path: spec_stock_mount_root(partition) },
            MountActionView::Finish { result: Err(MountError::StockCapture) },
        ],
{
    reveal_with_fuel(mount_run_from, 4);
}

/// Where the overlay is attempted, it is attempted once, onto the
/// partition's mount point, with the contributed directories first and the
/// mount point itself as the last lower directory; the stock mounts are put
/// back next whether or not the overlay mount succeeded; and the result is
/// that of the overlay mount alone.
pub proof fn lemma_attempted_mount(
    partition: Seq<char>,
    lowerdirs: Seq<Seq<char>>,
    answers: MountAnswers,
)
    requires
        lowerdirs.len() > 0,
        !answers.target_is_symlink,
        answers.capture_ok,
    ensures
        ({
            let run = mount_run(partition, lowerdirs, answers);
            let target = spec_partition_target(partition);
            &&& run.len() == if answers.overlay_ok && !answers.restore_ok { 6int } else { 5int }
            &&& run[0] == (MountActionView::ProbeSymlink { path: target })
            &&& run[1] == (MountActionView::CaptureStock { path: spec_stock_mount_root(partition) })
            &&& run[2] == (MountActionView::MountOverlay {
                lowerdir: spec_join(lowerdirs) + seq![':'] + target,
                target,
            })
            &&& run[3] == MountActionView::RestoreStock
            &&& mount_result(run) == if answers.overlay_ok {
                Ok::<(), MountError>(())
            } else {
                Err(MountError::Overlay)
            }
        }),
{
    reveal_with_fuel(mount_run_from, 7);
    lemma_base_is_last(lowerdirs, spec_partition_target(partition));
}

/// Where the overlay mount succeeds and the stock mounts do not come back,
/// the overlay is unmounted again, as the last request, and the mount still
/// counts as a success whether or not that unmount worked. In every other
/// run nothing is unmounted.
pub proof fn lemma_unwound_when_restore_fails(
    partition: Seq<char>,
    lowerdirs: Seq<Seq<char>>,
    answers: MountAnswers,
)
    ensures
        ({
            let run = mount_run(partition, lowerdirs, answers);
            let unwound = lowerdirs.len() > 0 && !answers.target_is_symlink && answers.capture_ok
                && answers.overlay_ok && !answers.restore_ok;
            &&& unwound ==> run.len() == 6 && run[4] == (MountActionView::Unmount {
                target: spec_partition_target(partition),
            }) && mount_result(run) == Ok::<(), MountError>(())
            &&& !unwound ==> forall|i: int| 0 <= i < run.len() ==> !(#[trigger] run[i] is Unmount)
        }),
{
    reveal_with_fuel(mount_run_from, 7);
}

/// What a mount leaves behind at a mount point that had its stock mounts
/// in place and no overlay. The overlay stays mounted only together with the
/// stock mounts, or where the unmount that should have removed it failed.
/// Where the overlay was mounted, the stock mounts did not come back and the
/// unmount worked, the mount point is as it was before. In every other run
/// the stock mounts are in place at the end.
pub proof fn lemma_stock_mounts_survive(
    partition: Seq<char>,
    lowerdirs: Seq<Seq<char>>,
    answers: MountAnswers,
)
    ensures
        ({
            let before = TargetMounts { overlay: false, stock: true };
            let after = mounts_after(partition, lowerdirs, answers, MountPhase::Start, before);
            let attempted = lowerdirs.len() > 0 && !answers.target_is_symlink && answers.capture_ok;
            let stuck = attempted && answers.overlay_ok && !answers.restore_ok && !answers.unwind_ok;
            &&& after.overlay <==> attempted && answers.overlay_ok && (answers.restore_ok
                || !answers.unwind_ok)
            &&& after.stock <==> !stuck
            &&& attempted && answers.overlay_ok && !answers.restore_ok && answers.unwind_ok
                ==> after == before
        }),
{
    reveal_with_fuel(mounts_after, 7);
}

/// Every step brings the end nearer, so a mount is over after six calls at
/// most; and a mount that is over stays over, with its result.
pub proof fn lemma_mount_ends(
    partition: Seq<char>,
    lowerdirs: Seq<Seq<char>>,
    phase: MountPhase,
    answer: bool,
)
    ensures
        ({
            let (next, action) = mount_step(partition, lowerdirs, phase, answer);
            &&& !(phase is Finished) ==> steps_left(next) < steps_left(phase)
            &&& phase is Finished ==> next == phase
            &&& next is Finished <==> action is Finish
        }),
{
}

} // verus!
