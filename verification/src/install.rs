//! Installing the daemon, and the daemon's own entry point.

use vstd::prelude::*;
use crate::boot::{BootAction, BootError, StateFile};

verus! {

/// Where the installation stands: the request whose answer is awaited.
#[derive(Clone, Copy, Debug, PartialEq, Eq)]
pub enum InstallState {
    /// Nothing was asked yet.
    Start,
    EnsuringWorkingDir,
    CopyingDaemon,
    ExtractingBinaries,
    /// Asked whether the daemon's executable exists.
    ProbingDaemon,
    /// Asked whether the link to it exists.
    ProbingLink,
    Linking,
    /// Over, with this result.
    Finished { result: Result<(), BootError> },
}

/// The end of the installation with `result`.
pub open spec fn install_end(result: Result<(), BootError>) -> (InstallState, BootAction) {
    (InstallState::Finished { result }, BootAction::Finish { result })
}

/// The next state and the request that leads to it, given the state that
/// `answer` belongs to. `link` says whether the daemon is to be linked into
/// the binary search path, which is the case on Android only; the link is
/// made where the executable exists and the link does not.
pub open spec fn install_step(state: InstallState, answer: bool, link: bool) -> (
    InstallState,
    BootAction,
) {
    match state {
        InstallState::Start => (InstallState::EnsuringWorkingDir, BootAction::EnsureWorkingDir),
        InstallState::EnsuringWorkingDir => if answer {
            (InstallState::CopyingDaemon, BootAction::CopySelfToDaemon)
        } else {
            install_end(Err(BootError::EnsureWorkingDir))
        },
        InstallState::CopyingDaemon => if answer {
            (InstallState::ExtractingBinaries, BootAction::ExtractBinaries)
        } else {
            install_end(Err(BootError::CopyDaemon))
        },
        InstallState::ExtractingBinaries => if !answer {
            install_end(Err(BootError::ExtractBinaries))
        } else if link {
            (InstallState::ProbingDaemon, BootAction::ProbeFile { file: StateFile::DaemonBinary })
        } else {
            install_end(Ok(()))
        },
        InstallState::ProbingDaemon => if answer {
            (InstallState::ProbingLink, BootAction::ProbeFile { file: StateFile::DaemonLink })
        } else {
            install_end(Ok(()))
        },
        InstallState::ProbingLink => if answer {
            install_end(Ok(()))
        } else {
            (InstallState::Linking, BootAction::LinkDaemon)
        },
        InstallState::Linking => if answer {
            install_end(Ok(()))
        } else {
            install_end(Err(BootError::LinkDaemon))
        },
        InstallState::Finished { result } => install_end(result),
    }
}

fn end(result: Result<(), BootError>) -> (next: (InstallState, BootAction))
    ensures
        next == install_end(result),
{
    (InstallState::Finished { result }, BootAction::Finish { result })
}

/// Takes the installation one step further.
///
/// `state` is the state that the last call returned (`Start` for the first
/// call) and `answer` the answer to the request that the last call returned.
/// The caller performs the returned request and calls again, until the
/// request is `Finish`.
pub fn install(state: InstallState, answer: bool, link: bool) -> (next: (InstallState, BootAction))
    ensures
        next == install_step(state, answer, link),
{
    match state {
        InstallState::Start => (InstallState::EnsuringWorkingDir, BootAction::EnsureWorkingDir),
        InstallState::EnsuringWorkingDir => {
            if answer {
                (InstallState::CopyingDaemon, BootAction::CopySelfToDaemon)
            } else {
                end(Err(BootError::EnsureWorkingDir))
            }
        },
        InstallState::CopyingDaemon => {
            if answer {
                (InstallState::ExtractingBinaries, BootAction::ExtractBinaries)
            } else {
                end(Err(BootError::CopyDaemon))
            }
        },
        InstallState::ExtractingBinaries => {
            if !answer {
                end(Err(BootError::ExtractBinaries))
            } else if link {
                (
                    InstallState::ProbingDaemon,
                    BootAction::ProbeFile { file: StateFile::DaemonBinary },
                )
            } else {
                end(Ok(()))
            }
        },
        InstallState::ProbingDaemon => {
            if answer {
                (InstallState::ProbingLink, BootAction::ProbeFile { file: StateFile::DaemonLink })
            } else {
                end(Ok(()))
            }
        },
        InstallState::ProbingLink => {
            if answer {
                end(Ok(()))
            } else {
                (InstallState::Linking, BootAction::LinkDaemon)
            }
        },
        InstallState::Linking => {
            if answer {
                end(Ok(()))
            } else {
                end(Err(BootError::LinkDaemon))
            }
        },
        InstallState::Finished { result } => end(result),
    }
}

/// How many calls the installation still takes at most from `state`, the one that
/// returns `Finish` included.
pub open spec fn install_steps_left(state: InstallState) -> nat {
    match state {
        InstallState::Start => 7,
        InstallState::EnsuringWorkingDir => 6,
        InstallState::CopyingDaemon => 5,
        InstallState::ExtractingBinaries => 4,
        InstallState::ProbingDaemon => 3,
        InstallState::ProbingLink => 2,
        InstallState::Linking => 1,
        InstallState::Finished { .. } => 0,
    }
}

/// Everything that [`install`] returns from `state` on when the request that
/// opens a state is answered as `answers` says of that state.
pub open spec fn install_run_from(
    answers: spec_fn(InstallState) -> bool,
    state: InstallState,
    link: bool,
) -> Seq<BootAction>
    decreases install_steps_left(state),
{
    let (next, action) = install_step(state, answers(state), link);
    if next is Finished {
        seq![action]
    } else {
        seq![action] + install_run_from(answers, next, link)
    }
}

/// The whole installation, from the first call on.
pub open spec fn install_run(answers: spec_fn(InstallState) -> bool, link: bool) -> Seq<BootAction> {
    install_run_from(answers, InstallState::Start, link)
}

/// Whether the three steps that every installation takes all succeed.
pub open spec fn installs_files(answers: spec_fn(InstallState) -> bool) -> bool {
    &&& answers(InstallState::EnsuringWorkingDir)
    &&& answers(InstallState::CopyingDaemon)
    &&& answers(InstallState::ExtractingBinaries)
}

/// The link is made in one case only: it is asked for, the three steps
/// before it succeeded, the executable exists and the link does not. An
/// existing link is never replaced, and where no link is made the
/// installation succeeds as soon as its three steps have.
pub proof fn lemma_link_made_once(answers: spec_fn(InstallState) -> bool, link: bool)
    ensures
        ({
            let run = install_run(answers, link);
            let links = link && installs_files(answers) && answers(InstallState::ProbingDaemon)
                && !answers(InstallState::ProbingLink);
            &&& links ==> run.len() == 7 && run[5] == BootAction::LinkDaemon && crate::boot::boot_result(run)
                == if answers(InstallState::Linking) {
                Ok::<(), BootError>(())
            } else {
                Err(BootError::LinkDaemon)
            }
            &&& !links ==> forall|i: int| 0 <= i < run.len() ==> !(#[trigger] run[i] is LinkDaemon)
            &&& !links && installs_files(answers) ==> crate::boot::boot_result(run) == Ok::<
                (),
                BootError,
            >(())
        }),
{
    reveal_with_fuel(install_run_from, 8);
}

/// The three steps come in order, and the first that fails ends the
/// installation with its error.
pub proof fn lemma_install_steps(answers: spec_fn(InstallState) -> bool, link: bool)
    ensures
        ({
            let run = install_run(answers, link);
            &&& run[0] == BootAction::EnsureWorkingDir
            &&& !answers(InstallState::EnsuringWorkingDir) ==> run == seq![
                BootAction::EnsureWorkingDir,
                BootAction::Finish { result: Err(BootError::EnsureWorkingDir) },
            ]
            &&& answers(InstallState::EnsuringWorkingDir) && !answers(InstallState::CopyingDaemon)
                ==> run == seq![
                BootAction::EnsureWorkingDir,
                BootAction::CopySelfToDaemon,
                BootAction::Finish { result: Err(BootError::CopyDaemon) },
            ]
            &&& answers(InstallState::EnsuringWorkingDir) && answers(InstallState::CopyingDaemon)
                && !answers(InstallState::ExtractingBinaries) ==> run == seq![
                BootAction::EnsureWorkingDir,
                BootAction::CopySelfToDaemon,
                BootAction::ExtractBinaries,
                BootAction::Finish { result: Err(BootError::ExtractBinaries) },
            ]
        }),
{
    reveal_with_fuel(install_run_from, 5);
    let run = install_run(answers, link);
    if !answers(InstallState::EnsuringWorkingDir) {
        assert(run =~= seq![
            BootAction::EnsureWorkingDir,
            BootAction::Finish { result: Err(BootError::EnsureWorkingDir) },
        ]);
    } else if !answers(InstallState::CopyingDaemon) {
        assert(run =~= seq![
            BootAction::EnsureWorkingDir,
            BootAction::CopySelfToDaemon,
            BootAction::Finish { result: Err(BootError::CopyDaemon) },
        ]);
    } else if !answers(InstallState::ExtractingBinaries) {
        assert(run =~= seq![
            BootAction::EnsureWorkingDir,
            BootAction::CopySelfToDaemon,
            BootAction::ExtractBinaries,
            BootAction::Finish { result: Err(BootError::ExtractBinaries) },
        ]);
    }
}

/// The daemon's entry point. It does nothing yet, and succeeds.
pub fn daemon() -> (result: Result<(), BootError>)
    ensures
        result == Ok::<(), BootError>(()),
{
    Ok(())
}

/// Every step brings the end nearer, and an installation that is over stays
/// over, with its result.
pub proof fn lemma_install_ends(state: InstallState, answer: bool, link: bool)
    ensures
        ({
            let (next, action) = install_step(state, answer, link);
            &&& !(state is Finished) ==> install_steps_left(next) < install_steps_left(state)
            &&& state is Finished ==> next == state
            &&& next is Finished <==> action is Finish
        }),
{
}

} // verus!
