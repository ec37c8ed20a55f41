//! The phase that runs when the services start: the modules' service
//! scripts.

use vstd::prelude::*;
use crate::boot::{BootAction, BootError, HookStage};

verus! {

/// Where the phase stands: the request whose answer is awaited.
#[derive(Clone, Copy, Debug, PartialEq, Eq)]
pub enum ServicesState {
    /// Nothing was asked yet.
    Start,
    ResettingUmask,
    ProbingFramework,
    ProbingSafeMode,
    RunningCommonScripts,
    RunningModuleScripts,
    /// Over, with this result.
    Finished { result: Result<(), BootError> },
}

/// The end of the phase with `result`.
pub open spec fn services_end(result: Result<(), BootError>) -> (ServicesState, BootAction) {
    (ServicesState::Finished { result }, BootAction::Finish { result })
}

/// The next state and the request that leads to it, given the state that
/// `answer` belongs to. Only the two probes decide anything: a script that
/// fails holds up nothing.
pub open spec fn services_step(state: ServicesState, answer: bool) -> (ServicesState, BootAction) {
    match state {
        ServicesState::Start => (ServicesState::ResettingUmask, BootAction::ResetUmask),
        ServicesState::ResettingUmask => (
            ServicesState::ProbingFramework,
            BootAction::ProbeAlternateFramework,
        ),
        ServicesState::ProbingFramework => if answer {
            services_end(Ok(()))
        } else {
            (ServicesState::ProbingSafeMode, BootAction::ProbeSafeMode)
        },
        ServicesState::ProbingSafeMode => if answer {
            services_end(Ok(()))
        } else {
            (
                ServicesState::RunningCommonScripts,
                BootAction::RunCommonScripts { stage: HookStage::Service, wait: false },
            )
        },
        ServicesState::RunningCommonScripts => (
            ServicesState::RunningModuleScripts,
            BootAction::RunModuleScripts { stage: HookStage::Service },
        ),
        ServicesState::RunningModuleScripts => services_end(Ok(())),
        ServicesState::Finished { result } => services_end(result),
    }
}

fn end(result: Result<(), BootError>) -> (next: (ServicesState, BootAction))
    ensures
        next == services_end(result),
{
    (ServicesState::Finished { result }, BootAction::Finish { result })
}

/// Takes the phase one step further.
///
/// `state` is the state that the last call returned (`Start` for the first
/// call) and `answer` the answer to the request that the last call returned.
/// The caller performs the returned request and calls again, until the
/// request is `Finish`.
pub fn on_services(state: ServicesState, answer: bool) -> (next: (ServicesState, BootAction))
    ensures
        next == services_step(state, answer),
{
    match state {
        ServicesState::Start => (ServicesState::ResettingUmask, BootAction::ResetUmask),
        ServicesState::ResettingUmask => (
            ServicesState::ProbingFramework,
            BootAction::ProbeAlternateFramework,
        ),
        ServicesState::ProbingFramework => {
            if answer {
                end(Ok(()))
            } else {
                (ServicesState::ProbingSafeMode, BootAction::ProbeSafeMode)
            }
        },
        ServicesState::ProbingSafeMode => {
            if answer {
                end(Ok(()))
            } else {
                (
                    ServicesState::RunningCommonScripts,
                    BootAction::RunCommonScripts { stage: HookStage::Service, wait: false },
                )
            }
        },
        ServicesState::RunningCommonScripts => (
            ServicesState::RunningModuleScripts,
            BootAction::RunModuleScripts { stage: HookStage::Service },
        ),
        ServicesState::RunningModuleScripts => end(Ok(())),
        ServicesState::Finished { result } => end(result),
    }
}

/// How many calls the phase still takes at most from `state`, the one that
/// returns `Finish` included.
pub open spec fn services_steps_left(state: ServicesState) -> nat {
    match state {
        ServicesState::Start => 6,
        ServicesState::ResettingUmask => 5,
        ServicesState::ProbingFramework => 4,
        ServicesState::ProbingSafeMode => 3,
        ServicesState::RunningCommonScripts => 2,
        ServicesState::RunningModuleScripts => 1,
        ServicesState::Finished { .. } => 0,
    }
}

/// Everything that [`on_services`] returns from `state` on when the request
/// that opens a state is answered as `answers` says of that state.
pub open spec fn services_run_from(
    answers: spec_fn(ServicesState) -> bool,
    state: ServicesState,
) -> Seq<BootAction>
    decreases services_steps_left(state),
{
    let (next, action) = services_step(state, answers(state));
    if next is Finished {
        seq![action]
    } else {
        seq![action] + services_run_from(answers, next)
    }
}

/// The whole phase, from the first call on.
pub open spec fn services_run(answers: spec_fn(ServicesState) -> bool) -> Seq<BootAction> {
    services_run_from(answers, ServicesState::Start)
}

/// The phase is one of three runs, and each ends in success: cut short by
/// another framework, cut short by safe mode, or with the common service
/// scripts and then the modules' own, none of them waited for or asked how
/// it went.
pub proof fn lemma_services_runs(answers: spec_fn(ServicesState) -> bool)
    ensures
        services_run(answers) == if answers(ServicesState::ProbingFramework) {
            seq![
                BootAction::ResetUmask,
                BootAction::ProbeAlternateFramework,
                BootAction::Finish { result: Ok(()) },
            ]
        } else if answers(ServicesState::ProbingSafeMode) {
            seq![
                BootAction::ResetUmask,
                BootAction::ProbeAlternateFramework,
                BootAction::ProbeSafeMode,
                BootAction::Finish { result: Ok(()) },
            ]
        } else {
            seq![
                BootAction::ResetUmask,
                BootAction::ProbeAlternateFramework,
                BootAction::ProbeSafeMode,
                BootAction::RunCommonScripts { stage: HookStage::Service, wait: false },
                BootAction::RunModuleScripts { stage: HookStage::Service },
                BootAction::Finish { result: Ok(()) },
            ]
        },
{
    reveal_with_fuel(services_run_from, 7);
    assert(services_run(answers) =~= if answers(ServicesState::ProbingFramework) {
        seq![
            BootAction::ResetUmask,
            BootAction::ProbeAlternateFramework,
            BootAction::Finish { result: Ok(()) },
        ]
    } else if answers(ServicesState::ProbingSafeMode) {
        seq![
            BootAction::ResetUmask,
            BootAction::ProbeAlternateFramework,
            BootAction::ProbeSafeMode,
            BootAction::Finish { result: Ok(()) },
        ]
    } else {
        seq![
            BootAction::ResetUmask,
            BootAction::ProbeAlternateFramework,
            BootAction::ProbeSafeMode,
            BootAction::RunCommonScripts { stage: HookStage::Service, wait: false },
            BootAction::RunModuleScripts { stage: HookStage::Service },
            BootAction::Finish { result: Ok(()) },
        ]
    });
}

/// Every step brings the end nearer, and a phase that is over stays over,
/// with its result.
pub proof fn lemma_services_ends(state: ServicesState, answer: bool)
    ensures
        ({
            let (next, action) = services_step(state, answer);
            &&& !(state is Finished) ==> services_steps_left(next) < services_steps_left(state)
            &&& state is Finished ==> next == state
            &&& next is Finished <==> action is Finish
        }),
{
}

} // verus!
