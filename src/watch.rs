use vstd::prelude::*;

verus! {

/// The life of the directory watcher.
#[derive(Debug, Clone, Copy, PartialEq, Eq, Structural)]
pub enum WatchPhase {
    Uninitialized,
    Watching,
    Failed,
    Terminated,
}

/// What the watcher's runner observed.
#[derive(Debug, Clone, Copy, PartialEq, Eq, Structural)]
pub enum WatchInput {
    /// The directory exists and the notification mechanism watches it.
    SetupDone,
    /// The directory could not be found or created, or watching it failed.
    SetupFailed,
    /// A batch of changed paths arrived.
    Batch,
    /// The notification mechanism reported an error.
    StreamError,
    /// The notification stream ended.
    StreamClosed,
}

/// What the runner does next.
#[derive(Debug, Clone, Copy, PartialEq, Eq, Structural)]
pub enum WatchAction {
    /// Start waiting for notification batches.
    Listen,
    /// Report the setup failure and stop for good.
    ReportFailure,
    /// Turn the batch into events and publish them.
    Publish,
    /// Log the error and keep waiting.
    LogAndContinue,
    /// Stop: the stream is over.
    Stop,
    /// Nothing to do in this phase.
    Ignore,
}

/// The transition of the watcher: setup leads to watching or, without retry,
/// to failure; while watching, batches are published and errors logged, and
/// only the end of the stream leaves the phase; failure and termination are
/// final.
pub open spec fn watch_step_spec(phase: WatchPhase, input: WatchInput) -> (WatchPhase, WatchAction) {
    match (phase, input) {
        (WatchPhase::Uninitialized, WatchInput::SetupDone) => (WatchPhase::Watching, WatchAction::Listen),
        (WatchPhase::Uninitialized, WatchInput::SetupFailed) => (WatchPhase::Failed, WatchAction::ReportFailure),
        (WatchPhase::Watching, WatchInput::Batch) => (WatchPhase::Watching, WatchAction::Publish),
        (WatchPhase::Watching, WatchInput::StreamError) => (WatchPhase::Watching, WatchAction::LogAndContinue),
        (WatchPhase::Watching, WatchInput::StreamClosed) => (WatchPhase::Terminated, WatchAction::Stop),
        _ => (phase, WatchAction::Ignore),
    }
}

/// Decides the watcher's next phase and action.
pub fn watch_step(phase: WatchPhase, input: WatchInput) -> (r: (WatchPhase, WatchAction))
    ensures
        r == watch_step_spec(phase, input),
{
    match (phase, input) {
        (WatchPhase::Uninitialized, WatchInput::SetupDone) => (WatchPhase::Watching, WatchAction::Listen),
        (WatchPhase::Uninitialized, WatchInput::SetupFailed) => (WatchPhase::Failed, WatchAction::ReportFailure),
        (WatchPhase::Watching, WatchInput::Batch) => (WatchPhase::Watching, WatchAction::Publish),
        (WatchPhase::Watching, WatchInput::StreamError) => (WatchPhase::Watching, WatchAction::LogAndContinue),
        (WatchPhase::Watching, WatchInput::StreamClosed) => (WatchPhase::Terminated, WatchAction::Stop),
        _ => (phase, WatchAction::Ignore),
    }
}

/// The phase reached after a run of inputs from `phase`.
pub open spec fn run_phase(phase: WatchPhase, inputs: Seq<WatchInput>) -> WatchPhase
    decreases inputs.len(),
{
    if inputs.len() == 0 {
        phase
    } else {
        watch_step_spec(run_phase(phase, inputs.drop_last()), inputs.last()).0
    }
}

/// Failure and termination are final, and a watcher that is watching keeps
/// watching through any run of batches and errors.
pub proof fn lemma_watch_phases(phase: WatchPhase, inputs: Seq<WatchInput>)
    ensures
        (phase == WatchPhase::Failed || phase == WatchPhase::Terminated) ==> run_phase(phase, inputs) == phase,
        (phase == WatchPhase::Watching && forall|i: int| 0 <= i < inputs.len() ==> inputs[i] != WatchInput::StreamClosed)
            ==> run_phase(phase, inputs) == WatchPhase::Watching,
    decreases inputs.len(),
{
    if inputs.len() > 0 {
        lemma_watch_phases(phase, inputs.drop_last());
        if phase == WatchPhase::Watching && forall|i: int| 0 <= i < inputs.len() ==> inputs[i] != WatchInput::StreamClosed {
            assert(inputs.last() == inputs[inputs.len() - 1]);
            assert(forall|i: int| 0 <= i < inputs.drop_last().len() ==> inputs.drop_last()[i] == inputs[i]);
        }
    }
}

} // verus!
