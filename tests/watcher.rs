use session_watch::{watch_step, WatchAction, WatchInput, WatchPhase};

#[test]
fn setup_leads_to_watching_or_failure() {
    assert_eq!(watch_step(WatchPhase::Uninitialized, WatchInput::SetupDone), (WatchPhase::Watching, WatchAction::Listen));
    assert_eq!(
        watch_step(WatchPhase::Uninitialized, WatchInput::SetupFailed),
        (WatchPhase::Failed, WatchAction::ReportFailure)
    );
}

#[test]
fn watching_survives_errors_and_publishes_batches() {
    assert_eq!(watch_step(WatchPhase::Watching, WatchInput::Batch), (WatchPhase::Watching, WatchAction::Publish));
    assert_eq!(
        watch_step(WatchPhase::Watching, WatchInput::StreamError),
        (WatchPhase::Watching, WatchAction::LogAndContinue)
    );
    assert_eq!(watch_step(WatchPhase::Watching, WatchInput::StreamClosed), (WatchPhase::Terminated, WatchAction::Stop));
}

#[test]
fn final_phases_stay_final() {
    for input in [WatchInput::SetupDone, WatchInput::SetupFailed, WatchInput::Batch, WatchInput::StreamError, WatchInput::StreamClosed] {
        assert_eq!(watch_step(WatchPhase::Failed, input), (WatchPhase::Failed, WatchAction::Ignore));
        assert_eq!(watch_step(WatchPhase::Terminated, input), (WatchPhase::Terminated, WatchAction::Ignore));
    }
}
