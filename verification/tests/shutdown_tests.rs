use persia_core::shutdown::{
    shutdown_result, shutdown_step, ShutdownAction, ShutdownEvent, ShutdownState,
};
use persia_core::PersiaError;

#[test]
fn successful_finalize_starts_the_broadcast() {
    let (state, action) = shutdown_step(
        ShutdownState::FinalizePending,
        ShutdownEvent::FinalizeResponse(Ok(Ok(()))),
    );
    assert_eq!(state, ShutdownState::BroadcastPending);
    assert_eq!(action, ShutdownAction::SendBroadcast);
}

#[test]
fn transport_failure_in_phase_one_precludes_the_broadcast() {
    let (state, action) = shutdown_step(
        ShutdownState::FinalizePending,
        ShutdownEvent::FinalizeResponse(Err(String::from("connection reset"))),
    );
    assert_eq!(state, ShutdownState::Failed(String::from("connection reset")));
    assert_eq!(action, ShutdownAction::NoAction);
    let (state, action) = shutdown_step(
        state,
        ShutdownEvent::BroadcastResponse(vec![Ok(Ok(())), Ok(Ok(()))]),
    );
    assert_eq!(state, ShutdownState::Failed(String::from("connection reset")));
    assert_ne!(action, ShutdownAction::SendBroadcast);
}

#[test]
fn application_failure_in_phase_one_precludes_the_broadcast() {
    let (state, action) = shutdown_step(
        ShutdownState::FinalizePending,
        ShutdownEvent::FinalizeResponse(Ok(Err(String::from("not leader")))),
    );
    assert_eq!(state, ShutdownState::Failed(String::from("not leader")));
    assert_eq!(action, ShutdownAction::NoAction);
}

#[test]
fn clean_broadcast_finishes_the_sequence() {
    let (state, action) = shutdown_step(
        ShutdownState::BroadcastPending,
        ShutdownEvent::BroadcastResponse(vec![Ok(Ok(())), Ok(Ok(())), Ok(Ok(()))]),
    );
    assert_eq!(state, ShutdownState::Done);
    assert_eq!(action, ShutdownAction::NoAction);
    assert_eq!(shutdown_result(state), Ok(()));
}

#[test]
fn broadcast_failure_keeps_the_originating_message() {
    let (state, _) = shutdown_step(
        ShutdownState::BroadcastPending,
        ShutdownEvent::BroadcastResponse(vec![
            Ok(Ok(())),
            Err(String::from("gone")),
            Ok(Ok(())),
        ]),
    );
    assert_eq!(state, ShutdownState::Failed(String::from("gone")));
    assert_eq!(
        shutdown_result(state),
        Err(PersiaError::ShutdownError(String::from("gone")))
    );
}

#[test]
fn broadcast_application_failure_keeps_the_shard_message() {
    let (state, _) = shutdown_step(
        ShutdownState::BroadcastPending,
        ShutdownEvent::BroadcastResponse(vec![
            Ok(Ok(())),
            Ok(Err(String::from("refused"))),
        ]),
    );
    assert_eq!(state, ShutdownState::Failed(String::from("refused")));
}

#[test]
fn broadcast_reports_transport_failures_first() {
    let (state, _) = shutdown_step(
        ShutdownState::BroadcastPending,
        ShutdownEvent::BroadcastResponse(vec![
            Ok(Err(String::from("app0"))),
            Err(String::from("t1")),
        ]),
    );
    assert_eq!(state, ShutdownState::Failed(String::from("t1")));
}

#[test]
fn terminal_states_absorb_events() {
    let (state, action) = shutdown_step(
        ShutdownState::Done,
        ShutdownEvent::FinalizeResponse(Ok(Ok(()))),
    );
    assert_eq!(state, ShutdownState::Done);
    assert_eq!(action, ShutdownAction::NoAction);
}
