use steamworks::lifecycle::{
    claim_for_init, on_handle_dropped, settle_init, teardown_check, worker_after_drain,
    LifecycleState, TeardownDecision, WorkerDecision,
};
use steamworks::InitError;

#[test]
fn first_init_succeeds_second_is_refused() {
    let mut state = LifecycleState::Stopped;
    let claimed = claim_for_init(state).unwrap();
    assert_eq!(claimed, LifecycleState::Running);
    state = claimed;
    let (settled, outcome) = settle_init(true);
    assert_eq!(outcome, Ok(()));
    state = settled;
    assert_eq!(state, LifecycleState::Running);

    assert_eq!(claim_for_init(state), Err(InitError::AlreadyInitialized));
    assert_eq!(state, LifecycleState::Running);
}

#[test]
fn init_refused_in_every_state_but_stopped() {
    for s in [
        LifecycleState::Running,
        LifecycleState::ShutdownStage1,
        LifecycleState::ShutdownStage2,
    ] {
        assert_eq!(claim_for_init(s), Err(InitError::AlreadyInitialized));
    }
}

#[test]
fn failed_native_init_returns_to_stopped() {
    assert_eq!(
        settle_init(false),
        (LifecycleState::Stopped, Err(InitError::Other))
    );
    assert_eq!(
        claim_for_init(LifecycleState::Stopped),
        Ok(LifecycleState::Running)
    );
}

#[test]
fn shutdown_handshake_in_order() {
    let mut state = LifecycleState::Running;
    // The worker keeps polling while running.
    assert_eq!(worker_after_drain(state), WorkerDecision::Continue);
    // The teardown thread may not shut down before the worker acknowledges.
    state = on_handle_dropped();
    assert_eq!(state, LifecycleState::ShutdownStage1);
    assert_eq!(teardown_check(state), TeardownDecision::Wait);
    // The worker sees the request and acknowledges.
    assert_eq!(worker_after_drain(state), WorkerDecision::Exit);
    state = LifecycleState::ShutdownStage2;
    assert_eq!(teardown_check(state), TeardownDecision::ShutdownNative);
    assert_eq!(teardown_check(LifecycleState::Running), TeardownDecision::Wait);
    assert_eq!(
        worker_after_drain(LifecycleState::ShutdownStage2),
        WorkerDecision::Continue
    );
}
