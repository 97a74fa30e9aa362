//! The lifecycle of the process-wide native session and the two-stage
//! shutdown handshake between the dropped handle and the polling worker.
//!
//! The shared state itself is an atomic cell owned by the caller; the
//! functions here decide, from an observed state, what the next state is and
//! what the observer must do.
use vstd::prelude::*;

verus! {

/// Where the native session stands.
#[derive(Debug, Copy, Clone, PartialEq, Eq, Structural)]
pub enum LifecycleState {
    Stopped,
    Running,
    /// The handle was dropped; the worker has not yet seen it.
    ShutdownStage1,
    /// The worker has seen the stop request and polls no more.
    ShutdownStage2,
}

/// Why initialization failed.
#[derive(Debug, Copy, Clone, PartialEq, Eq, Structural)]
pub enum InitError {
    /// Another session is active.
    AlreadyInitialized,
    /// The native initialization call reported failure.
    Other,
}

/// What the worker does once it has drained the native queue.
#[derive(Debug, Copy, Clone, PartialEq, Eq, Structural)]
pub enum WorkerDecision {
    /// Sleep, then poll again.
    Continue,
    /// Move the state to `ShutdownStage2` and stop polling.
    Exit,
}

/// What the thread tearing the session down does on observing the state.
#[derive(Debug, Copy, Clone, PartialEq, Eq, Structural)]
pub enum TeardownDecision {
    /// The worker has not acknowledged yet: wait and look again.
    Wait,
    /// Make the native shutdown call, then move the state to `Stopped`.
    ShutdownNative,
}

pub open spec fn claim_spec(observed: LifecycleState) -> Result<LifecycleState, InitError> {
    match observed {
        LifecycleState::Stopped => Ok(LifecycleState::Running),
        _ => Err(InitError::AlreadyInitialized),
    }
}

/// The state to install when an initialization finds `observed`, or the error
/// when another session holds the native API.
pub fn claim_for_init(observed: LifecycleState) -> (r: Result<LifecycleState, InitError>)
    ensures
        r == claim_spec(observed),
{
    match observed {
        LifecycleState::Stopped => Ok(LifecycleState::Running),
        _ => Err(InitError::AlreadyInitialized),
    }
}

pub open spec fn settle_spec(native_ok: bool) -> (LifecycleState, Result<(), InitError>) {
    if native_ok {
        (LifecycleState::Running, Ok(()))
    } else {
        (LifecycleState::Stopped, Err(InitError::Other))
    }
}

/// After a successful claim: the state to store and the outcome, given whether
/// the native initialization call succeeded. A failed call returns the state
/// to `Stopped` so that a later attempt may succeed.
pub fn settle_init(native_ok: bool) -> (r: (LifecycleState, Result<(), InitError>))
    ensures
        r == settle_spec(native_ok),
{
    if native_ok {
        (LifecycleState::Running, Ok(()))
    } else {
        (LifecycleState::Stopped, Err(InitError::Other))
    }
}

/// The state stored when the last handle is dropped.
pub fn on_handle_dropped() -> (r: LifecycleState)
    ensures
        r == LifecycleState::ShutdownStage1,
{
    LifecycleState::ShutdownStage1
}

pub open spec fn worker_spec(observed: LifecycleState) -> WorkerDecision {
    if observed == LifecycleState::ShutdownStage1 {
        WorkerDecision::Exit
    } else {
        WorkerDecision::Continue
    }
}

/// The worker's decision at the end of a tick: it leaves exactly when the
/// stop request is pending.
pub fn worker_after_drain(observed: LifecycleState) -> (r: WorkerDecision)
    ensures
        r == worker_spec(observed),
{
    match observed {
        LifecycleState::ShutdownStage1 => WorkerDecision::Exit,
        _ => WorkerDecision::Continue,
    }
}

pub open spec fn teardown_spec(observed: LifecycleState) -> TeardownDecision {
    if observed == LifecycleState::ShutdownStage2 {
        TeardownDecision::ShutdownNative
    } else {
        TeardownDecision::Wait
    }
}

/// The tearing-down thread's decision: the native shutdown call is allowed
/// only once the worker has acknowledged the stop request.
pub fn teardown_check(observed: LifecycleState) -> (r: TeardownDecision)
    ensures
        r == teardown_spec(observed),
{
    match observed {
        LifecycleState::ShutdownStage2 => TeardownDecision::ShutdownNative,
        _ => TeardownDecision::Wait,
    }
}

/// A first initialization succeeds and leaves the session `Running`; a second
/// one while that session is active fails with `AlreadyInitialized` and
/// installs no state, so the running session is left as it is.
pub proof fn lemma_init_exclusive(native_ok: bool)
    ensures
        claim_spec(LifecycleState::Stopped) == Ok::<LifecycleState, InitError>(
            LifecycleState::Running,
        ),
        native_ok ==> settle_spec(native_ok) == (LifecycleState::Running, Ok::<(), InitError>(())),
        claim_spec(LifecycleState::Running) == Err::<LifecycleState, InitError>(
            InitError::AlreadyInitialized,
        ),
        forall|s: LifecycleState|
            s != LifecycleState::Stopped ==> #[trigger] claim_spec(s) == Err::<
                LifecycleState,
                InitError,
            >(InitError::AlreadyInitialized),
{
}

// ---------------------------------------------------------------------------
// A model of one session, as seen by the worker and the tearing-down thread.

/// One session: the shared state, whether the worker still polls, whether the
/// handle is alive and whether the native API is up.
pub struct Session {
    pub state: LifecycleState,
    pub worker_live: bool,
    pub handle_live: bool,
    pub native_up: bool,
}

/// One move of one party.
pub enum SessionStep {
    /// The worker polls and drains the native queue.
    WorkerPoll,
    /// The worker looks at the state at the end of its tick.
    WorkerCheck,
    /// The last handle is dropped.
    DropHandle,
    /// The dropping thread looks at the state.
    TeardownCheck,
}

/// What a move does to the native API or announces.
pub enum Effect {
    /// The worker's poll and drain calls.
    Poll,
    /// The worker acknowledged the stop request.
    Acknowledge,
    /// The native shutdown call.
    NativeShutdown,
}

pub open spec fn session_start() -> Session {
    Session {
        state: LifecycleState::Running,
        worker_live: true,
        handle_live: true,
        native_up: true,
    }
}

/// One move from `s`: the next session and the effects, in order.
pub open spec fn session_step(s: Session, step: SessionStep) -> (Session, Seq<Effect>) {
    match step {
        SessionStep::WorkerPoll => {
            if s.worker_live {
                (s, seq![Effect::Poll])
            } else {
                (s, Seq::empty())
            }
        },
        SessionStep::WorkerCheck => {
            if s.worker_live && worker_spec(s.state) == WorkerDecision::Exit {
                (
                    Session { state: LifecycleState::ShutdownStage2, worker_live: false, ..s },
                    seq![Effect::Acknowledge],
                )
            } else {
                (s, Seq::empty())
            }
        },
        SessionStep::DropHandle => {
            if s.handle_live && s.state == LifecycleState::Running {
                (Session { state: LifecycleState::ShutdownStage1, handle_live: false, ..s }, Seq::empty())
            } else {
                (s, Seq::empty())
            }
        },
        SessionStep::TeardownCheck => {
            if !s.handle_live && s.native_up && teardown_spec(s.state)
                == TeardownDecision::ShutdownNative {
                (
                    Session { state: LifecycleState::Stopped, native_up: false, ..s },
                    seq![Effect::NativeShutdown],
                )
            } else {
                (s, Seq::empty())
            }
        },
    }
}

/// The session and the effects after the moves `steps` from `s`.
pub open spec fn session_run(s: Session, steps: Seq<SessionStep>) -> (Session, Seq<Effect>)
    decreases steps.len(),
{
    if steps.len() == 0 {
        (s, Seq::empty())
    } else {
        let (mid, log) = session_run(s, steps.drop_last());
        let (next, more) = session_step(mid, steps.last());
        (next, log + more)
    }
}

pub open spec fn has_effect(log: Seq<Effect>, e: Effect) -> bool {
    exists|k: int| 0 <= k < log.len() && log[k] == e
}

#[verifier::opaque]
spec fn no_poll_after_shutdown(log: Seq<Effect>) -> bool {
    forall|i: int, j: int|
        0 <= i < j < log.len() && log[i] == Effect::NativeShutdown ==> log[j] != Effect::Poll
}

/// Whether the worker acknowledged before position `i` of the log.
spec fn acked_before(log: Seq<Effect>, i: int) -> bool {
    exists|k: int| 0 <= k < i && #[trigger] log[k] == Effect::Acknowledge
}

#[verifier::opaque]
spec fn shutdown_after_ack(log: Seq<Effect>) -> bool {
    forall|i: int|
        0 <= i < log.len() && #[trigger] log[i] == Effect::NativeShutdown ==> acked_before(log, i)
}

spec fn session_inv(s: Session, log: Seq<Effect>) -> bool {
    &&& s.worker_live ==> (s.state == LifecycleState::Running || s.state
        == LifecycleState::ShutdownStage1)
    &&& s.worker_live ==> !has_effect(log, Effect::NativeShutdown)
    &&& s.state == LifecycleState::ShutdownStage2 ==> has_effect(log, Effect::Acknowledge)
    &&& s.handle_live ==> s.state == LifecycleState::Running
    &&& no_poll_after_shutdown(log)
    &&& shutdown_after_ack(log)
}

proof fn lemma_has_effect_extend(log: Seq<Effect>, more: Seq<Effect>, e: Effect)
    requires
        has_effect(log, e),
    ensures
        has_effect(log + more, e),
{
    let k = choose|k: int| 0 <= k < log.len() && log[k] == e;
    assert((log + more)[k] == e);
}

/// Appending effects that hold no shutdown to a log that holds none either.
proof fn lemma_append_before_shutdown(log: Seq<Effect>, more: Seq<Effect>)
    requires
        !has_effect(log, Effect::NativeShutdown),
        forall|i: int| 0 <= i < more.len() ==> more[i] != Effect::NativeShutdown,
    ensures
        no_poll_after_shutdown(log + more),
        shutdown_after_ack(log + more),
        !has_effect(log + more, Effect::NativeShutdown),
{
    let all = log + more;
    assert forall|i: int| 0 <= i < all.len() implies all[i] != Effect::NativeShutdown by {
        if i < log.len() {
            assert(all[i] == log[i]);
        } else {
            assert(all[i] == more[i - log.len()]);
        }
    }
    reveal(no_poll_after_shutdown);
    reveal(shutdown_after_ack);
}

/// Appending the shutdown call after an acknowledgement.
proof fn lemma_append_shutdown(log: Seq<Effect>)
    requires
        no_poll_after_shutdown(log),
        shutdown_after_ack(log),
        has_effect(log, Effect::Acknowledge),
    ensures
        no_poll_after_shutdown(log.push(Effect::NativeShutdown)),
        shutdown_after_ack(log.push(Effect::NativeShutdown)),
{
    lemma_append_shutdown_no_poll(log);
    lemma_append_shutdown_ack(log);
}

proof fn lemma_append_shutdown_no_poll(log: Seq<Effect>)
    requires
        no_poll_after_shutdown(log),
    ensures
        no_poll_after_shutdown(log.push(Effect::NativeShutdown)),
{
    let all = log.push(Effect::NativeShutdown);
    reveal(no_poll_after_shutdown);
    assert forall|i: int, j: int|
        0 <= i < j < all.len() && #[trigger] all[i] == Effect::NativeShutdown implies #[trigger] all[j]
        != Effect::Poll by {
        if j < log.len() {
            assert(all[i] == log[i]);
            assert(all[j] == log[j]);
        }
    }
}

proof fn lemma_append_shutdown_ack(log: Seq<Effect>)
    requires
        shutdown_after_ack(log),
        has_effect(log, Effect::Acknowledge),
    ensures
        shutdown_after_ack(log.push(Effect::NativeShutdown)),
{
    let all = log.push(Effect::NativeShutdown);
    let a = choose|k: int| 0 <= k < log.len() && log[k] == Effect::Acknowledge;
    assert(all[a] == Effect::Acknowledge);
    reveal(shutdown_after_ack);
    assert forall|i: int|
        0 <= i < all.len() && #[trigger] all[i] == Effect::NativeShutdown implies acked_before(
            all,
            i,
        ) by {
        if i < log.len() {
            assert(log[i] == all[i]);
            assert(acked_before(log, i));
            let k = choose|k: int| 0 <= k < i && #[trigger] log[k] == Effect::Acknowledge;
            assert(all[k] == log[k]);
        } else {
            assert(a < i);
        }
    }
}

proof fn lemma_step_inv(s: Session, log: Seq<Effect>, step: SessionStep)
    requires
        session_inv(s, log),
    ensures
        session_inv(session_step(s, step).0, log + session_step(s, step).1),
{
    let (next, more) = session_step(s, step);
    let all = log + more;
    if more.len() == 0 {
        assert(all =~= log);
    } else {
        match step {
            SessionStep::WorkerPoll => {
                lemma_append_before_shutdown(log, more);
            },
            SessionStep::WorkerCheck => {
                lemma_append_before_shutdown(log, more);
                assert(all[log.len() as int] == Effect::Acknowledge);
            },
            SessionStep::DropHandle => {},
            SessionStep::TeardownCheck => {
                assert(all =~= log.push(Effect::NativeShutdown));
                lemma_append_shutdown(log);
                lemma_has_effect_extend(log, more, Effect::Acknowledge);
            },
        }
    }
}

proof fn lemma_session_inv(steps: Seq<SessionStep>)
    ensures
        session_inv(session_run(session_start(), steps).0, session_run(session_start(), steps).1),
    decreases steps.len(),
{
    if steps.len() == 0 {
        assert(!has_effect(Seq::<Effect>::empty(), Effect::NativeShutdown));
        reveal(no_poll_after_shutdown);
        reveal(shutdown_after_ack);
    } else {
        lemma_session_inv(steps.drop_last());
        let (mid, log) = session_run(session_start(), steps.drop_last());
        lemma_step_inv(mid, log, steps.last());
    }
}

/// Shutdown ordering: whatever the interleaving of the worker's polls and
/// checks, the dropping of the handle and the checks of the tearing-down
/// thread, no poll follows the native shutdown call, and that call comes
/// only after the worker has acknowledged the stop request.
pub proof fn lemma_shutdown_ordering(steps: Seq<SessionStep>)
    ensures
        ({
            let log = session_run(session_start(), steps).1;
            &&& forall|i: int, j: int|
                0 <= i < j < log.len() && log[i] == Effect::NativeShutdown ==> log[j]
                    != Effect::Poll
            &&& forall|i: int|
                0 <= i < log.len() && log[i] == Effect::NativeShutdown ==> exists|k: int|
                    0 <= k < i && log[k] == Effect::Acknowledge
        }),
{
    lemma_session_inv(steps);
    reveal(no_poll_after_shutdown);
    reveal(shutdown_after_ack);
    let log = session_run(session_start(), steps).1;
    assert forall|i: int|
        0 <= i < log.len() && log[i] == Effect::NativeShutdown implies exists|k: int|
            0 <= k < i && log[k] == Effect::Acknowledge by {
        assert(acked_before(log, i));
    }
}

} // verus!
