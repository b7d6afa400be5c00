//! Startup sequencing of the normal service mode.
//!
//! At normal startup the supervisor connection is established first, then
//! the registry's one-time reload runs synchronously, and only then are
//! the restart loop and the two API endpoints launched concurrently. Both
//! failure points — bootstrap and reload — are fatal and abort before any
//! serving begins. The machine makes the ordering a theorem: services are
//! launched only after the reload completed successfully, so no RPC is
//! accepted and no restart cycle runs before it.

use vstd::prelude::*;

verus! {

/// The startup phase.
#[derive(Clone, Copy, PartialEq, Eq, Structural, Debug)]
pub enum StartupPhase {
    /// The supervisor bootstrap is running.
    ConnectingSupervisor,
    /// The one-time registry reload is running.
    ReloadingVms,
    /// The restart loop and both API endpoints have been launched;
    /// terminal — from here the endpoint race owns the process.
    Serving,
    /// A fatal startup error; terminal, nothing was ever served.
    Aborted { reason: StartupError },
}

/// The fatal startup errors, each wrapped with phase-identifying context
/// by the caller.
#[derive(Clone, Copy, PartialEq, Eq, Structural, Debug)]
pub enum StartupError {
    /// The supervisor bootstrap failed ("failed to connect to supervisor").
    SupervisorUnreachable,
    /// The one-time reload failed ("failed to reload VMs").
    ReloadFailed,
}

impl StartupError {
    /// The phase-identifying context a fatal startup error is wrapped
    /// with before surfacing.
    pub fn describe(&self) -> (r: String)
        ensures
            *self is SupervisorUnreachable ==> r@ == "failed to connect to supervisor"@,
            *self is ReloadFailed ==> r@ == "failed to reload VMs"@,
    {
        match self {
            StartupError::SupervisorUnreachable => String::from_str(
                "failed to connect to supervisor",
            ),
            StartupError::ReloadFailed => String::from_str("failed to reload VMs"),
        }
    }
}

/// What the startup driver reports back.
#[derive(Clone, Copy, PartialEq, Eq, Structural, Debug)]
pub enum StartupEvent {
    /// The supervisor bootstrap produced a handle.
    SupervisorReady,
    /// The supervisor bootstrap failed fatally.
    SupervisorFailed,
    /// The one-time reload completed.
    ReloadOk,
    /// The one-time reload failed.
    ReloadFailed,
}

/// The operation the startup driver is asked to perform.
#[derive(Clone, Copy, PartialEq, Eq, Structural, Debug)]
pub enum StartupOp {
    /// Run the supervisor bootstrap.
    RunBootstrap,
    /// Run the registry's one-time reload, synchronously.
    ReloadVms,
    /// Launch the restart loop and both API endpoints concurrently.
    LaunchServices,
}

/// The pure transition of the startup sequence.
pub open spec fn spec_startup_step(st: StartupPhase, ev: StartupEvent) -> (
    StartupPhase,
    Option<StartupOp>,
) {
    match (st, ev) {
        (StartupPhase::ConnectingSupervisor, StartupEvent::SupervisorReady) => (
            StartupPhase::ReloadingVms,
            Some(StartupOp::ReloadVms),
        ),
        (StartupPhase::ConnectingSupervisor, StartupEvent::SupervisorFailed) => (
            StartupPhase::Aborted { reason: StartupError::SupervisorUnreachable },
            None,
        ),
        (StartupPhase::ReloadingVms, StartupEvent::ReloadOk) => (
            StartupPhase::Serving,
            Some(StartupOp::LaunchServices),
        ),
        (StartupPhase::ReloadingVms, StartupEvent::ReloadFailed) => (
            StartupPhase::Aborted { reason: StartupError::ReloadFailed },
            None,
        ),
        _ => (st, None),
    }
}

/// Begin the startup: the machine starts by asking for the supervisor
/// bootstrap.
pub fn startup_start() -> (r: (StartupPhase, StartupOp))
    ensures
        r.0 == StartupPhase::ConnectingSupervisor,
        r.1 == StartupOp::RunBootstrap,
{
    (StartupPhase::ConnectingSupervisor, StartupOp::RunBootstrap)
}

/// Advance the startup by one event; the result is exactly the pure
/// transition. In particular the reload is requested only once the
/// supervisor is ready, and the services are launched only once the
/// reload completed.
pub fn startup_step(st: StartupPhase, ev: StartupEvent) -> (r: (StartupPhase, Option<StartupOp>))
    ensures
        r == spec_startup_step(st, ev),
{
    match (st, ev) {
        (StartupPhase::ConnectingSupervisor, StartupEvent::SupervisorReady) => (
            StartupPhase::ReloadingVms,
            Some(StartupOp::ReloadVms),
        ),
        (StartupPhase::ConnectingSupervisor, StartupEvent::SupervisorFailed) => (
            StartupPhase::Aborted { reason: StartupError::SupervisorUnreachable },
            None,
        ),
        (StartupPhase::ReloadingVms, StartupEvent::ReloadOk) => (
            StartupPhase::Serving,
            Some(StartupOp::LaunchServices),
        ),
        (StartupPhase::ReloadingVms, StartupEvent::ReloadFailed) => (
            StartupPhase::Aborted { reason: StartupError::ReloadFailed },
            None,
        ),
        _ => (st, None),
    }
}

/// The phase after running the startup from `st` through `evs`.
pub open spec fn startup_run_state(st: StartupPhase, evs: Seq<StartupEvent>) -> StartupPhase
    decreases evs.len(),
{
    if evs.len() == 0 {
        st
    } else {
        startup_run_state(spec_startup_step(st, evs[0]).0, evs.skip(1))
    }
}

/// How many times a run of the startup from `st` through `evs` asks for
/// `op`.
pub open spec fn startup_op_count(st: StartupPhase, evs: Seq<StartupEvent>, op: StartupOp) -> nat
    decreases evs.len(),
{
    if evs.len() == 0 {
        0
    } else {
        (if spec_startup_step(st, evs[0]).1 == Some(op) {
            1nat
        } else {
            0nat
        }) + startup_op_count(spec_startup_step(st, evs[0]).0, evs.skip(1), op)
    }
}

/// Services are launched only by the reload's completion: no transition
/// from any phase on any event asks for the launch unless the reload was
/// just reported complete.
pub proof fn lemma_launch_only_after_reload(st: StartupPhase, ev: StartupEvent)
    ensures
        spec_startup_step(st, ev).1 == Some(StartupOp::LaunchServices) ==> st is ReloadingVms && ev
            is ReloadOk,
{
}

/// An aborted startup stays aborted and asks for nothing: no reload, no
/// launch, nothing is served after a fatal startup error.
pub proof fn lemma_aborted_is_terminal(st: StartupPhase, evs: Seq<StartupEvent>, op: StartupOp)
    requires
        st is Aborted,
    ensures
        startup_run_state(st, evs) == st,
        startup_op_count(st, evs, op) == 0,
    decreases evs.len(),
{
    if evs.len() > 0 {
        lemma_aborted_is_terminal(spec_startup_step(st, evs[0]).0, evs.skip(1), op);
    }
}

/// The reload happens-before every RPC acceptance and before the first
/// restart cycle: a run of the startup that ever launches the services —
/// the only way an endpoint binds or the restart loop starts — saw the
/// reload complete at the step of the launch, strictly before.
pub proof fn lemma_reload_completes_before_serving(st: StartupPhase, evs: Seq<StartupEvent>)
    ensures
        startup_op_count(st, evs, StartupOp::LaunchServices) > 0 ==> exists|k: int|
            {
                &&& 0 <= k < evs.len()
                &&& #[trigger] evs[k] is ReloadOk
                &&& startup_run_state(st, evs.take(k)) is ReloadingVms
            },
    decreases evs.len(),
{
    if evs.len() > 0 {
        let (next, op) = spec_startup_step(st, evs[0]);
        lemma_reload_completes_before_serving(next, evs.skip(1));
        if startup_op_count(st, evs, StartupOp::LaunchServices) > 0 {
            if op == Some(StartupOp::LaunchServices) {
                assert(st is ReloadingVms && evs[0] is ReloadOk);
                assert(evs.take(0) =~= Seq::<StartupEvent>::empty());
                assert(startup_run_state(st, evs.take(0)) == st);
                assert({
                    &&& 0 <= 0 < evs.len()
                    &&& evs[0] is ReloadOk
                    &&& startup_run_state(st, evs.take(0)) is ReloadingVms
                });
            } else {
                assert(startup_op_count(next, evs.skip(1), StartupOp::LaunchServices) > 0);
                let k = choose|k: int|
                    {
                        &&& 0 <= k < evs.skip(1).len()
                        &&& #[trigger] evs.skip(1)[k] is ReloadOk
                        &&& startup_run_state(next, evs.skip(1).take(k)) is ReloadingVms
                    };
                assert(evs.skip(1).take(k) =~= evs.take(k + 1).skip(1));
                assert(evs.take(k + 1)[0] == evs[0]);
                assert(evs.take(k + 1).len() > 0);
                assert(startup_run_state(st, evs.take(k + 1)) == startup_run_state(
                    next,
                    evs.take(k + 1).skip(1),
                ));
                assert(evs[k + 1] == evs.skip(1)[k]);
            }
        }
    }
}

/// Supervisor unreachable means startup fails before any listener binds:
/// a run whose bootstrap fails never launches the services.
pub proof fn lemma_supervisor_failure_aborts_before_binding(evs: Seq<StartupEvent>)
    requires
        evs.len() > 0,
        evs[0] is SupervisorFailed,
    ensures
        startup_run_state(StartupPhase::ConnectingSupervisor, evs) == (StartupPhase::Aborted {
            reason: StartupError::SupervisorUnreachable,
        }),
        startup_op_count(
            StartupPhase::ConnectingSupervisor,
            evs,
            StartupOp::LaunchServices,
        ) == 0,
{
    let aborted = StartupPhase::Aborted { reason: StartupError::SupervisorUnreachable };
    lemma_aborted_is_terminal(aborted, evs.skip(1), StartupOp::LaunchServices);
}

} // verus!
