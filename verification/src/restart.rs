//! The periodic auto-restart control loop.
//!
//! A background task enforces "VMs marked running stay running". Whether it
//! does any work at all is decided once at startup from the configuration
//! and never re-evaluated. When enabled, each timer tick triggers exactly
//! one reconciliation pass; a pass's failure is logged and swallowed, never
//! propagated, so a failing cycle never halts subsequent cycles.
//!
//! The loop is a state machine: the driver owns the timer and the actual
//! reconciliation work and feeds ticks and pass outcomes back as events.
//! Proved of every run: a disabled loop performs no work for the lifetime
//! of the process, and an enabled loop performs exactly one pass per tick,
//! whatever the outcomes of earlier passes were.

use vstd::prelude::*;

verus! {

/// The work the loop driver is asked to perform.
#[derive(Clone, Copy, PartialEq, Eq, Structural, Debug)]
pub enum RestartLoopOp {
    /// Run one reconciliation pass over the registry (restart exited VMs).
    RunReconcile,
}

/// What the loop driver reports back.
#[derive(Clone, Copy, PartialEq, Eq, Structural, Debug)]
pub enum RestartLoopEvent {
    /// The configured period elapsed.
    Tick,
    /// A reconciliation pass finished; `ok` tells whether it succeeded.
    /// Either way the loop continues.
    PassDone { ok: bool },
}

/// The loop machine's state.
#[derive(Clone, Copy, PartialEq, Eq, Structural, Debug)]
pub enum RestartLoopState {
    /// Auto-restart is disabled: the loop never does anything.
    Disabled,
    /// Waiting for the next timer tick.
    Waiting,
    /// A reconciliation pass is in flight.
    Reconciling,
}

/// Decide once, at startup, whether the loop runs at all.
pub open spec fn spec_loop_init(enabled: bool) -> RestartLoopState {
    if enabled {
        RestartLoopState::Waiting
    } else {
        RestartLoopState::Disabled
    }
}

/// The pure transition. A disabled loop ignores every event. A tick while
/// waiting starts exactly one pass; the pass's completion — successful or
/// not — returns the loop to waiting.
pub open spec fn spec_loop_step(st: RestartLoopState, ev: RestartLoopEvent) -> (
    RestartLoopState,
    Option<RestartLoopOp>,
) {
    match (st, ev) {
        (RestartLoopState::Waiting, RestartLoopEvent::Tick) => (
            RestartLoopState::Reconciling,
            Some(RestartLoopOp::RunReconcile),
        ),
        (RestartLoopState::Reconciling, RestartLoopEvent::PassDone { .. }) => (
            RestartLoopState::Waiting,
            None,
        ),
        _ => (st, None),
    }
}

/// Initialize the loop from the configured flag.
pub fn restart_loop_init(enabled: bool) -> (r: RestartLoopState)
    ensures
        r == spec_loop_init(enabled),
        !enabled ==> r is Disabled,
{
    if enabled {
        RestartLoopState::Waiting
    } else {
        RestartLoopState::Disabled
    }
}

/// Advance the loop by one event; the result is exactly the pure
/// transition. In particular a failed pass leads to the same state as a
/// successful one, so the pass at the next tick is never suppressed.
pub fn restart_loop_step(st: RestartLoopState, ev: RestartLoopEvent) -> (r: (
    RestartLoopState,
    Option<RestartLoopOp>,
))
    ensures
        r == spec_loop_step(st, ev),
{
    match (st, ev) {
        (RestartLoopState::Waiting, RestartLoopEvent::Tick) => (
            RestartLoopState::Reconciling,
            Some(RestartLoopOp::RunReconcile),
        ),
        (RestartLoopState::Reconciling, RestartLoopEvent::PassDone { .. }) => (
            RestartLoopState::Waiting,
            None,
        ),
        _ => (st, None),
    }
}

/// The state after running the loop from `st` through the events `evs`.
pub open spec fn loop_run_state(st: RestartLoopState, evs: Seq<RestartLoopEvent>) -> RestartLoopState
    decreases evs.len(),
{
    if evs.len() == 0 {
        st
    } else {
        loop_run_state(spec_loop_step(st, evs[0]).0, evs.skip(1))
    }
}

/// How many reconciliation passes a run from `st` through `evs` starts.
pub open spec fn reconcile_count(st: RestartLoopState, evs: Seq<RestartLoopEvent>) -> nat
    decreases evs.len(),
{
    if evs.len() == 0 {
        0
    } else {
        (if spec_loop_step(st, evs[0]).1 == Some(RestartLoopOp::RunReconcile) {
            1nat
        } else {
            0nat
        }) + reconcile_count(spec_loop_step(st, evs[0]).0, evs.skip(1))
    }
}

/// A disabled loop performs no work for the lifetime of the process: it
/// stays disabled and starts zero reconciliation passes — hence zero
/// supervisor calls originate from the restart loop — over any run.
pub proof fn lemma_disabled_loop_does_nothing(evs: Seq<RestartLoopEvent>)
    ensures
        loop_run_state(RestartLoopState::Disabled, evs) == RestartLoopState::Disabled,
        reconcile_count(RestartLoopState::Disabled, evs) == 0,
    decreases evs.len(),
{
    if evs.len() > 0 {
        lemma_disabled_loop_does_nothing(evs.skip(1));
    }
}

/// How many timer ticks a sequence of events holds.
pub open spec fn tick_count(evs: Seq<RestartLoopEvent>) -> nat
    decreases evs.len(),
{
    if evs.len() == 0 {
        0
    } else {
        (if evs[0] is Tick {
            1nat
        } else {
            0nat
        }) + tick_count(evs.skip(1))
    }
}

/// A well-formed run of an enabled loop: the driver ticks only while the
/// loop waits and reports a pass outcome only while one is in flight.
pub open spec fn loop_run_well_formed(st: RestartLoopState, evs: Seq<RestartLoopEvent>) -> bool
    decreases evs.len(),
{
    evs.len() == 0 || {
        &&& match (st, evs[0]) {
            (RestartLoopState::Waiting, RestartLoopEvent::Tick) => true,
            (RestartLoopState::Reconciling, RestartLoopEvent::PassDone { .. }) => true,
            _ => false,
        }
        &&& loop_run_well_formed(spec_loop_step(st, evs[0]).0, evs.skip(1))
    }
}

/// Exactly one reconciliation pass per period: over any well-formed run of
/// an enabled loop, the number of passes started equals the number of
/// timer ticks — regardless of how many passes failed.
pub proof fn lemma_one_pass_per_tick(st: RestartLoopState, evs: Seq<RestartLoopEvent>)
    requires
        st is Waiting || st is Reconciling,
        loop_run_well_formed(st, evs),
    ensures
        reconcile_count(st, evs) == tick_count(evs),
    decreases evs.len(),
{
    if evs.len() > 0 {
        lemma_one_pass_per_tick(spec_loop_step(st, evs[0]).0, evs.skip(1));
    }
}

/// A failing pass does not suppress the pass at the next tick: the loop
/// leaves a completed pass in the same state whether it succeeded or
/// failed, and from that state the next tick starts a pass again.
pub proof fn lemma_failure_never_halts_loop(ok: bool)
    ensures
        spec_loop_step(
            RestartLoopState::Reconciling,
            RestartLoopEvent::PassDone { ok },
        ) == spec_loop_step(
            RestartLoopState::Reconciling,
            RestartLoopEvent::PassDone { ok: true },
        ),
        spec_loop_step(
            spec_loop_step(RestartLoopState::Reconciling, RestartLoopEvent::PassDone { ok }).0,
            RestartLoopEvent::Tick,
        ).1 == Some(RestartLoopOp::RunReconcile),
{
}

} // verus!
