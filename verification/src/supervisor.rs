//! Bootstrap protocol for the connection to the supervisor daemon.
//!
//! The supervisor is a separate, longer-lived process that owns the
//! OS-level VM processes, so VMs survive a control-plane restart. At
//! startup the control plane must obtain a working connection to it:
//! connect to its socket, and — only when auto-start permits — check its
//! pid file, spawn the executable at most once, and retry the connection
//! with a bounded budget until success or a deadline.
//!
//! The protocol is a state machine: the driver performs the operation the
//! machine asks for (connect, pid-file check, spawn) and feeds the outcome
//! back as an event. Every step is a pure transition, so the guarantees —
//! the executable is spawned at most once, connection attempts are bounded,
//! auto-start disabled means an immediate fatal failure with no spawn —
//! are proved of every possible run.

use vstd::prelude::*;

verus! {

/// How many connection retries follow a pid-file check or a spawn before
/// the bootstrap gives up; together with the driver's backoff delay this
/// bounds the connection deadline.
pub const RETRY_BUDGET: u32 = 30;

/// The operation the bootstrap driver is asked to perform next.
#[derive(Clone, Copy, PartialEq, Eq, Structural, Debug)]
pub enum BootstrapOp {
    /// Try to connect to the supervisor's socket.
    Connect,
    /// Check the pid file for a live supervisor process.
    CheckPidFile,
    /// Spawn the supervisor executable, stdio redirected to the log file,
    /// optionally fully detached.
    SpawnSupervisor,
}

/// The outcome of a bootstrap operation, reported back by the driver.
#[derive(Clone, Copy, PartialEq, Eq, Structural, Debug)]
pub enum BootstrapEvent {
    /// A connection attempt succeeded.
    Connected,
    /// A connection attempt failed.
    ConnectFailed,
    /// The pid file names a live process.
    PidLive,
    /// No live process is recorded in the pid file.
    PidAbsent,
    /// The supervisor executable was spawned and its pid recorded.
    SpawnOk,
    /// The supervisor executable could not be spawned.
    SpawnFailed,
}

/// Why the bootstrap failed; all are fatal at startup, there is no
/// degraded mode.
#[derive(Clone, Copy, PartialEq, Eq, Structural, Debug)]
pub enum BootstrapError {
    /// The socket was unreachable and auto-start is disabled: the startup
    /// dependency is unmet.
    AutoStartDisabled,
    /// The supervisor executable could not be spawned.
    SpawnFailed,
    /// The retry budget was exhausted without a successful connection.
    DeadlineExhausted,
}

/// The bootstrap machine's state.
#[derive(Clone, Copy, PartialEq, Eq, Structural, Debug)]
pub enum BootstrapState {
    /// The initial connection attempt is outstanding.
    Connecting,
    /// The initial attempt failed and auto-start permits recovery: the pid
    /// file is being checked.
    CheckingPid,
    /// No live supervisor was found: a spawn is outstanding.
    Spawning,
    /// Connection retries are running; `attempts_left` bounds how many
    /// failures remain tolerable.
    Retrying { attempts_left: u32 },
    /// A connection is established; terminal.
    Connected,
    /// The bootstrap failed fatally; terminal.
    Failed { reason: BootstrapError },
}

/// The pure transition: from a state and the driver's event to the next
/// state and the next operation, if any. An event that the state does not
/// expect is ignored. Terminal states never ask for another operation.
pub open spec fn spec_step(auto_start: bool, st: BootstrapState, ev: BootstrapEvent) -> (
    BootstrapState,
    Option<BootstrapOp>,
) {
    match (st, ev) {
        (BootstrapState::Connecting, BootstrapEvent::Connected) => (
            BootstrapState::Connected,
            None,
        ),
        (BootstrapState::Connecting, BootstrapEvent::ConnectFailed) => if auto_start {
            (BootstrapState::CheckingPid, Some(BootstrapOp::CheckPidFile))
        } else {
            (BootstrapState::Failed { reason: BootstrapError::AutoStartDisabled }, None)
        },
        (BootstrapState::CheckingPid, BootstrapEvent::PidLive) => (
            BootstrapState::Retrying { attempts_left: RETRY_BUDGET },
            Some(BootstrapOp::Connect),
        ),
        (BootstrapState::CheckingPid, BootstrapEvent::PidAbsent) => (
            BootstrapState::Spawning,
            Some(BootstrapOp::SpawnSupervisor),
        ),
        (BootstrapState::Spawning, BootstrapEvent::SpawnOk) => (
            BootstrapState::Retrying { attempts_left: RETRY_BUDGET },
            Some(BootstrapOp::Connect),
        ),
        (BootstrapState::Spawning, BootstrapEvent::SpawnFailed) => (
            BootstrapState::Failed { reason: BootstrapError::SpawnFailed },
            None,
        ),
        (BootstrapState::Retrying { .. }, BootstrapEvent::Connected) => (
            BootstrapState::Connected,
            None,
        ),
        (BootstrapState::Retrying { attempts_left }, BootstrapEvent::ConnectFailed) => if attempts_left
            > 0 {
            (
                BootstrapState::Retrying { attempts_left: (attempts_left - 1) as u32 },
                Some(BootstrapOp::Connect),
            )
        } else {
            (BootstrapState::Failed { reason: BootstrapError::DeadlineExhausted }, None)
        },
        _ => (st, None),
    }
}

/// Begin the bootstrap: the machine starts by asking for a connection
/// attempt.
pub fn bootstrap_start() -> (r: (BootstrapState, BootstrapOp))
    ensures
        r.0 == BootstrapState::Connecting,
        r.1 == BootstrapOp::Connect,
{
    (BootstrapState::Connecting, BootstrapOp::Connect)
}

/// Advance the bootstrap by one event. The result is exactly the pure
/// transition, so in particular: a failed first connection with auto-start
/// disabled fails fatally at once, a spawn is only requested after the pid
/// file reported no live process, and a retry budget of zero turns the
/// next connection failure into a fatal deadline error.
pub fn bootstrap_step(auto_start: bool, st: BootstrapState, ev: BootstrapEvent) -> (r: (
    BootstrapState,
    Option<BootstrapOp>,
))
    ensures
        r == spec_step(auto_start, st, ev),
        !auto_start && st is Connecting && ev is ConnectFailed ==> r.0 == (BootstrapState::Failed {
            reason: BootstrapError::AutoStartDisabled,
        }) && r.1 is None,
{
    match (st, ev) {
        (BootstrapState::Connecting, BootstrapEvent::Connected) => (
            BootstrapState::Connected,
            None,
        ),
        (BootstrapState::Connecting, BootstrapEvent::ConnectFailed) => if auto_start {
            (BootstrapState::CheckingPid, Some(BootstrapOp::CheckPidFile))
        } else {
            (BootstrapState::Failed { reason: BootstrapError::AutoStartDisabled }, None)
        },
        (BootstrapState::CheckingPid, BootstrapEvent::PidLive) => (
            BootstrapState::Retrying { attempts_left: RETRY_BUDGET },
            Some(BootstrapOp::Connect),
        ),
        (BootstrapState::CheckingPid, BootstrapEvent::PidAbsent) => (
            BootstrapState::Spawning,
            Some(BootstrapOp::SpawnSupervisor),
        ),
        (BootstrapState::Spawning, BootstrapEvent::SpawnOk) => (
            BootstrapState::Retrying { attempts_left: RETRY_BUDGET },
            Some(BootstrapOp::Connect),
        ),
        (BootstrapState::Spawning, BootstrapEvent::SpawnFailed) => (
            BootstrapState::Failed { reason: BootstrapError::SpawnFailed },
            None,
        ),
        (BootstrapState::Retrying { .. }, BootstrapEvent::Connected) => (
            BootstrapState::Connected,
            None,
        ),
        (BootstrapState::Retrying { attempts_left }, BootstrapEvent::ConnectFailed) => if attempts_left
            > 0 {
            (
                BootstrapState::Retrying { attempts_left: attempts_left - 1 },
                Some(BootstrapOp::Connect),
            )
        } else {
            (BootstrapState::Failed { reason: BootstrapError::DeadlineExhausted }, None)
        },
        _ => (st, None),
    }
}

/// The state after running the machine from `st` through the events `evs`.
pub open spec fn run_state(auto_start: bool, st: BootstrapState, evs: Seq<BootstrapEvent>) -> BootstrapState
    decreases evs.len(),
{
    if evs.len() == 0 {
        st
    } else {
        run_state(auto_start, spec_step(auto_start, st, evs[0]).0, evs.skip(1))
    }
}

/// How many times the machine asks for `op` while running from `st`
/// through `evs`.
pub open spec fn op_count(
    auto_start: bool,
    st: BootstrapState,
    evs: Seq<BootstrapEvent>,
    op: BootstrapOp,
) -> nat
    decreases evs.len(),
{
    if evs.len() == 0 {
        0
    } else {
        (if spec_step(auto_start, st, evs[0]).1 == Some(op) {
            1nat
        } else {
            0nat
        }) + op_count(auto_start, spec_step(auto_start, st, evs[0]).0, evs.skip(1), op)
    }
}

/// How many spawn requests a run from `st` may still make.
pub open spec fn spawn_allowance(st: BootstrapState) -> nat {
    match st {
        BootstrapState::Connecting => 1,
        BootstrapState::CheckingPid => 1,
        _ => 0,
    }
}

/// A run never spawns more often than its state's allowance permits.
pub proof fn lemma_spawn_bounded(auto_start: bool, st: BootstrapState, evs: Seq<BootstrapEvent>)
    ensures
        op_count(auto_start, st, evs, BootstrapOp::SpawnSupervisor) <= spawn_allowance(st),
    decreases evs.len(),
{
    if evs.len() > 0 {
        let (next, _) = spec_step(auto_start, st, evs[0]);
        lemma_spawn_bounded(auto_start, next, evs.skip(1));
    }
}

/// The supervisor executable is spawned at most once, whatever events a
/// run of the bootstrap sees.
pub proof fn lemma_spawn_at_most_once(auto_start: bool, evs: Seq<BootstrapEvent>)
    ensures
        op_count(auto_start, BootstrapState::Connecting, evs, BootstrapOp::SpawnSupervisor) <= 1,
{
    lemma_spawn_bounded(auto_start, BootstrapState::Connecting, evs);
}

/// How many further connection attempts a run from `st` may still request.
pub open spec fn connect_allowance(st: BootstrapState) -> nat {
    match st {
        BootstrapState::Connecting => RETRY_BUDGET as nat + 2,
        BootstrapState::CheckingPid => RETRY_BUDGET as nat + 2,
        BootstrapState::Spawning => RETRY_BUDGET as nat + 2,
        BootstrapState::Retrying { attempts_left } => attempts_left as nat + 1,
        _ => 0,
    }
}

/// Connection attempts are bounded: after the initial attempt, a run asks
/// for at most `RETRY_BUDGET + 2` more, so the bootstrap cannot retry
/// forever — it either connects or fails by its deadline.
pub proof fn lemma_connects_bounded(auto_start: bool, st: BootstrapState, evs: Seq<BootstrapEvent>)
    ensures
        op_count(auto_start, st, evs, BootstrapOp::Connect) <= connect_allowance(st),
    decreases evs.len(),
{
    if evs.len() > 0 {
        let (next, _) = spec_step(auto_start, st, evs[0]);
        lemma_connects_bounded(auto_start, next, evs.skip(1));
    }
}

/// Terminal states stay terminal and request nothing: a run that has
/// connected or failed performs no further operation of any kind.
pub proof fn lemma_terminal(auto_start: bool, st: BootstrapState, evs: Seq<BootstrapEvent>, op: BootstrapOp)
    requires
        st is Connected || st is Failed,
    ensures
        run_state(auto_start, st, evs) == st,
        op_count(auto_start, st, evs, op) == 0,
    decreases evs.len(),
{
    if evs.len() > 0 {
        lemma_terminal(auto_start, spec_step(auto_start, st, evs[0]).0, evs.skip(1), op);
    }
}

/// With auto-start disabled, a failed first connection is fatal before
/// anything else happens: the run ends in `AutoStartDisabled` and performs
/// no spawn, no pid-file check and no further connection attempt.
pub proof fn lemma_auto_start_disabled_fails_immediately(evs: Seq<BootstrapEvent>, op: BootstrapOp)
    requires
        evs.len() > 0,
        evs[0] is ConnectFailed,
    ensures
        run_state(false, BootstrapState::Connecting, evs) == (BootstrapState::Failed {
            reason: BootstrapError::AutoStartDisabled,
        }),
        op_count(false, BootstrapState::Connecting, evs, op) == 0,
{
    let failed = BootstrapState::Failed { reason: BootstrapError::AutoStartDisabled };
    assert(spec_step(false, BootstrapState::Connecting, evs[0]) == (failed, None::<BootstrapOp>));
    lemma_terminal(false, failed, evs.skip(1), op);
}

} // verus!
