//! One-shot mode: launch exactly one VM directly, bypassing the
//! supervisor bootstrap, the registry and the API surface entirely.
//!
//! The mode is selected on the command line and is mutually exclusive
//! with normal service mode: when selected, the process short-circuits
//! before any supervisor connection is attempted. The runner parses the
//! VM configuration file, resolves or creates the working directory,
//! builds the external VM-launch invocation, and then either executes it
//! and blocks until completion — mirroring its exit status — or, under
//! dry-run, prints the built invocation without executing anything.
//!
//! The sequencing is a state machine; proved of every run: a dry run
//! spawns zero external processes, a real run spawns exactly one, and the
//! mode's exit code equals the launched process's own.

use vstd::prelude::*;

verus! {

/// Which mode the process runs in, decided once from the command line.
pub enum RunMode {
    /// Normal service mode: bootstrap, reload, serve.
    Service,
    /// One-shot mode for the VM declared in this configuration file.
    OneShot { vm_config_path: String },
}

/// Select the mode: one-shot exactly when a VM configuration file was
/// given, normal service mode otherwise — never both.
pub fn select_mode(one_shot: Option<String>) -> (r: RunMode)
    ensures
        match one_shot {
            Some(path) => r matches RunMode::OneShot { vm_config_path } && vm_config_path@
                == path@,
            None => r is Service,
        },
{
    match one_shot {
        Some(path) => RunMode::OneShot { vm_config_path: path },
        None => RunMode::Service,
    }
}

/// Where the one-shot VM's working directory comes from.
pub enum WorkdirPlan {
    /// The directory given on the command line.
    Provided { path: String },
    /// A fresh directory created under the current directory.
    CreateUnderCurrent,
}

/// Resolve the working-directory choice: the given directory when one was
/// named, a freshly created one under the current directory otherwise.
pub fn plan_workdir(workdir: Option<String>) -> (r: WorkdirPlan)
    ensures
        match workdir {
            Some(w) => r matches WorkdirPlan::Provided { path } && path@ == w@,
            None => r is CreateUnderCurrent,
        },
{
    match workdir {
        Some(path) => WorkdirPlan::Provided { path },
        None => WorkdirPlan::CreateUnderCurrent,
    }
}

/// The operation the one-shot driver is asked to perform.
#[derive(Clone, Copy, PartialEq, Eq, Structural, Debug)]
pub enum OneShotOp {
    /// Parse the VM configuration file.
    ParseConfig,
    /// Resolve or create the working directory.
    PrepareWorkdir,
    /// Build the external VM-launch invocation.
    BuildCommand,
    /// Print the built invocation without executing it.
    PrintCommand,
    /// Spawn the built invocation and block until it completes.
    SpawnAndWait,
}

/// What the one-shot driver reports back.
#[derive(Clone, Copy, PartialEq, Eq, Structural, Debug)]
pub enum OneShotEvent {
    /// The VM configuration parsed.
    ConfigOk,
    /// The VM configuration could not be read or parsed.
    ConfigBad,
    /// The working directory is ready.
    WorkdirOk,
    /// The working directory could not be resolved or created.
    WorkdirBad,
    /// The launch invocation was built.
    CommandOk,
    /// The built invocation was printed.
    Printed,
    /// The launched process completed with this status code.
    ChildExited { code: i32 },
}

/// The one-shot machine's state.
#[derive(Clone, Copy, PartialEq, Eq, Structural, Debug)]
pub enum OneShotState {
    /// The configuration parse is outstanding.
    ParsingConfig,
    /// The working-directory resolution is outstanding.
    PreparingWorkdir,
    /// The command build is outstanding.
    BuildingCommand,
    /// Dry run only: the print of the built invocation is outstanding.
    PrintingCommand,
    /// The launched process runs; the mode blocks on it with no timeout.
    AwaitingChild,
    /// Dry run finished; terminal, nothing was spawned.
    DonePrinted,
    /// The launched process completed; terminal, its status is the
    /// mode's own result.
    DoneExited { code: i32 },
    /// Setup failed before any launch; terminal, mapped to a non-zero
    /// exit.
    SetupFailed,
}

/// The pure transition of the one-shot sequence; `dry_run` is fixed for
/// the whole run.
pub open spec fn spec_one_shot_step(dry_run: bool, st: OneShotState, ev: OneShotEvent) -> (
    OneShotState,
    Option<OneShotOp>,
) {
    match (st, ev) {
        (OneShotState::ParsingConfig, OneShotEvent::ConfigOk) => (
            OneShotState::PreparingWorkdir,
            Some(OneShotOp::PrepareWorkdir),
        ),
        (OneShotState::ParsingConfig, OneShotEvent::ConfigBad) => (OneShotState::SetupFailed, None),
        (OneShotState::PreparingWorkdir, OneShotEvent::WorkdirOk) => (
            OneShotState::BuildingCommand,
            Some(OneShotOp::BuildCommand),
        ),
        (OneShotState::PreparingWorkdir, OneShotEvent::WorkdirBad) => (
            OneShotState::SetupFailed,
            None,
        ),
        (OneShotState::BuildingCommand, OneShotEvent::CommandOk) => if dry_run {
            (OneShotState::PrintingCommand, Some(OneShotOp::PrintCommand))
        } else {
            (OneShotState::AwaitingChild, Some(OneShotOp::SpawnAndWait))
        },
        (OneShotState::PrintingCommand, OneShotEvent::Printed) => (OneShotState::DonePrinted, None),
        (OneShotState::AwaitingChild, OneShotEvent::ChildExited { code }) => (
            OneShotState::DoneExited { code },
            None,
        ),
        _ => (st, None),
    }
}

/// Begin the one-shot run: the machine starts by asking for the
/// configuration parse.
pub fn one_shot_start() -> (r: (OneShotState, OneShotOp))
    ensures
        r.0 == OneShotState::ParsingConfig,
        r.1 == OneShotOp::ParseConfig,
{
    (OneShotState::ParsingConfig, OneShotOp::ParseConfig)
}

/// Advance the one-shot run by one event; the result is exactly the pure
/// transition. In particular a spawn is requested only without dry-run,
/// and only once the command was built.
pub fn one_shot_step(dry_run: bool, st: OneShotState, ev: OneShotEvent) -> (r: (
    OneShotState,
    Option<OneShotOp>,
))
    ensures
        r == spec_one_shot_step(dry_run, st, ev),
{
    match (st, ev) {
        (OneShotState::ParsingConfig, OneShotEvent::ConfigOk) => (
            OneShotState::PreparingWorkdir,
            Some(OneShotOp::PrepareWorkdir),
        ),
        (OneShotState::ParsingConfig, OneShotEvent::ConfigBad) => (OneShotState::SetupFailed, None),
        (OneShotState::PreparingWorkdir, OneShotEvent::WorkdirOk) => (
            OneShotState::BuildingCommand,
            Some(OneShotOp::BuildCommand),
        ),
        (OneShotState::PreparingWorkdir, OneShotEvent::WorkdirBad) => (
            OneShotState::SetupFailed,
            None,
        ),
        (OneShotState::BuildingCommand, OneShotEvent::CommandOk) => if dry_run {
            (OneShotState::PrintingCommand, Some(OneShotOp::PrintCommand))
        } else {
            (OneShotState::AwaitingChild, Some(OneShotOp::SpawnAndWait))
        },
        (OneShotState::PrintingCommand, OneShotEvent::Printed) => (OneShotState::DonePrinted, None),
        (OneShotState::AwaitingChild, OneShotEvent::ChildExited { code }) => (
            OneShotState::DoneExited { code },
            None,
        ),
        _ => (st, None),
    }
}

/// How many times a one-shot run from `st` through `evs` asks for `op`.
pub open spec fn one_shot_op_count(
    dry_run: bool,
    st: OneShotState,
    evs: Seq<OneShotEvent>,
    op: OneShotOp,
) -> nat
    decreases evs.len(),
{
    if evs.len() == 0 {
        0
    } else {
        (if spec_one_shot_step(dry_run, st, evs[0]).1 == Some(op) {
            1nat
        } else {
            0nat
        }) + one_shot_op_count(dry_run, spec_one_shot_step(dry_run, st, evs[0]).0, evs.skip(1), op)
    }
}

/// How many spawns a run from `st` may still request.
pub open spec fn spawn_allowance(dry_run: bool, st: OneShotState) -> nat {
    if dry_run {
        0
    } else {
        match st {
            OneShotState::ParsingConfig => 1,
            OneShotState::PreparingWorkdir => 1,
            OneShotState::BuildingCommand => 1,
            _ => 0,
        }
    }
}

/// A run never spawns more often than its state's allowance permits.
pub proof fn lemma_spawn_allowance(dry_run: bool, st: OneShotState, evs: Seq<OneShotEvent>)
    ensures
        one_shot_op_count(dry_run, st, evs, OneShotOp::SpawnAndWait) <= spawn_allowance(
            dry_run,
            st,
        ),
    decreases evs.len(),
{
    if evs.len() > 0 {
        lemma_spawn_allowance(dry_run, spec_one_shot_step(dry_run, st, evs[0]).0, evs.skip(1));
    }
}

/// A dry run spawns zero external processes, whatever happens.
pub proof fn lemma_dry_run_spawns_nothing(evs: Seq<OneShotEvent>)
    ensures
        one_shot_op_count(true, OneShotState::ParsingConfig, evs, OneShotOp::SpawnAndWait) == 0,
{
    lemma_spawn_allowance(true, OneShotState::ParsingConfig, evs);
}

/// Without dry-run, a run spawns at most one external process — and a run
/// that reaches the launch spawns exactly one: the spawn is requested on
/// the transition into `AwaitingChild` and never again.
pub proof fn lemma_real_run_spawns_at_most_once(evs: Seq<OneShotEvent>)
    ensures
        one_shot_op_count(false, OneShotState::ParsingConfig, evs, OneShotOp::SpawnAndWait) <= 1,
{
    lemma_spawn_allowance(false, OneShotState::ParsingConfig, evs);
}

/// A successful real run — the configuration parsed, the workdir was
/// prepared, the command was built, the child completed — spawns exactly
/// one external process and ends with the child's own status code.
pub proof fn lemma_real_run_spawns_exactly_once(code: i32)
    ensures
        ({
            let evs = seq![
                OneShotEvent::ConfigOk,
                OneShotEvent::WorkdirOk,
                OneShotEvent::CommandOk,
                OneShotEvent::ChildExited { code },
            ];
            one_shot_op_count(false, OneShotState::ParsingConfig, evs, OneShotOp::SpawnAndWait)
                == 1 && one_shot_run_state(false, OneShotState::ParsingConfig, evs)
                == (OneShotState::DoneExited { code })
        }),
{
    reveal_with_fuel(one_shot_op_count, 5);
    reveal_with_fuel(one_shot_run_state, 5);
    let evs = seq![
        OneShotEvent::ConfigOk,
        OneShotEvent::WorkdirOk,
        OneShotEvent::CommandOk,
        OneShotEvent::ChildExited { code },
    ];
    assert(evs.skip(1) =~= seq![
        OneShotEvent::WorkdirOk,
        OneShotEvent::CommandOk,
        OneShotEvent::ChildExited { code },
    ]);
    assert(evs.skip(1).skip(1) =~= seq![
        OneShotEvent::CommandOk,
        OneShotEvent::ChildExited { code },
    ]);
    assert(evs.skip(1).skip(1).skip(1) =~= seq![OneShotEvent::ChildExited { code }]);
    assert(evs.skip(1).skip(1).skip(1).skip(1) =~= Seq::<OneShotEvent>::empty());
}

/// The state after running the one-shot machine from `st` through `evs`.
pub open spec fn one_shot_run_state(dry_run: bool, st: OneShotState, evs: Seq<OneShotEvent>) -> OneShotState
    decreases evs.len(),
{
    if evs.len() == 0 {
        st
    } else {
        one_shot_run_state(dry_run, spec_one_shot_step(dry_run, st, evs[0]).0, evs.skip(1))
    }
}

/// The mode's exit code, from the state its run ended in: a completed dry
/// run exits cleanly, a completed real run mirrors the launched process's
/// own status, and a setup failure is reported with a non-zero code.
pub fn one_shot_exit_code(st: &OneShotState) -> (r: i32)
    requires
        st is DonePrinted || st is DoneExited || st is SetupFailed,
    ensures
        st is DonePrinted ==> r == 0,
        st matches OneShotState::DoneExited { code } ==> r == code,
        st is SetupFailed ==> r != 0,
{
    match st {
        OneShotState::DonePrinted => 0,
        OneShotState::DoneExited { code } => *code,
        _ => 1,
    }
}

} // verus!
