use vmm::one_shot::{one_shot_exit_code, one_shot_start, one_shot_step, plan_workdir, select_mode,
    OneShotEvent, OneShotOp, OneShotState, RunMode, WorkdirPlan};
use vmm::startup::{startup_start, startup_step, StartupError, StartupEvent, StartupOp,
    StartupPhase};

#[test]
fn services_launch_only_after_reload_completes() {
    let (st, op) = startup_start();
    assert_eq!(st, StartupPhase::ConnectingSupervisor);
    assert_eq!(op, StartupOp::RunBootstrap);
    let (st, op) = startup_step(st, StartupEvent::SupervisorReady);
    assert_eq!(st, StartupPhase::ReloadingVms);
    assert_eq!(op, Some(StartupOp::ReloadVms));
    let (st, op) = startup_step(st, StartupEvent::ReloadOk);
    assert_eq!(st, StartupPhase::Serving);
    assert_eq!(op, Some(StartupOp::LaunchServices));
}

#[test]
fn supervisor_failure_aborts_before_any_listener() {
    let (st, _) = startup_start();
    let (st, op) = startup_step(st, StartupEvent::SupervisorFailed);
    assert_eq!(st, StartupPhase::Aborted { reason: StartupError::SupervisorUnreachable });
    assert_eq!(op, None);
    // Terminal: nothing is ever launched afterwards.
    let (st, op) = startup_step(st, StartupEvent::ReloadOk);
    assert_eq!(st, StartupPhase::Aborted { reason: StartupError::SupervisorUnreachable });
    assert_eq!(op, None);
}

#[test]
fn reload_failure_aborts_before_serving() {
    let (st, _) = startup_start();
    let (st, _) = startup_step(st, StartupEvent::SupervisorReady);
    let (st, op) = startup_step(st, StartupEvent::ReloadFailed);
    assert_eq!(st, StartupPhase::Aborted { reason: StartupError::ReloadFailed });
    assert_eq!(op, None);
}

#[test]
fn startup_errors_carry_phase_context() {
    assert_eq!(
        StartupError::SupervisorUnreachable.describe(),
        "failed to connect to supervisor"
    );
    assert_eq!(StartupError::ReloadFailed.describe(), "failed to reload VMs");
}

#[test]
fn mode_selection_is_mutually_exclusive() {
    match select_mode(Some("/etc/vmm/vm.toml".to_string())) {
        RunMode::OneShot { vm_config_path } => assert_eq!(vm_config_path, "/etc/vmm/vm.toml"),
        RunMode::Service => panic!("one-shot path must select one-shot mode"),
    }
    assert!(matches!(select_mode(None), RunMode::Service));
}

#[test]
fn workdir_defaults_to_fresh_directory() {
    match plan_workdir(Some("/tmp/work".to_string())) {
        WorkdirPlan::Provided { path } => assert_eq!(path, "/tmp/work"),
        WorkdirPlan::CreateUnderCurrent => panic!("given workdir must be used"),
    }
    assert!(matches!(plan_workdir(None), WorkdirPlan::CreateUnderCurrent));
}

fn drive_one_shot(dry_run: bool, events: &[OneShotEvent]) -> (OneShotState, Vec<OneShotOp>) {
    let mut ops = Vec::new();
    let (mut st, op) = one_shot_start();
    ops.push(op);
    for ev in events {
        let (next, op) = one_shot_step(dry_run, st, *ev);
        if let Some(op) = op {
            ops.push(op);
        }
        st = next;
    }
    (st, ops)
}

#[test]
fn dry_run_spawns_no_external_process() {
    let (st, ops) = drive_one_shot(
        true,
        &[
            OneShotEvent::ConfigOk,
            OneShotEvent::WorkdirOk,
            OneShotEvent::CommandOk,
            OneShotEvent::Printed,
        ],
    );
    assert_eq!(st, OneShotState::DonePrinted);
    assert!(ops.contains(&OneShotOp::PrintCommand));
    assert!(!ops.contains(&OneShotOp::SpawnAndWait));
    assert_eq!(one_shot_exit_code(&st), 0);
}

#[test]
fn real_run_spawns_exactly_one_and_mirrors_exit_status() {
    let (st, ops) = drive_one_shot(
        false,
        &[
            OneShotEvent::ConfigOk,
            OneShotEvent::WorkdirOk,
            OneShotEvent::CommandOk,
            OneShotEvent::ChildExited { code: 42 },
        ],
    );
    assert_eq!(st, OneShotState::DoneExited { code: 42 });
    let spawns = ops.iter().filter(|op| **op == OneShotOp::SpawnAndWait).count();
    assert_eq!(spawns, 1);
    assert!(!ops.contains(&OneShotOp::PrintCommand));
    assert_eq!(one_shot_exit_code(&st), 42);
}

#[test]
fn setup_failure_maps_to_non_zero_exit() {
    let (st, ops) = drive_one_shot(false, &[OneShotEvent::ConfigBad]);
    assert_eq!(st, OneShotState::SetupFailed);
    assert!(!ops.contains(&OneShotOp::SpawnAndWait));
    assert_ne!(one_shot_exit_code(&st), 0);

    let (st, _) = drive_one_shot(false, &[OneShotEvent::ConfigOk, OneShotEvent::WorkdirBad]);
    assert_eq!(st, OneShotState::SetupFailed);
    assert_ne!(one_shot_exit_code(&st), 0);
}
