use vmm::supervisor::{bootstrap_start, bootstrap_step, BootstrapError, BootstrapEvent,
    BootstrapOp, BootstrapState, RETRY_BUDGET};

#[test]
fn connect_on_first_try() {
    let (st, op) = bootstrap_start();
    assert_eq!(st, BootstrapState::Connecting);
    assert_eq!(op, BootstrapOp::Connect);
    let (st, op) = bootstrap_step(true, st, BootstrapEvent::Connected);
    assert_eq!(st, BootstrapState::Connected);
    assert_eq!(op, None);
}

#[test]
fn auto_start_disabled_fails_immediately() {
    let (st, _) = bootstrap_start();
    let (st, op) = bootstrap_step(false, st, BootstrapEvent::ConnectFailed);
    assert_eq!(st, BootstrapState::Failed { reason: BootstrapError::AutoStartDisabled });
    assert_eq!(op, None);
    // The failure is terminal: nothing further is ever requested.
    let (st, op) = bootstrap_step(false, st, BootstrapEvent::Connected);
    assert_eq!(st, BootstrapState::Failed { reason: BootstrapError::AutoStartDisabled });
    assert_eq!(op, None);
}

#[test]
fn live_pid_skips_spawn() {
    let (st, _) = bootstrap_start();
    let (st, op) = bootstrap_step(true, st, BootstrapEvent::ConnectFailed);
    assert_eq!(st, BootstrapState::CheckingPid);
    assert_eq!(op, Some(BootstrapOp::CheckPidFile));
    let (st, op) = bootstrap_step(true, st, BootstrapEvent::PidLive);
    assert_eq!(st, BootstrapState::Retrying { attempts_left: RETRY_BUDGET });
    assert_eq!(op, Some(BootstrapOp::Connect));
}

#[test]
fn absent_pid_spawns_once_then_connects() {
    let mut spawns = 0;
    let (mut st, _) = bootstrap_start();
    let events = [
        BootstrapEvent::ConnectFailed,
        BootstrapEvent::PidAbsent,
        BootstrapEvent::SpawnOk,
        BootstrapEvent::ConnectFailed,
        BootstrapEvent::ConnectFailed,
        BootstrapEvent::Connected,
    ];
    for ev in events {
        let (next, op) = bootstrap_step(true, st, ev);
        if op == Some(BootstrapOp::SpawnSupervisor) {
            spawns += 1;
        }
        st = next;
    }
    assert_eq!(spawns, 1);
    assert_eq!(st, BootstrapState::Connected);
}

#[test]
fn spawn_failure_is_fatal() {
    let (st, _) = bootstrap_start();
    let (st, _) = bootstrap_step(true, st, BootstrapEvent::ConnectFailed);
    let (st, _) = bootstrap_step(true, st, BootstrapEvent::PidAbsent);
    let (st, op) = bootstrap_step(true, st, BootstrapEvent::SpawnFailed);
    assert_eq!(st, BootstrapState::Failed { reason: BootstrapError::SpawnFailed });
    assert_eq!(op, None);
}

#[test]
fn retries_are_bounded_then_deadline_fails() {
    let mut connect_attempts = 1; // the initial attempt requested by bootstrap_start
    let mut spawns = 0;
    let (mut st, _) = bootstrap_start();
    let mut guard = 0;
    loop {
        let ev = match st {
            BootstrapState::Connecting => BootstrapEvent::ConnectFailed,
            BootstrapState::CheckingPid => BootstrapEvent::PidAbsent,
            BootstrapState::Spawning => BootstrapEvent::SpawnOk,
            BootstrapState::Retrying { .. } => BootstrapEvent::ConnectFailed,
            _ => break,
        };
        let (next, op) = bootstrap_step(true, st, ev);
        match op {
            Some(BootstrapOp::Connect) => connect_attempts += 1,
            Some(BootstrapOp::SpawnSupervisor) => spawns += 1,
            _ => {}
        }
        st = next;
        guard += 1;
        assert!(guard < 10_000, "bootstrap must terminate");
    }
    assert_eq!(st, BootstrapState::Failed { reason: BootstrapError::DeadlineExhausted });
    assert_eq!(spawns, 1);
    // The initial attempt, one after the spawn, and one per budgeted retry.
    assert_eq!(connect_attempts, 2 + RETRY_BUDGET);
}
