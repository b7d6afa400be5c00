use vmm::restart::{restart_loop_init, restart_loop_step, RestartLoopEvent, RestartLoopOp,
    RestartLoopState};

#[test]
fn disabled_loop_never_reconciles() {
    let mut st = restart_loop_init(false);
    assert_eq!(st, RestartLoopState::Disabled);
    // Whatever the process sees, the disabled loop does no work.
    let events = [
        RestartLoopEvent::Tick,
        RestartLoopEvent::PassDone { ok: false },
        RestartLoopEvent::Tick,
        RestartLoopEvent::PassDone { ok: true },
    ];
    for ev in events {
        let (next, op) = restart_loop_step(st, ev);
        assert_eq!(op, None);
        assert_eq!(next, RestartLoopState::Disabled);
        st = next;
    }
}

#[test]
fn enabled_loop_runs_one_pass_per_tick() {
    let mut st = restart_loop_init(true);
    assert_eq!(st, RestartLoopState::Waiting);
    let mut passes = 0;
    for tick in 0..5 {
        let (next, op) = restart_loop_step(st, RestartLoopEvent::Tick);
        assert_eq!(op, Some(RestartLoopOp::RunReconcile));
        passes += 1;
        // Odd cycles fail; the loop swallows the failure and goes on.
        let ok = tick % 2 == 0;
        let (next, op) = restart_loop_step(next, RestartLoopEvent::PassDone { ok });
        assert_eq!(op, None);
        assert_eq!(next, RestartLoopState::Waiting);
        st = next;
    }
    assert_eq!(passes, 5);
}

#[test]
fn failing_pass_does_not_suppress_next_tick() {
    let st = restart_loop_init(true);
    let (st, _) = restart_loop_step(st, RestartLoopEvent::Tick);
    let (st, _) = restart_loop_step(st, RestartLoopEvent::PassDone { ok: false });
    let (_, op) = restart_loop_step(st, RestartLoopEvent::Tick);
    assert_eq!(op, Some(RestartLoopOp::RunReconcile));
}
