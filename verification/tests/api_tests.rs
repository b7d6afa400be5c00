use vmm::api::{external_endpoint_plan, host_bind_start, host_bind_step, host_endpoint_plan,
    race_step, trim_service_prefix, BindChannel, EndpointExit, EndpointKind, HostBindEvent,
    HostBindOp, HostBindState, RaceOp, RaceState, ServiceRole};
use vmm::version::app_version;

#[test]
fn management_prefix_is_trimmed() {
    assert_eq!(trim_service_prefix("Teepod.", "Teepod.CreateVm"), "CreateVm");
}

#[test]
fn bare_method_names_pass_through() {
    assert_eq!(trim_service_prefix("Teepod.", "Status"), "Status");
    assert_eq!(trim_service_prefix("Teepod.", "Teepo"), "Teepo");
    assert_eq!(trim_service_prefix("Teepod.", ""), "");
}

#[test]
fn prefix_alone_trims_to_empty() {
    assert_eq!(trim_service_prefix("Teepod.", "Teepod."), "");
}

#[test]
fn external_endpoint_mounts_and_headers() {
    let version = app_version("0.5.3", "git:1a2b3c");
    let plan = external_endpoint_plan(&version);
    assert_eq!(plan.mounts.len(), 4);
    assert_eq!(plan.mounts[0].path, "/");
    assert_eq!(plan.mounts[0].role, ServiceRole::OperatorRoutes);
    assert_eq!(plan.mounts[1].path, "/guest");
    assert_eq!(plan.mounts[1].role, ServiceRole::GuestApi);
    assert_eq!(plan.mounts[2].path, "/api");
    assert_eq!(plan.mounts[2].role, ServiceRole::HostApi);
    assert_eq!(plan.mounts[3].path, "/prpc");
    assert_eq!(plan.mounts[3].role, ServiceRole::Management);
    assert_eq!(plan.mounts[3].trim_prefix.as_deref(), Some("Teepod."));
    assert!(plan.mounts[0].trim_prefix.is_none());

    assert_eq!(plan.headers.len(), 2);
    assert_eq!(plan.headers[0].name, "X-App-Version");
    assert_eq!(plan.headers[0].value, "v0.5.3 (git:1a2b3c)");
    assert_eq!(plan.headers[1].name, "X-Accel-Buffering");
    assert_eq!(plan.headers[1].value, "no");
}

#[test]
fn host_endpoint_serves_host_api_only() {
    let plan = host_endpoint_plan();
    assert_eq!(plan.mounts.len(), 1);
    assert_eq!(plan.mounts[0].path, "/api");
    assert_eq!(plan.mounts[0].role, ServiceRole::HostApi);
    assert!(plan.headers.is_empty());
}

fn run_host_bind(probe_ok: bool) -> (HostBindState, Vec<HostBindOp>) {
    let mut ops = Vec::new();
    let (mut st, op) = host_bind_start();
    ops.push(op);
    let probe_event = if probe_ok {
        HostBindEvent::ProbeOk
    } else {
        HostBindEvent::ProbeFailed
    };
    for ev in [probe_event, HostBindEvent::BindOk] {
        let (next, op) = host_bind_step(st, ev);
        if let Some(op) = op {
            ops.push(op);
        }
        st = next;
    }
    (st, ops)
}

#[test]
fn host_endpoint_binds_network_when_target_viable() {
    let (st, ops) = run_host_bind(true);
    assert_eq!(st, HostBindState::Serving { channel: BindChannel::Network });
    assert!(ops.contains(&HostBindOp::BindNetwork));
    assert!(!ops.contains(&HostBindOp::BindVsock));
}

#[test]
fn host_endpoint_falls_back_to_vsock() {
    let (st, ops) = run_host_bind(false);
    assert_eq!(st, HostBindState::Serving { channel: BindChannel::Vsock });
    assert!(ops.contains(&HostBindOp::BindVsock));
    assert!(!ops.contains(&HostBindOp::BindNetwork));
}

#[test]
fn unbindable_network_target_falls_back_to_vsock() {
    // The probe found the target, but the actual bind fails: the target
    // is unbindable, so the vsock fallback is attempted and serves.
    let (st, _) = host_bind_start();
    let (st, op) = host_bind_step(st, HostBindEvent::ProbeOk);
    assert_eq!(op, Some(HostBindOp::BindNetwork));
    let (st, op) = host_bind_step(st, HostBindEvent::BindFailed);
    assert_eq!(st, HostBindState::BindingVsock);
    assert_eq!(op, Some(HostBindOp::BindVsock));
    let (st, op) = host_bind_step(st, HostBindEvent::BindOk);
    assert_eq!(st, HostBindState::Serving { channel: BindChannel::Vsock });
    assert_eq!(op, Some(HostBindOp::ServeHostApi));
}

#[test]
fn both_binds_failing_is_fatal() {
    let (st, _) = host_bind_start();
    let (st, _) = host_bind_step(st, HostBindEvent::ProbeOk);
    let (st, _) = host_bind_step(st, HostBindEvent::BindFailed);
    let (st, op) = host_bind_step(st, HostBindEvent::BindFailed);
    assert_eq!(st, HostBindState::BindFailed);
    assert_eq!(op, None);
    // Terminal: no further bind or serve is ever requested.
    let (st, op) = host_bind_step(st, HostBindEvent::BindOk);
    assert_eq!(st, HostBindState::BindFailed);
    assert_eq!(op, None);
}

#[test]
fn absent_target_with_failing_vsock_is_fatal() {
    let (st, _) = host_bind_start();
    let (st, _) = host_bind_step(st, HostBindEvent::ProbeFailed);
    let (st, op) = host_bind_step(st, HostBindEvent::BindFailed);
    assert_eq!(st, HostBindState::BindFailed);
    assert_eq!(op, None);
}

#[test]
fn first_endpoint_exit_decides_the_process() {
    let st = RaceState::BothRunning;
    let (st, op) = race_step(st, EndpointExit { endpoint: EndpointKind::HostApi, ok: false });
    assert_eq!(st, RaceState::Finished { first: EndpointKind::HostApi, ok: false });
    assert_eq!(op, Some(RaceOp::TearDown));
    // The survivor's later termination changes nothing.
    let (st, op) = race_step(st, EndpointExit { endpoint: EndpointKind::External, ok: true });
    assert_eq!(st, RaceState::Finished { first: EndpointKind::HostApi, ok: false });
    assert_eq!(op, None);
}

#[test]
fn successful_exit_also_ends_the_race() {
    let (st, op) = race_step(
        RaceState::BothRunning,
        EndpointExit { endpoint: EndpointKind::External, ok: true },
    );
    assert_eq!(st, RaceState::Finished { first: EndpointKind::External, ok: true });
    assert_eq!(op, Some(RaceOp::TearDown));
}
