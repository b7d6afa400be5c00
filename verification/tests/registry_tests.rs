use vmm::registry::{DesiredState, LiveVm, ObservedState, RestartPass, VmDeclaration, VmRegistry};

fn decl(id: &str, desired: DesiredState) -> VmDeclaration {
    VmDeclaration { id: id.to_string(), desired }
}

fn live(id: &str, observed: ObservedState) -> LiveVm {
    LiveVm { id: id.to_string(), observed }
}

#[test]
fn reload_reconciles_declarations_against_live_list() {
    let decls = vec![
        decl("vm-a", DesiredState::Running),
        decl("vm-b", DesiredState::Stopped),
        decl("vm-c", DesiredState::Running),
    ];
    // vm-a outlived a prior control-plane crash; vm-c exited; vm-b is not
    // reported at all.
    let live_list = vec![
        live("vm-a", ObservedState::Running),
        live("vm-c", ObservedState::Exited),
        live("other", ObservedState::Running),
    ];
    let reg = VmRegistry::reload(&decls, &live_list);
    assert_eq!(reg.len(), 3);
    assert_eq!(reg.records[0].id, "vm-a");
    assert_eq!(reg.records[0].desired, DesiredState::Running);
    assert_eq!(reg.records[0].observed, ObservedState::Running);
    assert_eq!(reg.records[1].id, "vm-b");
    assert_eq!(reg.records[1].observed, ObservedState::Unknown);
    assert_eq!(reg.records[2].id, "vm-c");
    assert_eq!(reg.records[2].observed, ObservedState::Exited);
}

fn exited_registry() -> VmRegistry {
    let decls = vec![
        decl("vm-1", DesiredState::Running),
        decl("vm-2", DesiredState::Running),
        decl("vm-3", DesiredState::Running),
    ];
    let live_list = vec![
        live("vm-1", ObservedState::Exited),
        live("vm-2", ObservedState::Exited),
        live("vm-3", ObservedState::Exited),
    ];
    VmRegistry::reload(&decls, &live_list)
}

#[test]
fn reconcile_attempts_all_and_reports_only_failures() {
    // Three VMs desired=running/observed=exited; restarting the second
    // fails. The pass still attempts the first and the third, and the
    // returned error references only the second.
    let reg = exited_registry();
    let mut pass = RestartPass::begin(&reg);
    let mut attempted: Vec<String> = Vec::new();
    while let Some(id) = pass.next_target() {
        let ok = id != "vm-2";
        attempted.push(id);
        pass.record_outcome(ok);
    }
    assert!(pass.is_complete());
    assert_eq!(attempted, vec!["vm-1", "vm-2", "vm-3"]);
    let err = pass.outcome().unwrap_err();
    assert_eq!(err.failed, vec!["vm-2".to_string()]);
    assert_eq!(err.describe(), "failed to restart VMs: vm-2");
}

#[test]
fn restart_failure_message_lists_every_failed_id() {
    let reg = exited_registry();
    let mut pass = RestartPass::begin(&reg);
    while let Some(_id) = pass.next_target() {
        pass.record_outcome(false);
    }
    let err = pass.outcome().unwrap_err();
    assert_eq!(err.describe(), "failed to restart VMs: vm-1, vm-2, vm-3");
}

#[test]
fn reconcile_succeeds_when_every_restart_succeeds() {
    let reg = exited_registry();
    let mut pass = RestartPass::begin(&reg);
    let mut attempted = 0;
    while let Some(_id) = pass.next_target() {
        attempted += 1;
        pass.record_outcome(true);
    }
    assert_eq!(attempted, 3);
    assert!(pass.outcome().is_ok());
}

#[test]
fn reconcile_targets_only_eligible_records() {
    let decls = vec![
        decl("wants-restart", DesiredState::Running),
        decl("stopped-and-exited", DesiredState::Stopped),
        decl("still-running", DesiredState::Running),
        decl("never-seen", DesiredState::Running),
    ];
    let live_list = vec![
        live("wants-restart", ObservedState::Exited),
        live("stopped-and-exited", ObservedState::Exited),
        live("still-running", ObservedState::Running),
    ];
    let reg = VmRegistry::reload(&decls, &live_list);
    let pass = RestartPass::begin(&reg);
    assert_eq!(pass.targets, vec!["wants-restart".to_string()]);
}

#[test]
fn registry_mutations_are_per_identifier() {
    let decls = vec![decl("vm-x", DesiredState::Running), decl("vm-y", DesiredState::Running)];
    let live_list = vec![live("vm-x", ObservedState::Running)];
    let mut reg = VmRegistry::reload(&decls, &live_list);

    assert!(reg.set_desired(&"vm-y".to_string(), DesiredState::Stopped));
    assert_eq!(reg.records[1].desired, DesiredState::Stopped);
    assert_eq!(reg.records[0].desired, DesiredState::Running);

    assert!(reg.set_observed(&"vm-x".to_string(), ObservedState::Exited));
    assert_eq!(reg.records[0].observed, ObservedState::Exited);

    assert!(!reg.set_desired(&"vm-z".to_string(), DesiredState::Running));

    let got = reg.get(&"vm-x".to_string()).unwrap();
    assert_eq!(got.id, "vm-x");
    assert_eq!(got.observed, ObservedState::Exited);
    assert!(reg.get(&"vm-z".to_string()).is_none());

    assert!(reg.remove(&"vm-x".to_string()));
    assert_eq!(reg.len(), 1);
    assert_eq!(reg.records[0].id, "vm-y");
    assert!(!reg.remove(&"vm-x".to_string()));
}
