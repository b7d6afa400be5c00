//! The shared VM registry: sole owner of VM desired and observed state.
//!
//! One registry instance is shared by every RPC handler and by the restart
//! loop. It is built exactly once, at startup, by reconciling the persisted
//! VM declarations against the supervisor's live process list (a VM may
//! already be running because the supervisor outlived a prior control-plane
//! crash). Mutations go through `&mut` methods, so the registry's own
//! serialization is the only locking callers ever rely on.
//!
//! Reconciliation of exited VMs is a pass: the registry computes every
//! eligible candidate up front, the driver issues one restart request per
//! candidate and records each outcome, and the pass's result aggregates an
//! error referencing exactly the candidates whose restart failed — partial
//! failure is tolerated, never all-or-nothing.

use vstd::prelude::*;

verus! {

/// Operator intent for one VM.
#[derive(Clone, Copy, PartialEq, Eq, Structural, Debug)]
pub enum DesiredState {
    Running,
    Stopped,
}

/// The last state the supervisor reported for one VM.
#[derive(Clone, Copy, PartialEq, Eq, Structural, Debug)]
pub enum ObservedState {
    Running,
    Exited,
    Unknown,
}

/// One managed VM.
pub struct VmRecord {
    /// Unique within the registry.
    pub id: String,
    /// Operator intent.
    pub desired: DesiredState,
    /// Last state reported by the supervisor.
    pub observed: ObservedState,
}

impl VmRecord {
    /// An exact copy of the record.
    pub fn snapshot(&self) -> (r: VmRecord)
        ensures
            r == *self,
    {
        VmRecord { id: self.id.clone(), desired: self.desired, observed: self.observed }
    }
}

/// One persisted VM declaration, as read from the declaration store.
pub struct VmDeclaration {
    pub id: String,
    pub desired: DesiredState,
}

/// One entry of the supervisor's live process list.
pub struct LiveVm {
    pub id: String,
    pub observed: ObservedState,
}

/// Identifiers are pairwise distinct.
pub open spec fn decl_ids_unique(decls: Seq<VmDeclaration>) -> bool {
    forall|i: int, j: int|
        0 <= i < j < decls.len() ==> decls[i].id@ != decls[j].id@
}

/// The state the supervisor reports for `id`, or `Unknown` when its live
/// process list does not mention the VM.
pub open spec fn observed_of(live: Seq<LiveVm>, id: Seq<char>) -> ObservedState
    decreases live.len(),
{
    if live.len() == 0 {
        ObservedState::Unknown
    } else if live[0].id@ == id {
        live[0].observed
    } else {
        observed_of(live.skip(1), id)
    }
}

/// Look `id` up in the supervisor's live process list.
fn lookup_observed(live: &Vec<LiveVm>, id: &String) -> (r: ObservedState)
    ensures
        r == observed_of(live@, id@),
{
    let n = live.len();
    let mut i: usize = 0;
    assert(live@.skip(0) =~= live@);
    while i < n
        invariant
            n == live@.len(),
            i <= n,
            observed_of(live@, id@) == observed_of(live@.skip(i as int), id@),
        decreases n - i,
    {
        assert(live@.skip(i as int)[0] == live@[i as int]);
        if live[i].id == *id {
            return live[i].observed;
        }
        assert(live@.skip(i as int).skip(1) =~= live@.skip(i as int + 1));
        i = i + 1;
    }
    assert(live@.skip(n as int) =~= Seq::<LiveVm>::empty());
    ObservedState::Unknown
}

/// The registry. Well-formed when its identifiers are unique; every
/// constructor establishes this and every method preserves it.
pub struct VmRegistry {
    pub records: Vec<VmRecord>,
}

impl VmRegistry {
    /// Identifiers are unique across the registry.
    pub open spec fn wf(&self) -> bool {
        forall|i: int, j: int|
            0 <= i < j < self.records@.len() ==> self.records@[i].id@ != self.records@[j].id@
    }

    /// Build the registry from the persisted declarations and the
    /// supervisor's live process list: one record per declaration, the
    /// desired state as declared, the observed state as currently reported
    /// by the supervisor. Runs exactly once, at startup.
    pub fn reload(decls: &Vec<VmDeclaration>, live: &Vec<LiveVm>) -> (r: VmRegistry)
        requires
            decl_ids_unique(decls@),
        ensures
            r.wf(),
            r.records@.len() == decls@.len(),
            forall|i: int|
                0 <= i < decls@.len() ==> {
                    &&& (#[trigger] r.records@[i]).id@ == decls@[i].id@
                    &&& r.records@[i].desired == decls@[i].desired
                    &&& r.records@[i].observed == observed_of(live@, decls@[i].id@)
                },
    {
        let n = decls.len();
        let mut records: Vec<VmRecord> = Vec::new();
        let mut i: usize = 0;
        while i < n
            invariant
                n == decls@.len(),
                i <= n,
                decl_ids_unique(decls@),
                records@.len() == i,
                forall|k: int|
                    0 <= k < i ==> {
                        &&& (#[trigger] records@[k]).id@ == decls@[k].id@
                        &&& records@[k].desired == decls@[k].desired
                        &&& records@[k].observed == observed_of(live@, decls@[k].id@)
                    },
            decreases n - i,
        {
            let observed = lookup_observed(live, &decls[i].id);
            records.push(
                VmRecord { id: decls[i].id.clone(), desired: decls[i].desired, observed },
            );
            i = i + 1;
        }
        VmRegistry { records }
    }

    /// A record is eligible for an automatic restart when the operator
    /// wants it running but the supervisor last reported it exited.
    pub open spec fn wants_restart(r: VmRecord) -> bool {
        r.desired is Running && r.observed is Exited
    }

    /// How many records the registry holds.
    pub fn len(&self) -> (n: usize)
        ensures
            n == self.records@.len(),
    {
        self.records.len()
    }
}

/// The identifiers of the restart-eligible records, in registry order.
pub open spec fn restart_target_ids(rs: Seq<VmRecord>) -> Seq<Seq<char>>
    decreases rs.len(),
{
    if rs.len() == 0 {
        Seq::empty()
    } else {
        restart_target_ids(rs.drop_last()) + (if VmRegistry::wants_restart(rs.last()) {
            seq![rs.last().id@]
        } else {
            Seq::<Seq<char>>::empty()
        })
    }
}

/// The identifier views of a list of identifiers.
pub open spec fn id_views(ids: Seq<String>) -> Seq<Seq<char>> {
    ids.map_values(|s: String| s@)
}

/// Identifier views joined by a comma and a space.
pub open spec fn comma_joined(ids: Seq<Seq<char>>) -> Seq<char>
    decreases ids.len(),
{
    if ids.len() == 0 {
        Seq::empty()
    } else if ids.len() == 1 {
        ids[0]
    } else {
        comma_joined(ids.drop_last()) + ", "@ + ids.last()
    }
}

impl RestartFailure {
    /// The aggregated message: names the failing phase and references
    /// exactly the candidates whose restart failed.
    pub fn describe(&self) -> (r: String)
        ensures
            r@ == "failed to restart VMs: "@ + comma_joined(id_views(self.failed@)),
    {
        let mut s = String::from_str("failed to restart VMs: ");
        let n = self.failed.len();
        let mut i: usize = 0;
        while i < n
            invariant
                n == self.failed@.len(),
                i <= n,
                s@ == "failed to restart VMs: "@ + comma_joined(id_views(self.failed@.take(i as int))),
            decreases n - i,
        {
            if i > 0 {
                s.append(", ");
            }
            s.append(self.failed[i].as_str());
            proof {
                let ids = id_views(self.failed@.take(i as int + 1));
                assert(ids.drop_last() =~= id_views(self.failed@.take(i as int)));
                assert(ids.last() == self.failed@[i as int]@);
                if i == 0 {
                    assert(comma_joined(ids) == self.failed@[0]@);
                    assert(s@ =~= "failed to restart VMs: "@ + comma_joined(ids));
                } else {
                    assert(comma_joined(ids) == comma_joined(id_views(self.failed@.take(i as int)))
                        + ", "@ + self.failed@[i as int]@);
                    assert(s@ =~= "failed to restart VMs: "@ + comma_joined(ids));
                }
            }
            i = i + 1;
        }
        proof {
            assert(self.failed@.take(n as int) =~= self.failed@);
        }
        s
    }
}

/// One reconciliation pass over exited VMs. The pass holds every eligible
/// candidate; the driver walks them in order, issues one restart request
/// per candidate, and records each outcome. The pass is complete only once
/// every candidate has been attempted, so failures never cut it short.
pub struct RestartPass {
    /// The eligible candidates, fixed when the pass begins.
    pub targets: Vec<String>,
    /// How many candidates have been attempted so far.
    pub attempted: usize,
    /// The candidates whose restart failed, in attempt order.
    pub failed: Vec<String>,
}

/// The aggregated failure of a reconciliation pass: references exactly the
/// candidates whose restart failed, and no others.
pub struct RestartFailure {
    pub failed: Vec<String>,
}

impl RestartPass {
    /// The pass's bookkeeping is consistent.
    pub open spec fn wf(&self) -> bool {
        &&& self.attempted <= self.targets@.len()
        &&& self.failed@.len() <= self.attempted
    }

    /// Begin a reconciliation pass: collect every eligible candidate from
    /// the registry, in registry order.
    pub fn begin(reg: &VmRegistry) -> (p: RestartPass)
        ensures
            p.wf(),
            id_views(p.targets@) == restart_target_ids(reg.records@),
            p.attempted == 0,
            p.failed@.len() == 0,
    {
        let n = reg.records.len();
        let mut targets: Vec<String> = Vec::new();
        let mut i: usize = 0;
        while i < n
            invariant
                n == reg.records@.len(),
                i <= n,
                id_views(targets@) == restart_target_ids(reg.records@.take(i as int)),
            decreases n - i,
        {
            let rec = &reg.records[i];
            let ghost pre = targets@;
            if matches!(rec.desired, DesiredState::Running) && matches!(
                rec.observed,
                ObservedState::Exited,
            ) {
                targets.push(rec.id.clone());
                assert(id_views(targets@) =~= id_views(pre).push(rec.id@));
            }
            proof {
                assert(reg.records@.take(i as int + 1).drop_last() =~= reg.records@.take(i as int));
                assert(reg.records@.take(i as int + 1).last() == reg.records@[i as int]);
                if VmRegistry::wants_restart(reg.records@[i as int]) {
                    assert(restart_target_ids(reg.records@.take(i as int + 1))
                        =~= restart_target_ids(reg.records@.take(i as int)).push(
                        reg.records@[i as int].id@,
                    ));
                } else {
                    assert(restart_target_ids(reg.records@.take(i as int + 1))
                        =~= restart_target_ids(reg.records@.take(i as int)));
                }
            }
            i = i + 1;
        }
        proof {
            assert(reg.records@.take(n as int) =~= reg.records@);
        }
        RestartPass { targets, attempted: 0, failed: Vec::new() }
    }

    /// The next candidate to attempt, or nothing when the pass is
    /// complete.
    pub fn next_target(&self) -> (r: Option<String>)
        ensures
            match r {
                Some(id) => self.attempted < self.targets@.len() && id@ == self.targets@[
                    self.attempted as int
                ]@,
                None => self.attempted >= self.targets@.len(),
            },
    {
        if self.attempted < self.targets.len() {
            Some(self.targets[self.attempted].clone())
        } else {
            None
        }
    }

    /// Record the outcome of the restart request for the current
    /// candidate and move to the next. A failure is recorded — the pass
    /// still goes on to attempt every remaining candidate.
    pub fn record_outcome(&mut self, ok: bool)
        requires
            old(self).wf(),
            old(self).attempted < old(self).targets@.len(),
        ensures
            final(self).wf(),
            final(self).targets@ == old(self).targets@,
            final(self).attempted == old(self).attempted + 1,
            final(self).failed@ == (if ok {
                old(self).failed@
            } else {
                old(self).failed@.push(old(self).targets@[old(self).attempted as int])
            }),
    {
        let n = self.targets.len();
        if !ok {
            let id = self.targets[self.attempted].clone();
            self.failed.push(id);
        }
        assert(self.attempted < n);
        self.attempted = self.attempted + 1;
    }

    /// Whether every candidate has been attempted.
    pub fn is_complete(&self) -> (r: bool)
        ensures
            r == (self.attempted >= self.targets@.len()),
    {
        self.attempted >= self.targets.len()
    }

    /// The pass's aggregated result. Only available once every candidate
    /// has been attempted; fails exactly when some candidate's restart
    /// failed, and the failure references exactly those candidates.
    pub fn outcome(self) -> (r: Result<(), RestartFailure>)
        requires
            self.attempted >= self.targets@.len(),
        ensures
            match r {
                Ok(()) => self.failed@.len() == 0,
                Err(f) => f.failed@.len() > 0 && f.failed@ == self.failed@,
            },
    {
        if self.failed.len() == 0 {
            Ok(())
        } else {
            Err(RestartFailure { failed: self.failed })
        }
    }
}

/// Where `id` lives in the registry, if anywhere.
fn find_index(reg: &VmRegistry, id: &String) -> (r: Option<usize>)
    ensures
        match r {
            Some(idx) => idx < reg.records@.len() && reg.records@[idx as int].id@ == id@,
            None => forall|i: int| 0 <= i < reg.records@.len() ==> reg.records@[i].id@ != id@,
        },
{
    let n = reg.records.len();
    let mut i: usize = 0;
    while i < n
        invariant
            n == reg.records@.len(),
            i <= n,
            forall|k: int| 0 <= k < i ==> reg.records@[k].id@ != id@,
        decreases n - i,
    {
        if reg.records[i].id == *id {
            return Some(i);
        }
        i = i + 1;
    }
    None
}

impl VmRegistry {
    /// The record for `id`, if the registry holds one.
    pub fn get(&self, id: &String) -> (r: Option<VmRecord>)
        ensures
            match r {
                Some(rec) => exists|i: int|
                    0 <= i < self.records@.len() && self.records@[i] == rec && rec.id@ == id@,
                None => forall|i: int| 0 <= i < self.records@.len() ==> self.records@[i].id@ != id@,
            },
    {
        match find_index(self, id) {
            Some(idx) => Some(self.records[idx].snapshot()),
            None => None,
        }
    }

    /// Set the operator intent for `id`. Returns whether the registry
    /// holds such a VM; every other record is untouched.
    pub fn set_desired(&mut self, id: &String, desired: DesiredState) -> (found: bool)
        requires
            old(self).wf(),
        ensures
            final(self).wf(),
            final(self).records@.len() == old(self).records@.len(),
            found ==> exists|i: int|
                {
                    &&& 0 <= i < old(self).records@.len()
                    &&& old(self).records@[i].id@ == id@
                    &&& final(self).records@ == old(self).records@.update(
                        i,
                        VmRecord {
                            id: old(self).records@[i].id,
                            desired,
                            observed: old(self).records@[i].observed,
                        },
                    )
                },
            !found ==> final(self).records@ == old(self).records@ && forall|i: int|
                0 <= i < old(self).records@.len() ==> old(self).records@[i].id@ != id@,
    {
        match find_index(self, id) {
            Some(idx) => {
                let ghost i = idx as int;
                let observed = self.records[idx].observed;
                let rec_id = self.records[idx].id.clone();
                self.records.set(idx, VmRecord { id: rec_id, desired, observed });
                proof {
                    assert(self.records@ == old(self).records@.update(
                        i,
                        VmRecord {
                            id: old(self).records@[i].id,
                            desired,
                            observed: old(self).records@[i].observed,
                        },
                    ));
                }
                true
            },
            None => false,
        }
    }

    /// Record the state the supervisor reported for `id`. Returns whether
    /// the registry holds such a VM; every other record is untouched.
    pub fn set_observed(&mut self, id: &String, observed: ObservedState) -> (found: bool)
        requires
            old(self).wf(),
        ensures
            final(self).wf(),
            final(self).records@.len() == old(self).records@.len(),
            found ==> exists|i: int|
                {
                    &&& 0 <= i < old(self).records@.len()
                    &&& old(self).records@[i].id@ == id@
                    &&& final(self).records@ == old(self).records@.update(
                        i,
                        VmRecord {
                            id: old(self).records@[i].id,
                            desired: old(self).records@[i].desired,
                            observed,
                        },
                    )
                },
            !found ==> final(self).records@ == old(self).records@ && forall|i: int|
                0 <= i < old(self).records@.len() ==> old(self).records@[i].id@ != id@,
    {
        match find_index(self, id) {
            Some(idx) => {
                let ghost i = idx as int;
                let desired = self.records[idx].desired;
                let rec_id = self.records[idx].id.clone();
                self.records.set(idx, VmRecord { id: rec_id, desired, observed });
                proof {
                    assert(self.records@ == old(self).records@.update(
                        i,
                        VmRecord {
                            id: old(self).records@[i].id,
                            desired: old(self).records@[i].desired,
                            observed,
                        },
                    ));
                }
                true
            },
            None => false,
        }
    }

    /// Remove `id` from the registry on explicit deletion. Returns whether
    /// such a VM was held; the remaining records keep their order.
    pub fn remove(&mut self, id: &String) -> (found: bool)
        requires
            old(self).wf(),
        ensures
            final(self).wf(),
            found ==> exists|i: int|
                {
                    &&& 0 <= i < old(self).records@.len()
                    &&& old(self).records@[i].id@ == id@
                    &&& final(self).records@ == old(self).records@.remove(i)
                },
            !found ==> final(self).records@ == old(self).records@ && forall|i: int|
                0 <= i < old(self).records@.len() ==> old(self).records@[i].id@ != id@,
    {
        match find_index(self, id) {
            Some(idx) => {
                let ghost i = idx as int;
                self.records.remove(idx);
                proof {
                    assert(self.records@ == old(self).records@.remove(i));
                    assert forall|p: int, q: int|
                        0 <= p < q < self.records@.len() implies self.records@[p].id@
                        != self.records@[q].id@ by {
                        let op = if p < i {
                            p
                        } else {
                            p + 1
                        };
                        let oq = if q < i {
                            q
                        } else {
                            q + 1
                        };
                        assert(self.records@[p] == old(self).records@[op]);
                        assert(self.records@[q] == old(self).records@[oq]);
                    }
                }
                true
            },
            None => false,
        }
    }
}

} // verus!
