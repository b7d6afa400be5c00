//! The dual-endpoint API surface.
//!
//! Three RPC service roles are exposed over two physically distinct
//! endpoints, started concurrently. The external endpoint serves plain
//! management routes, the guest-facing service, the host-facing service
//! and the primary management service (whose fixed name prefix is trimmed
//! from method routing), and stamps two fixed headers on every response.
//! The host endpoint serves the host-facing service only, and probes its
//! bind target at startup: the ordinary network target when viable, else a
//! hypervisor-socket (vsock) listener — exactly one of the two. The
//! process races the two endpoints and takes the first termination,
//! success or error, as its own outcome without waiting for the survivor.

use vstd::prelude::*;

verus! {

/// The fixed name prefix of the primary management service, trimmed from
/// method routing so operator tooling addresses bare method names.
pub open spec fn management_prefix() -> Seq<char> {
    "Teepod."@
}

/// `method` with `prefix` removed when it starts with it, `method` itself
/// otherwise.
pub open spec fn trimmed_method(prefix: Seq<char>, method: Seq<char>) -> Seq<char> {
    if prefix.len() <= method.len() && method.subrange(0, prefix.len() as int) == prefix {
        method.skip(prefix.len() as int)
    } else {
        method
    }
}

/// Strip the service-name prefix from a routed method name, so a request
/// for `Teepod.CreateVm` under the management prefix routes to `CreateVm`
/// while a bare name passes through unchanged.
pub fn trim_service_prefix(prefix: &str, method: &str) -> (r: String)
    ensures
        r@ == trimmed_method(prefix@, method@),
{
    let plen = prefix.unicode_len();
    let mlen = method.unicode_len();
    if plen > mlen {
        return String::from_str(method);
    }
    let mut i: usize = 0;
    while i < plen
        invariant
            plen == prefix@.len(),
            mlen == method@.len(),
            plen <= mlen,
            i <= plen,
            forall|k: int| 0 <= k < i ==> method@[k] == prefix@[k],
        decreases plen - i,
    {
        if method.get_char(i) != prefix.get_char(i) {
            assert(method@.subrange(0, plen as int)[i as int] == method@[i as int]);
            return String::from_str(method);
        }
        i = i + 1;
    }
    assert(method@.subrange(0, plen as int) =~= prefix@);
    let rest = method.substring_char(plen, mlen);
    assert(rest@ =~= method@.skip(plen as int));
    String::from_str(rest)
}

/// The three RPC service roles plus the plain management routes.
#[derive(Clone, Copy, PartialEq, Eq, Structural, Debug)]
pub enum ServiceRole {
    /// Plain management routes at the endpoint root.
    OperatorRoutes,
    /// The RPC service callable by the guest VM.
    GuestApi,
    /// The RPC service facing the host side.
    HostApi,
    /// The primary management RPC service.
    Management,
}

/// One mounted service: where it is mounted, which role it serves, and
/// the service-name prefix trimmed from its method routing, if any.
pub struct RouteMount {
    pub path: String,
    pub role: ServiceRole,
    pub trim_prefix: Option<String>,
}

/// A fixed response header: name and value.
pub struct FixedHeader {
    pub name: String,
    pub value: String,
}

/// What an endpoint serves: its mounts and the fixed headers stamped on
/// every response.
pub struct EndpointPlan {
    pub mounts: Vec<RouteMount>,
    pub headers: Vec<FixedHeader>,
}

/// The external endpoint's plan: the plain management routes at the root,
/// the guest-facing service, the host-facing service, and the management
/// service with its name prefix trimmed — and on every response the
/// application-version header and the response-buffering-disable hint.
pub fn external_endpoint_plan(version: &str) -> (p: EndpointPlan)
    ensures
        p.mounts@.len() == 4,
        p.mounts@[0].path@ == "/"@ && p.mounts@[0].role is OperatorRoutes && p.mounts@[0].trim_prefix
            is None,
        p.mounts@[1].path@ == "/guest"@ && p.mounts@[1].role is GuestApi && p.mounts@[1].trim_prefix
            is None,
        p.mounts@[2].path@ == "/api"@ && p.mounts@[2].role is HostApi && p.mounts@[2].trim_prefix
            is None,
        p.mounts@[3].path@ == "/prpc"@ && p.mounts@[3].role is Management
            && p.mounts@[3].trim_prefix is Some && p.mounts@[3].trim_prefix->0@
            == management_prefix(),
        p.headers@.len() == 2,
        p.headers@[0].name@ == "X-App-Version"@ && p.headers@[0].value@ == version@,
        p.headers@[1].name@ == "X-Accel-Buffering"@ && p.headers@[1].value@ == "no"@,
{
    let mut mounts: Vec<RouteMount> = Vec::new();
    mounts.push(
        RouteMount {
            path: String::from_str("/"),
            role: ServiceRole::OperatorRoutes,
            trim_prefix: None,
        },
    );
    mounts.push(
        RouteMount {
            path: String::from_str("/guest"),
            role: ServiceRole::GuestApi,
            trim_prefix: None,
        },
    );
    mounts.push(
        RouteMount {
            path: String::from_str("/api"),
            role: ServiceRole::HostApi,
            trim_prefix: None,
        },
    );
    mounts.push(
        RouteMount {
            path: String::from_str("/prpc"),
            role: ServiceRole::Management,
            trim_prefix: Some(String::from_str("Teepod.")),
        },
    );
    let mut headers: Vec<FixedHeader> = Vec::new();
    headers.push(
        FixedHeader { name: String::from_str("X-App-Version"), value: String::from_str(version) },
    );
    headers.push(
        FixedHeader { name: String::from_str("X-Accel-Buffering"), value: String::from_str("no") },
    );
    EndpointPlan { mounts, headers }
}

/// The host endpoint's plan: the host-facing service only, with no fixed
/// headers.
pub fn host_endpoint_plan() -> (p: EndpointPlan)
    ensures
        p.mounts@.len() == 1,
        p.mounts@[0].path@ == "/api"@ && p.mounts@[0].role is HostApi && p.mounts@[0].trim_prefix
            is None,
        p.headers@.len() == 0,
{
    let mut mounts: Vec<RouteMount> = Vec::new();
    mounts.push(
        RouteMount {
            path: String::from_str("/api"),
            role: ServiceRole::HostApi,
            trim_prefix: None,
        },
    );
    EndpointPlan { mounts, headers: Vec::new() }
}

/// The channel a host-endpoint listener is bound on.
#[derive(Clone, Copy, PartialEq, Eq, Structural, Debug)]
pub enum BindChannel {
    /// The ordinary network bind target.
    Network,
    /// The hypervisor host↔guest socket, reachable only from guest VMs on
    /// the same host.
    Vsock,
}

/// The operation the host-endpoint driver is asked to perform.
#[derive(Clone, Copy, PartialEq, Eq, Structural, Debug)]
pub enum HostBindOp {
    /// Probe whether the ordinary network bind target is present and
    /// bindable.
    ProbeNetworkTarget,
    /// Bind the network listener.
    BindNetwork,
    /// Bind the vsock listener.
    BindVsock,
    /// Serve the host-facing service on the bound listener.
    ServeHostApi,
}

/// What the host-endpoint driver reports back.
#[derive(Clone, Copy, PartialEq, Eq, Structural, Debug)]
pub enum HostBindEvent {
    /// The network bind target is present and bindable.
    ProbeOk,
    /// The network bind target is absent or unbindable.
    ProbeFailed,
    /// The requested bind succeeded.
    BindOk,
    /// The requested bind failed.
    BindFailed,
}

/// The host-endpoint bind machine's state.
#[derive(Clone, Copy, PartialEq, Eq, Structural, Debug)]
pub enum HostBindState {
    /// The viability probe of the network target is outstanding.
    Probing,
    /// The network bind is outstanding.
    BindingNetwork,
    /// The vsock fallback bind is outstanding: the network target was
    /// absent or unbindable.
    BindingVsock,
    /// The endpoint serves on the bound channel; terminal.
    Serving { channel: BindChannel },
    /// Neither listener could be bound: the network target was absent or
    /// unbindable, and the vsock fallback failed too. Fatal, terminal.
    BindFailed,
}

/// The pure transition of the bind machine. Viability is probed, never
/// configured: the network target is bound when present and bindable; as
/// soon as it proves absent (the probe fails) or unbindable (its actual
/// bind fails), the machine falls back to the vsock listener. Only both
/// failing is fatal.
pub open spec fn spec_bind_step(st: HostBindState, ev: HostBindEvent) -> (
    HostBindState,
    Option<HostBindOp>,
) {
    match (st, ev) {
        (HostBindState::Probing, HostBindEvent::ProbeOk) => (
            HostBindState::BindingNetwork,
            Some(HostBindOp::BindNetwork),
        ),
        (HostBindState::Probing, HostBindEvent::ProbeFailed) => (
            HostBindState::BindingVsock,
            Some(HostBindOp::BindVsock),
        ),
        (HostBindState::BindingNetwork, HostBindEvent::BindOk) => (
            HostBindState::Serving { channel: BindChannel::Network },
            Some(HostBindOp::ServeHostApi),
        ),
        (HostBindState::BindingNetwork, HostBindEvent::BindFailed) => (
            HostBindState::BindingVsock,
            Some(HostBindOp::BindVsock),
        ),
        (HostBindState::BindingVsock, HostBindEvent::BindOk) => (
            HostBindState::Serving { channel: BindChannel::Vsock },
            Some(HostBindOp::ServeHostApi),
        ),
        (HostBindState::BindingVsock, HostBindEvent::BindFailed) => (
            HostBindState::BindFailed,
            None,
        ),
        _ => (st, None),
    }
}

/// Begin the host-endpoint bind: the machine starts by asking for the
/// viability probe.
pub fn host_bind_start() -> (r: (HostBindState, HostBindOp))
    ensures
        r.0 == HostBindState::Probing,
        r.1 == HostBindOp::ProbeNetworkTarget,
{
    (HostBindState::Probing, HostBindOp::ProbeNetworkTarget)
}

/// Advance the bind machine by one event; the result is exactly the pure
/// transition.
pub fn host_bind_step(st: HostBindState, ev: HostBindEvent) -> (r: (
    HostBindState,
    Option<HostBindOp>,
))
    ensures
        r == spec_bind_step(st, ev),
{
    match (st, ev) {
        (HostBindState::Probing, HostBindEvent::ProbeOk) => (
            HostBindState::BindingNetwork,
            Some(HostBindOp::BindNetwork),
        ),
        (HostBindState::Probing, HostBindEvent::ProbeFailed) => (
            HostBindState::BindingVsock,
            Some(HostBindOp::BindVsock),
        ),
        (HostBindState::BindingNetwork, HostBindEvent::BindOk) => (
            HostBindState::Serving { channel: BindChannel::Network },
            Some(HostBindOp::ServeHostApi),
        ),
        (HostBindState::BindingNetwork, HostBindEvent::BindFailed) => (
            HostBindState::BindingVsock,
            Some(HostBindOp::BindVsock),
        ),
        (HostBindState::BindingVsock, HostBindEvent::BindOk) => (
            HostBindState::Serving { channel: BindChannel::Vsock },
            Some(HostBindOp::ServeHostApi),
        ),
        (HostBindState::BindingVsock, HostBindEvent::BindFailed) => (
            HostBindState::BindFailed,
            None,
        ),
        _ => (st, None),
    }
}

/// How many times a run of the bind machine from `st` through `evs` asks
/// for `op`.
pub open spec fn bind_op_count(st: HostBindState, evs: Seq<HostBindEvent>, op: HostBindOp) -> nat
    decreases evs.len(),
{
    if evs.len() == 0 {
        0
    } else {
        (if spec_bind_step(st, evs[0]).1 == Some(op) {
            1nat
        } else {
            0nat
        }) + bind_op_count(spec_bind_step(st, evs[0]).0, evs.skip(1), op)
    }
}

/// How many network bind attempts a run from `st` may still make.
pub open spec fn network_bind_allowance(st: HostBindState) -> nat {
    match st {
        HostBindState::Probing => 1,
        _ => 0,
    }
}

/// How many vsock bind attempts a run from `st` may still make.
pub open spec fn vsock_bind_allowance(st: HostBindState) -> nat {
    match st {
        HostBindState::Probing => 1,
        HostBindState::BindingNetwork => 1,
        _ => 0,
    }
}

/// How many serves a run from `st` may still request.
pub open spec fn serve_allowance(st: HostBindState) -> nat {
    match st {
        HostBindState::Probing => 1,
        HostBindState::BindingNetwork => 1,
        HostBindState::BindingVsock => 1,
        _ => 0,
    }
}

/// A run of the bind machine attempts each listener at most once, and
/// serves at most once — so the endpoint never binds both channels.
pub proof fn lemma_binds_bounded(st: HostBindState, evs: Seq<HostBindEvent>)
    ensures
        bind_op_count(st, evs, HostBindOp::BindNetwork) <= network_bind_allowance(st),
        bind_op_count(st, evs, HostBindOp::BindVsock) <= vsock_bind_allowance(st),
        bind_op_count(st, evs, HostBindOp::ServeHostApi) <= serve_allowance(st),
    decreases evs.len(),
{
    if evs.len() > 0 {
        lemma_binds_bounded(spec_bind_step(st, evs[0]).0, evs.skip(1));
    }
}

/// The bind choice, step by step: the network listener is attempted
/// exactly when the probe succeeds; the vsock listener is attempted
/// exactly when the network target proves absent (the probe fails) or
/// unbindable (its actual bind fails); and the fatal state is reached
/// only when the vsock fallback itself fails.
pub proof fn lemma_bind_choice(st: HostBindState, ev: HostBindEvent)
    ensures
        (spec_bind_step(st, ev).1 == Some(HostBindOp::BindNetwork)) <==> (st is Probing && ev
            is ProbeOk),
        (spec_bind_step(st, ev).1 == Some(HostBindOp::BindVsock)) <==> ((st is Probing && ev
            is ProbeFailed) || (st is BindingNetwork && ev is BindFailed)),
        (spec_bind_step(st, ev).0 is BindFailed) <==> (st is BindFailed || (st is BindingVsock
            && ev is BindFailed)),
{
}

/// The bind fallback, proved of every run that answers the probe and,
/// when the network listener is attempted, answers that bind: the vsock
/// listener is attempted if and only if the ordinary network bind target
/// is absent (the probe failed) or unbindable (its bind failed), the
/// network listener if and only if the probe found it viable — and each
/// at most once, so the endpoint never serves both.
pub proof fn lemma_vsock_iff_network_unviable(evs: Seq<HostBindEvent>)
    requires
        evs.len() > 0,
        evs[0] is ProbeOk || evs[0] is ProbeFailed,
        evs[0] is ProbeOk ==> evs.len() > 1 && (evs[1] is BindOk || evs[1] is BindFailed),
    ensures
        bind_op_count(HostBindState::Probing, evs, HostBindOp::BindVsock) == (if evs[0]
            is ProbeFailed || evs[1] is BindFailed {
            1nat
        } else {
            0nat
        }),
        bind_op_count(HostBindState::Probing, evs, HostBindOp::BindNetwork) == (if evs[0]
            is ProbeOk {
            1nat
        } else {
            0nat
        }),
{
    reveal_with_fuel(bind_op_count, 3);
    let next = spec_bind_step(HostBindState::Probing, evs[0]).0;
    if evs[0] is ProbeFailed {
        lemma_binds_bounded(next, evs.skip(1));
    } else {
        let rest = evs.skip(1);
        assert(rest[0] == evs[1]);
        let next2 = spec_bind_step(next, rest[0]).0;
        lemma_binds_bounded(next2, rest.skip(1));
    }
}

/// The two API endpoints.
#[derive(Clone, Copy, PartialEq, Eq, Structural, Debug)]
pub enum EndpointKind {
    /// The external endpoint on the configured default network target.
    External,
    /// The host endpoint on its own network or vsock target.
    HostApi,
}

/// The termination of one endpoint's task: which endpoint, and whether it
/// exited successfully.
#[derive(Clone, Copy, PartialEq, Eq, Structural, Debug)]
pub struct EndpointExit {
    pub endpoint: EndpointKind,
    pub ok: bool,
}

/// The state of the race between the two endpoint tasks.
#[derive(Clone, Copy, PartialEq, Eq, Structural, Debug)]
pub enum RaceState {
    /// Both endpoints run; the process lives.
    BothRunning,
    /// One endpoint terminated first; its outcome is the process's own.
    /// Terminal.
    Finished { first: EndpointKind, ok: bool },
}

/// The operation the race coordinator is asked to perform.
#[derive(Clone, Copy, PartialEq, Eq, Structural, Debug)]
pub enum RaceOp {
    /// Cancel the surviving endpoint and the restart loop without graceful
    /// drain, and terminate the process.
    TearDown,
}

/// The pure transition of the race: the first exit decides, the second
/// changes nothing.
pub open spec fn spec_race_step(st: RaceState, ex: EndpointExit) -> (RaceState, Option<RaceOp>) {
    match st {
        RaceState::BothRunning => (
            RaceState::Finished { first: ex.endpoint, ok: ex.ok },
            Some(RaceOp::TearDown),
        ),
        RaceState::Finished { .. } => (st, None),
    }
}

/// Advance the race by one endpoint termination. While both run, any
/// termination — success or error — finishes the race at once with that
/// endpoint's outcome and orders the teardown; the race never waits for
/// the other endpoint.
pub fn race_step(st: RaceState, ex: EndpointExit) -> (r: (RaceState, Option<RaceOp>))
    ensures
        r == spec_race_step(st, ex),
        st is BothRunning ==> r.0 == (RaceState::Finished { first: ex.endpoint, ok: ex.ok }) && r.1
            == Some(RaceOp::TearDown),
{
    match st {
        RaceState::BothRunning => (
            RaceState::Finished { first: ex.endpoint, ok: ex.ok },
            Some(RaceOp::TearDown),
        ),
        RaceState::Finished { .. } => (st, None),
    }
}

/// The state of the race after the exits `exs`.
pub open spec fn race_run_state(st: RaceState, exs: Seq<EndpointExit>) -> RaceState
    decreases exs.len(),
{
    if exs.len() == 0 {
        st
    } else {
        race_run_state(spec_race_step(st, exs[0]).0, exs.skip(1))
    }
}

/// How many teardowns a run of the race orders.
pub open spec fn teardown_count(st: RaceState, exs: Seq<EndpointExit>) -> nat
    decreases exs.len(),
{
    if exs.len() == 0 {
        0
    } else {
        (if spec_race_step(st, exs[0]).1 == Some(RaceOp::TearDown) {
            1nat
        } else {
            0nat
        }) + teardown_count(spec_race_step(st, exs[0]).0, exs.skip(1))
    }
}

/// First failure wins: over any run of the race, the process's outcome is
/// exactly the first endpoint termination's — whichever endpoint, success
/// or error — the teardown is ordered exactly once, at that first
/// termination, and later terminations change nothing.
pub proof fn lemma_first_exit_decides(exs: Seq<EndpointExit>)
    requires
        exs.len() > 0,
    ensures
        race_run_state(RaceState::BothRunning, exs) == (RaceState::Finished {
            first: exs[0].endpoint,
            ok: exs[0].ok,
        }),
        teardown_count(RaceState::BothRunning, exs) == 1,
{
    let fin = RaceState::Finished { first: exs[0].endpoint, ok: exs[0].ok };
    lemma_finished_is_terminal(fin, exs.skip(1));
}

/// A finished race stays finished and orders nothing further.
pub proof fn lemma_finished_is_terminal(st: RaceState, exs: Seq<EndpointExit>)
    requires
        st is Finished,
    ensures
        race_run_state(st, exs) == st,
        teardown_count(st, exs) == 0,
    decreases exs.len(),
{
    if exs.len() > 0 {
        lemma_finished_is_terminal(spec_race_step(st, exs[0]).0, exs.skip(1));
    }
}

} // verus!
