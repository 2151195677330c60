//! The ordered stages that prepare a container runtime for a task.
use vstd::prelude::*;
use crate::error::{lemma_unit, RunnerError};

verus! {

/// The parts of an effective container policy that runtime preparation reads.
#[derive(Debug)]
pub struct ContainerPolicy {
    pub name: String,
    pub primary_service: String,
    pub compose_files: Vec<String>,
    pub dns_routes: Vec<String>,
    pub service_aliases: Vec<String>,
    pub shared_services: Vec<String>,
    pub workspace_user: Option<String>,
    pub workspace_home: Option<String>,
}

/// Whether a task activation refreshes the host container lease.
#[derive(Debug, Clone, Copy, PartialEq, Eq, Structural)]
pub enum LeaseRefreshPolicy {
    RefreshOnActivation,
    SkipRefresh,
}

/// The runtime session a task runs in.
#[derive(Debug, Clone, Copy, PartialEq, Eq, Structural)]
pub struct RuntimeSessionContext {
    pub lease_refresh_policy: LeaseRefreshPolicy,
}

/// The lease policy of a runtime activation plan.
#[derive(Debug, Clone, Copy, PartialEq, Eq, Structural)]
pub enum RuntimeLeasePolicy {
    RefreshOnActivation,
    Skip,
}

/// What a runtime activation serves: a task run in the runtime, or a
/// database seed.
#[derive(Debug, Clone, Copy, PartialEq, Eq, Structural)]
pub enum RuntimeActivationRoute {
    Task,
    DataSeed,
}

/// What a runtime activation will do, before it does it.
#[derive(Debug, PartialEq, Eq)]
pub struct RuntimeActivationPlan {
    pub repo_root: String,
    pub policy_name: String,
    pub container_name: Option<String>,
    pub repo_override: Option<String>,
    pub route: RuntimeActivationRoute,
    pub register_gateway_routes: bool,
    pub lease_policy: RuntimeLeasePolicy,
}

/// The outcome of activating a container runtime for a task.
#[derive(Debug, Clone, Copy, PartialEq, Eq, Structural)]
pub struct ContainerTaskActivation {
    pub system_was_running: bool,
    pub refreshed_host_container_lease: bool,
}

/// A request to bring a container system up, detached.
#[derive(Debug, PartialEq, Eq)]
pub struct ContainerUpRequest {
    pub name: Option<String>,
    pub attach: bool,
    pub detach: bool,
    pub repo_override: Option<String>,
    pub output_json: bool,
}

/// The session context of a data-seed run: the default one, which refreshes
/// the host container lease on activation.
pub fn data_seed_runtime_session_context() -> (r: RuntimeSessionContext)
    ensures
        r.lease_refresh_policy == LeaseRefreshPolicy::RefreshOnActivation,
{
    RuntimeSessionContext::default()
}

impl RuntimeSessionContext {
    /// The default session refreshes the lease on activation.
    pub fn default() -> (r: RuntimeSessionContext)
        ensures
            r.lease_refresh_policy == LeaseRefreshPolicy::RefreshOnActivation,
    {
        RuntimeSessionContext { lease_refresh_policy: LeaseRefreshPolicy::RefreshOnActivation }
    }
}

pub open spec fn lease_policy_of(s: RuntimeSessionContext) -> RuntimeLeasePolicy {
    match s.lease_refresh_policy {
        LeaseRefreshPolicy::RefreshOnActivation => RuntimeLeasePolicy::RefreshOnActivation,
        LeaseRefreshPolicy::SkipRefresh => RuntimeLeasePolicy::Skip,
    }
}

/// The lease policy that a session context asks for.
pub fn runtime_lease_policy(session_context: RuntimeSessionContext) -> (r: RuntimeLeasePolicy)
    ensures
        r == lease_policy_of(session_context),
{
    match session_context.lease_refresh_policy {
        LeaseRefreshPolicy::RefreshOnActivation => RuntimeLeasePolicy::RefreshOnActivation,
        LeaseRefreshPolicy::SkipRefresh => RuntimeLeasePolicy::Skip,
    }
}

/// The activation plan for a repository: the override defaults to the
/// repository itself, and the lease policy follows the session.
pub fn build_runtime_activation_plan(
    repo_root: &str,
    policy_name: &str,
    container_name: Option<&str>,
    repo_override: Option<String>,
    route: RuntimeActivationRoute,
    register_gateway_routes: bool,
    session_context: RuntimeSessionContext,
) -> (r: RuntimeActivationPlan)
    ensures
        r.route == route,
        r.repo_root@ == repo_root@,
        r.policy_name@ == policy_name@,
        match container_name {
            Some(c) => r.container_name matches Some(n) && n@ == c@,
            None => r.container_name is None,
        },
        match repo_override {
            Some(o) => r.repo_override matches Some(n) && n@ == o@,
            None => r.repo_override matches Some(n) && n@ == repo_root@,
        },
        r.register_gateway_routes == register_gateway_routes,
        r.lease_policy == lease_policy_of(session_context),
{
    let repo_override = match repo_override {
        Some(o) => o,
        None => repo_root.to_owned(),
    };
    let container_name = match container_name {
        Some(c) => Some(c.to_owned()),
        None => None,
    };
    RuntimeActivationPlan {
        repo_root: repo_root.to_owned(),
        policy_name: policy_name.to_owned(),
        container_name,
        repo_override: Some(repo_override),
        route,
        register_gateway_routes,
        lease_policy: runtime_lease_policy(session_context),
    }
}

/// The activation plan of a database seed: the data-seed route, the
/// repository as its own override, the seed's container and the session's
/// lease policy. Whether gateway routes are registered is the container
/// policy's decision for this route, handed in.
pub fn db_seed_runtime_activation_plan(
    repo_root: &str,
    policy_name: &str,
    container_name: Option<&str>,
    register_gateway_routes: bool,
    session_context: RuntimeSessionContext,
) -> (r: RuntimeActivationPlan)
    ensures
        r.repo_root@ == repo_root@,
        r.policy_name@ == policy_name@,
        match container_name {
            Some(c) => r.container_name matches Some(n) && n@ == c@,
            None => r.container_name is None,
        },
        r.repo_override matches Some(n) && n@ == repo_root@,
        r.route == RuntimeActivationRoute::DataSeed,
        r.register_gateway_routes == register_gateway_routes,
        r.lease_policy == lease_policy_of(session_context),
{
    build_runtime_activation_plan(
        repo_root,
        policy_name,
        container_name,
        Some(repo_root.to_owned()),
        RuntimeActivationRoute::DataSeed,
        register_gateway_routes,
        session_context,
    )
}

/// Whether a container policy exposes anything through the gateway: DNS
/// routes, service aliases or shared services.
pub fn container_policy_uses_gateway_surface(policy: &ContainerPolicy) -> (r: bool)
    ensures
        r == !(policy.dns_routes@.len() == 0 && policy.service_aliases@.len() == 0
            && policy.shared_services@.len() == 0),
{
    !(policy.dns_routes.len() == 0 && policy.service_aliases.len() == 0
        && policy.shared_services.len() == 0)
}

/// Runs the preparation stages in their fixed order: mounts, compose up
/// (whose failure does not stop preparation), exec readiness, then alias
/// reconciliation. The first failing stage ends preparation with its error.
pub fn run_runtime_prep_steps<P, C, X, A>(
    prepare_mounts: P,
    compose_up: C,
    ensure_exec_ready: X,
    reconcile_aliases: A,
) -> (r: Result<(), RunnerError>) where
    P: FnOnce() -> Result<(), RunnerError>,
    C: FnOnce(),
    X: FnOnce() -> Result<(), RunnerError>,
    A: FnOnce() -> Result<(), RunnerError>,

    requires
        prepare_mounts.requires(()),
        compose_up.requires(()),
        ensure_exec_ready.requires(()),
        reconcile_aliases.requires(()),
    ensures
        r is Ok ==> prepare_mounts.ensures((), Ok(())) && ensure_exec_ready.ensures((), Ok(()))
            && reconcile_aliases.ensures((), Ok(())),
        r matches Err(e) ==> {
            ||| prepare_mounts.ensures((), Err(e))
            ||| prepare_mounts.ensures((), Ok(())) && ensure_exec_ready.ensures((), Err(e))
            ||| prepare_mounts.ensures((), Ok(())) && ensure_exec_ready.ensures((), Ok(()))
                && reconcile_aliases.ensures((), Err(e))
        },
{
    let prepare_mounts_result = prepare_mounts();
    match prepare_mounts_result {
        Ok(u) => {
            proof {
                lemma_unit(u);
            }
        },
        Err(e) => return Err(e),
    }
    compose_up();
    let ensure_exec_ready_result = ensure_exec_ready();
    match ensure_exec_ready_result {
        Ok(u) => {
            proof {
                lemma_unit(u);
            }
        },
        Err(e) => return Err(e),
    }
    let reconcile_aliases_result = reconcile_aliases();
    match reconcile_aliases_result {
        Ok(u) => {
            proof {
                lemma_unit(u);
            }
        },
        Err(e) => return Err(e),
    }
    Ok(())
}

/// The error for a primary service that never accepted `exec`.
pub open spec fn is_exec_not_ready(e: RunnerError, policy: &ContainerPolicy, working_dir: Seq<char>) -> bool {
    e matches RunnerError::ContainerRuntimeExecNotReady { policy: p, service: s, working_dir: w }
        && p@ == policy.name@ && s@ == policy.primary_service@ && w@ == working_dir
}

/// Probes exec readiness for two seconds; if that fails, restarts the
/// primary service once and, if the restart succeeds, probes again for
/// fifteen seconds.
pub fn ensure_primary_service_exec_ready_with_recovery_using<P, R>(
    policy: &ContainerPolicy,
    working_dir: &str,
    probe: P,
    restart: R,
) -> (r: Result<(), RunnerError>) where P: Fn(u64) -> bool, R: Fn() -> Result<(), RunnerError>,
    requires
        probe.requires((2u64,)),
        probe.requires((15u64,)),
        restart.requires(()),
    ensures
        r is Ok ==> probe.ensures((2u64,), true) || (restart.ensures((), Ok(()))
            && probe.ensures((15u64,), true)),
        r matches Err(e) ==> is_exec_not_ready(e, policy, working_dir@) && probe.ensures((2u64,), false)
            && exists|x: Result<(), RunnerError>|
            #[trigger] restart.ensures((), x) && (x is Err || probe.ensures((15u64,), false)),
{
    let first = probe(2);
    if first {
        return Ok(());
    }
    let restarted = restart();
    assert(restart.ensures((), restarted));
    if let Ok(u) = restarted {
        proof {
            lemma_unit(u);
        }
        let ready = probe(15);
        if ready {
            return Ok(());
        }
    }
    Err(
        RunnerError::ContainerRuntimeExecNotReady {
            policy: policy.name.clone(),
            service: policy.primary_service.clone(),
            working_dir: working_dir.to_owned(),
        },
    )
}

/// Refreshes the host container lease when the plan asks for it; reports
/// whether a refresh happened.
pub fn refresh_runtime_lease_stage<F>(
    plan: &RuntimeActivationPlan,
    system_was_running: bool,
    refresh_host_container_lease: F,
) -> (r: Result<bool, RunnerError>) where F: FnOnce(bool) -> Result<bool, RunnerError>,
    requires
        refresh_host_container_lease.requires((system_was_running,)),
    ensures
        plan.lease_policy != RuntimeLeasePolicy::RefreshOnActivation ==> r == Ok::<
            bool,
            RunnerError,
        >(false),
        plan.lease_policy == RuntimeLeasePolicy::RefreshOnActivation
            ==> refresh_host_container_lease.ensures((system_was_running,), r),
{
    match plan.lease_policy {
        RuntimeLeasePolicy::RefreshOnActivation => refresh_host_container_lease(system_was_running),
        RuntimeLeasePolicy::Skip => Ok(false),
    }
}

/// Activates a container runtime for a task: prepares the runtime, readies
/// workspace permissions, readies the gateway when the plan registers
/// gateway routes, then refreshes the lease as the plan says.
pub fn activate_container_runtime_plan_for_task_using<P, W, G, L>(
    plan: &RuntimeActivationPlan,
    ensure_runtime_prepared: P,
    ensure_workspace_permissions: W,
    ensure_gateway_ready: G,
    refresh_host_container_lease: L,
) -> (r: Result<ContainerTaskActivation, RunnerError>) where
    P: FnOnce() -> Result<bool, RunnerError>,
    W: FnOnce() -> Result<(), RunnerError>,
    G: FnOnce() -> Result<(), RunnerError>,
    L: FnOnce(bool) -> Result<bool, RunnerError>,

    requires
        ensure_runtime_prepared.requires(()),
        ensure_workspace_permissions.requires(()),
        ensure_gateway_ready.requires(()),
        forall|b: bool| refresh_host_container_lease.requires((b,)),
    ensures
        r matches Ok(a) ==> {
            &&& ensure_runtime_prepared.ensures((), Ok(a.system_was_running))
            &&& ensure_workspace_permissions.ensures((), Ok(()))
            &&& plan.register_gateway_routes ==> ensure_gateway_ready.ensures((), Ok(()))
            &&& plan.lease_policy == RuntimeLeasePolicy::RefreshOnActivation
                ==> refresh_host_container_lease.ensures(
                (a.system_was_running,),
                Ok(a.refreshed_host_container_lease),
            )
            &&& plan.lease_policy != RuntimeLeasePolicy::RefreshOnActivation
                ==> !a.refreshed_host_container_lease
        },
        r matches Err(e) ==> {
            ||| ensure_runtime_prepared.ensures((), Err(e))
            ||| ensure_workspace_permissions.ensures((), Err(e))
            ||| plan.register_gateway_routes && ensure_gateway_ready.ensures((), Err(e))
            ||| plan.lease_policy == RuntimeLeasePolicy::RefreshOnActivation && exists|b: bool|
                refresh_host_container_lease.ensures((b,), Err(e))
        },
{
    let ensure_runtime_prepared_result = ensure_runtime_prepared();
    let system_was_running = match ensure_runtime_prepared_result {
        Ok(b) => b,
        Err(e) => return Err(e),
    };
    let ensure_workspace_permissions_result = ensure_workspace_permissions();
    match ensure_workspace_permissions_result {
        Ok(u) => {
            proof {
                lemma_unit(u);
            }
        },
        Err(e) => return Err(e),
    }
    if plan.register_gateway_routes {
        let ensure_gateway_ready_result = ensure_gateway_ready();
    match ensure_gateway_ready_result {
            Ok(u) => {
                proof {
                    lemma_unit(u);
                }
            },
            Err(e) => return Err(e),
        }
    }
    let lease_result = refresh_runtime_lease_stage(
        plan,
        system_was_running,
        refresh_host_container_lease,
    );
    let refreshed = match lease_result {
        Ok(b) => b,
        Err(e) => return Err(e),
    };
    Ok(
        ContainerTaskActivation {
            system_was_running,
            refreshed_host_container_lease: refreshed,
        },
    )
}

/// Brings the container system up, detached, unless it was already running.
pub fn ensure_runtime_running_stage<F>(
    system_was_running: bool,
    container_name: Option<String>,
    repo_override: Option<String>,
    run_container: F,
) -> (r: Result<(), RunnerError>) where F: FnOnce(ContainerUpRequest) -> Result<String, RunnerError>,
    requires
        run_container.requires(
            (
                ContainerUpRequest {
                    name: container_name,
                    attach: false,
                    detach: true,
                    repo_override,
                    output_json: false,
                },
            ),
        ),
    ensures
        system_was_running ==> r is Ok,
        !system_was_running ==> match r {
            Ok(()) => exists|s: String|
                run_container.ensures(
                    (
                        ContainerUpRequest {
                            name: container_name,
                            attach: false,
                            detach: true,
                            repo_override,
                            output_json: false,
                        },
                    ),
                    Ok(s),
                ),
            Err(e) => run_container.ensures(
                (
                    ContainerUpRequest {
                        name: container_name,
                        attach: false,
                        detach: true,
                        repo_override,
                        output_json: false,
                    },
                ),
                Err(e),
            ),
        },
{
    if system_was_running {
        return Ok(());
    }
    let request = ContainerUpRequest {
        name: container_name,
        attach: false,
        detach: true,
        repo_override,
        output_json: false,
    };
    let run_container_result = run_container(request);
    match run_container_result {
        Ok(_) => Ok(()),
        Err(e) => Err(e),
    }
}

/// Runs the policy check, then the backend check; a failure of either is
/// reported as a runtime policy error of that phase, with its detail.
pub fn validate_policy_runtime_using<P, B>(validate_policy: P, validate_backend: B) -> (r: Result<
    (),
    RunnerError,
>) where P: FnOnce() -> Result<(), String>, B: FnOnce() -> Result<(), String>,
    requires
        validate_policy.requires(()),
        validate_backend.requires(()),
    ensures
        r is Ok ==> validate_policy.ensures((), Ok(())) && validate_backend.ensures((), Ok(())),
        r matches Err(e) ==> e matches RunnerError::ContainerRuntimePolicy { phase, detail } && (
        (phase@ == "policy validation"@ && validate_policy.ensures((), Err(detail))) || (phase@
            == "backend validation"@ && validate_policy.ensures((), Ok(()))
            && validate_backend.ensures((), Err(detail)))),
{
    let validate_policy_result = validate_policy();
    match validate_policy_result {
        Ok(u) => {
            proof {
                lemma_unit(u);
            }
        },
        Err(detail) => {
            return Err(
                RunnerError::ContainerRuntimePolicy {
                    phase: "policy validation".to_owned(),
                    detail,
                },
            );
        },
    }
    let validate_backend_result = validate_backend();
    match validate_backend_result {
        Ok(u) => {
            proof {
                lemma_unit(u);
            }
            Ok(())
        },
        Err(detail) => Err(
            RunnerError::ContainerRuntimePolicy { phase: "backend validation".to_owned(), detail },
        ),
    }
}

/// Whether `restart` may report success for `service` under `label`.
pub open spec fn restarted<R: Fn(&str, &str) -> Result<(), RunnerError>>(restart: R, service: Seq<char>, label: Seq<char>) -> bool {
    exists|s: &str, l: &str| #[trigger] restart.ensures((s, l), Ok(())) && s@ == service && l@ == label
}

/// The `docker compose` arguments that restart `service`: the policy's
/// compose arguments (`compose_base`, as the container crate's
/// `compose_args` gives them), then `restart` and the service.
pub fn compose_restart_args(compose_base: &Vec<String>, service: &str) -> (r: Vec<String>)
    ensures
        r@.len() == compose_base@.len() + 2,
        forall|i: int| 0 <= i < compose_base@.len() ==> #[trigger] r@[i]@ == compose_base@[i]@,
        r@[compose_base@.len() as int]@ == "restart"@,
        r@[compose_base@.len() + 1int]@ == service@,
{
    let mut out: Vec<String> = Vec::new();
    let mut i: usize = 0;
    while i < compose_base.len()
        invariant
            i <= compose_base.len(),
            out@.len() == i,
            forall|j: int| 0 <= j < i ==> #[trigger] out@[j]@ == compose_base@[j]@,
        decreases compose_base.len() - i,
    {
        out.push(crate::text::owned(compose_base[i].as_str()));
        i = i + 1;
    }
    out.push("restart".to_owned());
    out.push(crate::text::owned(service));
    out
}

/// Whether `restart` may have answered `out` for `service` under `label`.
pub open spec fn restart_gave<R: Fn(&str, &str) -> Result<(), RunnerError>>(
    restart: R,
    service: Seq<char>,
    label: Seq<char>,
    out: Result<(), RunnerError>,
) -> bool {
    exists|s: &str, l: &str| #[trigger] restart.ensures((s, l), out) && s@ == service && l@ == label
}

/// Restarts the primary service, then (once it is known which services
/// depend on it) each dependent service in order; the first failure ends
/// the restart with its error.
pub fn restart_primary_service_using<L, R>(
    policy: &ContainerPolicy,
    load_dependents: L,
    restart: R,
) -> (r: Result<(), RunnerError>) where
    L: FnOnce() -> Result<Vec<String>, RunnerError>,
    R: Fn(&str, &str) -> Result<(), RunnerError>,

    requires
        load_dependents.requires(()),
        forall|s: &str, label: &str| restart.requires((s, label)),
    ensures
        r is Ok ==> {
            &&& restarted(restart, policy.primary_service@, "docker compose restart primary service"@)
            &&& exists|deps: Vec<String>|
                load_dependents.ensures((), Ok(deps)) && forall|i: int|
                    0 <= i < deps@.len() ==> restarted(
                        restart,
                        #[trigger] deps@[i]@,
                        "docker compose restart dependent service"@,
                    )
        },
        r matches Err(e) ==> {
            ||| restart_gave(restart, policy.primary_service@, "docker compose restart primary service"@, Err(e))
            ||| restarted(restart, policy.primary_service@, "docker compose restart primary service"@)
                && load_dependents.ensures((), Err(e))
            ||| restarted(restart, policy.primary_service@, "docker compose restart primary service"@)
                && exists|deps: Vec<String>, i: int|
                #![trigger load_dependents.ensures((), Ok(deps)), deps@[i]]
                load_dependents.ensures((), Ok(deps)) && 0 <= i < deps@.len() && (forall|j: int|
                    0 <= j < i ==> restarted(
                        restart,
                        #[trigger] deps@[j]@,
                        "docker compose restart dependent service"@,
                    )) && restart_gave(restart, deps@[i]@, "docker compose restart dependent service"@, Err(e))
        },
{
    let primary = policy.primary_service.as_str();
    let label = "docker compose restart primary service";
    match restart(primary, label) {
        Ok(u) => {
            proof {
                lemma_unit(u);
            }
        },
        Err(e) => {
            assert(restart_gave(restart, policy.primary_service@, "docker compose restart primary service"@, Err(e)));
            return Err(e);
        },
    }
    assert(restarted(restart, policy.primary_service@, "docker compose restart primary service"@));
    let deps = match load_dependents() {
        Ok(d) => d,
        Err(e) => return Err(e),
    };
    let mut i: usize = 0;
    while i < deps.len()
        invariant
            i <= deps.len(),
            forall|s: &str, label: &str| restart.requires((s, label)),
            restarted(restart, policy.primary_service@, "docker compose restart primary service"@),
            load_dependents.ensures((), Ok(deps)),
            forall|j: int|
                0 <= j < i ==> restarted(restart, #[trigger] deps@[j]@, "docker compose restart dependent service"@),
        decreases deps.len() - i,
    {
        let service = deps[i].as_str();
        let label = "docker compose restart dependent service";
        match restart(service, label) {
            Ok(u) => {
                proof {
                    lemma_unit(u);
                }
            },
            Err(e) => {
                assert(restart_gave(restart, deps@[i as int]@, "docker compose restart dependent service"@, Err(e)));
                return Err(e);
            },
        }
        assert(restarted(restart, deps@[i as int]@, "docker compose restart dependent service"@));
        i = i + 1;
    }
    Ok(())
}

/// Makes the gateway ready for a policy that exposes anything through it:
/// resolves the runner's invocation, starts the gateway with it, then
/// registers the policy's routes. A policy with nothing to expose needs
/// none of this.
pub fn ensure_runtime_gateway_readiness_stage_using<I, S, G>(
    policy: &ContainerPolicy,
    resolve_invocation: I,
    start_gateway: S,
    register_routes: G,
) -> (r: Result<(), RunnerError>) where
    I: FnOnce() -> Result<String, RunnerError>,
    S: FnOnce(&str) -> Result<(), RunnerError>,
    G: FnOnce() -> Result<(), RunnerError>,

    requires
        resolve_invocation.requires(()),
        forall|x: &str| start_gateway.requires((x,)),
        register_routes.requires(()),
    ensures
        policy.dns_routes@.len() == 0 && policy.service_aliases@.len() == 0 && policy.shared_services@.len() == 0
            ==> r is Ok,
        r is Ok && !(policy.dns_routes@.len() == 0 && policy.service_aliases@.len() == 0
            && policy.shared_services@.len() == 0) ==> {
            &&& exists|exe: String, x: &str|
                #[trigger] resolve_invocation.ensures((), Ok(exe)) && #[trigger] start_gateway.ensures((x,), Ok(()))
                    && x@ == exe@
            &&& register_routes.ensures((), Ok(()))
        },
{
    if !container_policy_uses_gateway_surface(policy) {
        return Ok(());
    }
    let exe = match resolve_invocation() {
        Ok(x) => x,
        Err(e) => return Err(e),
    };
    let x = exe.as_str();
    match start_gateway(x) {
        Ok(u) => {
            proof {
                lemma_unit(u);
            }
        },
        Err(e) => return Err(e),
    }
    assert(resolve_invocation.ensures((), Ok(exe)) && start_gateway.ensures((x,), Ok(())) && x@ == exe@);
    match register_routes() {
        Ok(u) => {
            proof {
                lemma_unit(u);
            }
            Ok(())
        },
        Err(e) => Err(e),
    }
}

} // verus!
