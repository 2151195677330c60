use effigy_runner::error::RunnerError;
use effigy_runner::runtime_prep::{
    activate_container_runtime_plan_for_task_using, build_runtime_activation_plan, compose_restart_args,
    data_seed_runtime_session_context, db_seed_runtime_activation_plan,
    ensure_primary_service_exec_ready_with_recovery_using, RuntimeActivationRoute,
    ensure_runtime_gateway_readiness_stage_using, restart_primary_service_using, run_runtime_prep_steps, validate_policy_runtime_using, ContainerPolicy,
    ContainerTaskActivation, LeaseRefreshPolicy, RuntimeLeasePolicy, RuntimeSessionContext,
};
use std::sync::{Arc, Mutex};

fn test_policy() -> ContainerPolicy {
    ContainerPolicy {
        name: "web".to_owned(),
        primary_service: "app".to_owned(),
        compose_files: vec!["docker-compose.yml".to_owned()],
        dns_routes: vec![],
        service_aliases: vec![],
        shared_services: vec![],
        workspace_user: None,
        workspace_home: None,
    }
}

#[test]
fn runtime_prep_runs_sibling_service_recovery_before_exec_and_alias_reconciliation() {
    let events = Arc::new(Mutex::new(Vec::<&'static str>::new()));

    run_runtime_prep_steps(
        {
            let events = Arc::clone(&events);
            move || {
                events.lock().expect("events lock").push("prepare-mounts");
                Ok(())
            }
        },
        {
            let events = Arc::clone(&events);
            move || {
                events.lock().expect("events lock").push("compose-up");
            }
        },
        {
            let events = Arc::clone(&events);
            move || {
                events.lock().expect("events lock").push("exec-ready");
                Ok(())
            }
        },
        {
            let events = Arc::clone(&events);
            move || {
                events.lock().expect("events lock").push("reconcile-aliases");
                Ok(())
            }
        },
    )
    .expect("runtime prep steps should succeed");

    assert_eq!(
        *events.lock().expect("events lock"),
        vec!["prepare-mounts", "compose-up", "exec-ready", "reconcile-aliases"]
    );
}

#[test]
fn runtime_prep_reconciles_container_local_tcp_aliases_after_exec_readiness() {
    let events = Arc::new(Mutex::new(Vec::<&'static str>::new()));

    run_runtime_prep_steps(
        {
            let events = Arc::clone(&events);
            move || {
                events.lock().expect("events lock").push("prepare-mounts");
                Ok(())
            }
        },
        {
            let events = Arc::clone(&events);
            move || {
                events.lock().expect("events lock").push("compose-up");
            }
        },
        {
            let events = Arc::clone(&events);
            move || {
                events.lock().expect("events lock").push("exec-ready");
                Ok(())
            }
        },
        {
            let events = Arc::clone(&events);
            move || {
                events.lock().expect("events lock").push("reconcile-aliases");
                Ok(())
            }
        },
    )
    .expect("runtime prep steps should succeed");

    let events = events.lock().expect("events lock").clone();
    assert_eq!(events.last().copied(), Some("reconcile-aliases"));
    assert!(events.contains(&"exec-ready"));
}

#[test]
fn runtime_prep_surfaces_alias_reconciliation_failure_after_exec_recovery() {
    let events = Arc::new(Mutex::new(Vec::<&'static str>::new()));

    let error = run_runtime_prep_steps(
        {
            let events = Arc::clone(&events);
            move || {
                events.lock().expect("events lock").push("prepare-mounts");
                Ok(())
            }
        },
        {
            let events = Arc::clone(&events);
            move || {
                events.lock().expect("events lock").push("compose-up");
            }
        },
        {
            let events = Arc::clone(&events);
            move || {
                events.lock().expect("events lock").push("exec-ready");
                Ok(())
            }
        },
        {
            let events = Arc::clone(&events);
            move || {
                events.lock().expect("events lock").push("reconcile-aliases");
                Err(RunnerError::task_invocation("alias reconciliation failed"))
            }
        },
    )
    .expect_err("alias reconciliation failure should surface");

    assert!(
        matches!(error, RunnerError::TaskInvocation { .. }),
        "expected task invocation error, got {error:?}"
    );
    assert_eq!(
        *events.lock().expect("events lock"),
        vec!["prepare-mounts", "compose-up", "exec-ready", "reconcile-aliases"]
    );
}

#[test]
fn runtime_prep_stops_at_the_first_failing_stage() {
    let events = Arc::new(Mutex::new(Vec::<&'static str>::new()));
    let error = run_runtime_prep_steps(
        {
            let events = Arc::clone(&events);
            move || {
                events.lock().unwrap().push("prepare-mounts");
                Err(RunnerError::task_invocation("mounts failed"))
            }
        },
        {
            let events = Arc::clone(&events);
            move || events.lock().unwrap().push("compose-up")
        },
        {
            let events = Arc::clone(&events);
            move || {
                events.lock().unwrap().push("exec-ready");
                Ok(())
            }
        },
        {
            let events = Arc::clone(&events);
            move || {
                events.lock().unwrap().push("reconcile-aliases");
                Ok(())
            }
        },
    )
    .unwrap_err();
    assert!(matches!(error, RunnerError::TaskInvocation { ref message } if message == "mounts failed"));
    assert_eq!(*events.lock().unwrap(), vec!["prepare-mounts"]);
}

#[test]
fn exec_readiness_recovery_restarts_once_then_accepts_longer_probe_window() {
    let policy = test_policy();
    let probes = Arc::new(Mutex::new(Vec::<u64>::new()));
    let restarted = Arc::new(Mutex::new(0usize));

    ensure_primary_service_exec_ready_with_recovery_using(
        &policy,
        "/workspace-root/demo",
        {
            let probes = Arc::clone(&probes);
            move |timeout: u64| {
                probes.lock().expect("probes lock").push(timeout);
                timeout == 15
            }
        },
        {
            let restarted = Arc::clone(&restarted);
            move || {
                *restarted.lock().expect("restart lock") += 1;
                Ok(())
            }
        },
    )
    .expect("recovery should succeed after restart");

    assert_eq!(*probes.lock().expect("probes lock"), vec![2, 15]);
    assert_eq!(*restarted.lock().expect("restart lock"), 1);
}

#[test]
fn exec_readiness_recovery_fails_when_probe_never_recovers() {
    let policy = test_policy();
    let restarted = Arc::new(Mutex::new(0usize));

    let error = ensure_primary_service_exec_ready_with_recovery_using(
        &policy,
        "/workspace-root/demo",
        |_timeout: u64| false,
        {
            let restarted = Arc::clone(&restarted);
            move || {
                *restarted.lock().expect("restart lock") += 1;
                Ok(())
            }
        },
    )
    .expect_err("recovery should fail when probe never succeeds");

    assert!(
        matches!(error, RunnerError::ContainerRuntimeExecNotReady { .. }),
        "expected typed exec-ready error, got {error:?}"
    );
    assert_eq!(*restarted.lock().expect("restart lock"), 1);
}

#[test]
fn exec_readiness_needs_no_restart_when_the_first_probe_passes() {
    let policy = test_policy();
    let restarted = Arc::new(Mutex::new(0usize));
    ensure_primary_service_exec_ready_with_recovery_using(&policy, "/w", |t: u64| t == 2, {
        let restarted = Arc::clone(&restarted);
        move || {
            *restarted.lock().unwrap() += 1;
            Ok(())
        }
    })
    .unwrap();
    assert_eq!(*restarted.lock().unwrap(), 0);
}

#[test]
fn validate_policy_runtime_uses_typed_policy_error_family() {
    let error = validate_policy_runtime_using(
        || Err("compose file missing-compose.yml does not exist".to_owned()),
        || Ok(()),
    )
    .expect_err("policy validation should fail");

    match error {
        RunnerError::ContainerRuntimePolicy { phase, detail } => {
            assert_eq!(phase, "policy validation");
            assert!(
                detail.contains("missing-compose.yml"),
                "detail should preserve original policy error: {detail}"
            );
        }
        other => panic!("expected typed runtime policy error, got {other:?}"),
    }
}

#[test]
fn validate_policy_runtime_reports_the_backend_phase() {
    let error = validate_policy_runtime_using(|| Ok(()), || Err("colima missing".to_owned())).unwrap_err();
    match error {
        RunnerError::ContainerRuntimePolicy { phase, detail } => {
            assert_eq!(phase, "backend validation");
            assert_eq!(detail, "colima missing");
        }
        other => panic!("unexpected {other:?}"),
    }
    assert!(validate_policy_runtime_using(|| Ok(()), || Ok(())).is_ok());
}

fn activation_events(
    lease_refresh_policy: LeaseRefreshPolicy,
    prepared: bool,
) -> (Vec<&'static str>, ContainerTaskActivation) {
    let events = Arc::new(Mutex::new(Vec::<&'static str>::new()));
    let plan = build_runtime_activation_plan(
        "/tmp/demo-repo",
        "web",
        Some("web"),
        Some("/tmp/demo-repo".to_owned()),
        RuntimeActivationRoute::Task,
        true,
        RuntimeSessionContext { lease_refresh_policy },
    );
    let activation = activate_container_runtime_plan_for_task_using(
        &plan,
        {
            let events = Arc::clone(&events);
            move || {
                events.lock().unwrap().push("prepare");
                Ok(prepared)
            }
        },
        || Ok(()),
        {
            let events = Arc::clone(&events);
            move || {
                events.lock().unwrap().push("gateway");
                Ok(())
            }
        },
        {
            let events = Arc::clone(&events);
            move |_system_was_running: bool| {
                events.lock().unwrap().push("lease");
                Ok(true)
            }
        },
    )
    .expect("activate container runtime");
    let events = events.lock().unwrap().clone();
    (events, activation)
}

#[test]
fn task_activation_side_effects_run_in_shared_order() {
    let (events, activation) = activation_events(LeaseRefreshPolicy::RefreshOnActivation, false);
    assert_eq!(events, vec!["prepare", "gateway", "lease"]);
    assert_eq!(
        activation,
        ContainerTaskActivation {
            system_was_running: false,
            refreshed_host_container_lease: true,
        }
    );
}

#[test]
fn task_activation_can_skip_lease_refresh_without_skipping_gateway_readiness() {
    let (events, activation) = activation_events(LeaseRefreshPolicy::SkipRefresh, true);
    assert_eq!(events, vec!["prepare", "gateway"]);
    assert_eq!(
        activation,
        ContainerTaskActivation {
            system_was_running: true,
            refreshed_host_container_lease: false,
        }
    );
}

#[test]
fn reused_runtime_activation_matrix_keeps_gateway_parity_across_lease_modes() {
    for (lease_refresh_policy, expected_events, expected_refreshed_lease) in [
        (
            LeaseRefreshPolicy::RefreshOnActivation,
            vec!["prepare", "gateway", "lease"],
            true,
        ),
        (LeaseRefreshPolicy::SkipRefresh, vec!["prepare", "gateway"], false),
    ] {
        let (events, activation) = activation_events(lease_refresh_policy, true);
        assert_eq!(events, expected_events);
        assert!(activation.system_was_running);
        assert_eq!(activation.refreshed_host_container_lease, expected_refreshed_lease);
    }
}

#[test]
fn db_seed_runtime_activation_plan_keeps_identity_and_lease_policy() {
    let plan = db_seed_runtime_activation_plan(
        "/tmp/repo",
        "web",
        Some("db"),
        true,
        data_seed_runtime_session_context(),
    );

    assert_eq!(plan.repo_root, "/tmp/repo");
    assert_eq!(plan.policy_name, "web");
    assert_eq!(plan.container_name.as_deref(), Some("db"));
    assert_eq!(plan.repo_override.as_deref(), Some("/tmp/repo"));
    assert_eq!(plan.route, RuntimeActivationRoute::DataSeed);
    assert_eq!(plan.lease_policy, RuntimeLeasePolicy::RefreshOnActivation);
}

#[test]
fn primary_restart_refreshes_dependent_services_after_primary() {
    let restarts = Arc::new(Mutex::new(Vec::<String>::new()));
    restart_primary_service_using(&test_policy(), || Ok(vec!["web".to_owned(), "worker".to_owned()]), {
        let restarts = Arc::clone(&restarts);
        move |service: &str, _label: &str| {
            restarts.lock().unwrap().push(service.to_owned());
            Ok(())
        }
    })
    .expect("restart should succeed");
    assert_eq!(*restarts.lock().unwrap(), vec!["app", "web", "worker"]);
}

#[test]
fn primary_restart_stops_at_the_first_failure() {
    let restarts = Arc::new(Mutex::new(Vec::<String>::new()));
    let error = restart_primary_service_using(&test_policy(), || Ok(vec!["web".to_owned(), "worker".to_owned()]), {
        let restarts = Arc::clone(&restarts);
        move |service: &str, _label: &str| {
            restarts.lock().unwrap().push(service.to_owned());
            if service == "web" {
                Err(RunnerError::task_invocation("web failed"))
            } else {
                Ok(())
            }
        }
    })
    .unwrap_err();
    assert!(matches!(error, RunnerError::TaskInvocation { ref message } if message == "web failed"));
    assert_eq!(*restarts.lock().unwrap(), vec!["app", "web"]);
}

#[test]
fn gateway_readiness_is_skipped_without_a_gateway_surface() {
    let events = Arc::new(Mutex::new(Vec::<String>::new()));
    let run = |policy: &ContainerPolicy| {
        let e1 = Arc::clone(&events);
        let e2 = Arc::clone(&events);
        let e3 = Arc::clone(&events);
        ensure_runtime_gateway_readiness_stage_using(
            policy,
            move || {
                e1.lock().unwrap().push("resolve".to_owned());
                Ok("effigy".to_owned())
            },
            move |exe: &str| {
                e2.lock().unwrap().push(format!("start:{exe}"));
                Ok(())
            },
            move || {
                e3.lock().unwrap().push("routes".to_owned());
                Ok(())
            },
        )
    };
    run(&test_policy()).unwrap();
    assert!(events.lock().unwrap().is_empty());
    let mut routed = test_policy();
    routed.dns_routes = vec!["app.test".to_owned()];
    run(&routed).unwrap();
    assert_eq!(*events.lock().unwrap(), vec!["resolve", "start:effigy", "routes"]);
}

#[test]
fn compose_restart_args_follow_the_compose_arguments() {
    let base: Vec<String> = ["compose", "-f", "/repo/docker-compose.yml", "-p", "demo-web"]
        .iter()
        .map(|s| s.to_string())
        .collect();
    assert_eq!(
        compose_restart_args(&base, "web"),
        vec!["compose", "-f", "/repo/docker-compose.yml", "-p", "demo-web", "restart", "web"]
    );
}
