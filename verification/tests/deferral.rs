use effigy_runner::deferral::{
    build_deferred_command, build_deferred_container_command_args, normalize_defer_task,
    DeferTaskRequest, check_defer_depth, deferral_shell, deferred_builtins,
    is_top_level_builtin_command, run_deferred_request, run_deferred_request_locally,
    run_deferred_request_with_binding, select_deferral, should_attempt_deferral, DeferralCatalog,
    DeferBinding, DeferRunIn, DeferredExecutionPlan,
};
use effigy_runner::error::RunnerError;
use effigy_runner::runtime_prep::ContainerPolicy;

fn strings(items: &[&str]) -> Vec<String> {
    items.iter().map(|s| s.to_string()).collect()
}

#[test]
fn deferral_policy_refuses_nested_deferral_when_depth_env_is_set() {
    assert!(!should_attempt_deferral(
        true,
        &RunnerError::TaskNotFoundAny {
            name: "prep".to_owned(),
            catalogs: vec!["root (/tmp/effigy.toml)".to_owned()],
        }
    ));
}

#[test]
fn deferral_policy_defers_missing_tasks_at_the_top_level() {
    assert!(should_attempt_deferral(
        false,
        &RunnerError::TaskNotFoundAny {
            name: "prep".to_owned(),
            catalogs: vec!["root (/tmp/effigy.toml)".to_owned()],
        }
    ));
    assert!(!should_attempt_deferral(false, &RunnerError::task_invocation("boom")));
}

#[test]
fn deferred_builtins_merge_explicit_and_implicit_entries() {
    let builtins = deferred_builtins(&strings(&["release"]), &strings(&["deploy"]));
    assert!(builtins.contains(&"release".to_owned()), "got: {builtins:?}");
    assert!(builtins.contains(&"deploy".to_owned()), "got: {builtins:?}");
}

#[test]
fn deferred_builtins_include_root_task_name_collisions() {
    let builtins = deferred_builtins(&Vec::new(), &strings(&["deploy"]));
    assert!(builtins.contains(&"deploy".to_owned()), "got: {builtins:?}");
}

#[test]
fn deferred_builtins_are_a_sorted_set_of_builtin_collisions() {
    let builtins = deferred_builtins(
        &strings(&["release", "docs", "release"]),
        &strings(&["deploy", "build", "docs"]),
    );
    assert_eq!(builtins, strings(&["deploy", "docs", "release"]));
}

#[test]
fn top_level_builtins_are_recognised() {
    assert!(is_top_level_builtin_command("doctor"));
    assert!(!is_top_level_builtin_command("build"));
}

#[test]
fn defer_depth_refuses_a_second_handoff() {
    assert!(matches!(check_defer_depth(None), Ok(0)));
    assert!(matches!(check_defer_depth(Some("junk")), Ok(0)));
    assert!(matches!(
        check_defer_depth(Some("1")),
        Err(RunnerError::DeferLoopDetected { depth: 1 })
    ));
}

#[test]
fn deferral_shell_uses_interactive_flag_for_zsh_and_bash() {
    assert_eq!(deferral_shell(Some("/bin/zsh")), ("/bin/zsh".to_owned(), "-ic".to_owned()));
    assert_eq!(deferral_shell(Some("/bin/dash")), ("/bin/dash".to_owned(), "-c".to_owned()));
    assert_eq!(deferral_shell(None), ("sh".to_owned(), "-c".to_owned()));
}

#[test]
fn deferred_command_fills_its_template() {
    let command = build_deferred_command(
        "composer global exec effigy -- {request} {args} --repo {repo}",
        "prep",
        &strings(&["--fast"]),
        "'/tmp/repo'",
    );
    assert_eq!(command, "composer global exec effigy -- prep --fast --repo '/tmp/repo'");
}

fn run_with(
    manifest_present: bool,
    run_in: DeferRunIn,
    binding: DeferBinding,
    handoff: bool,
    success: bool,
) -> (Result<DeferredExecutionPlan, RunnerError>, Vec<String>) {
    let events = std::cell::RefCell::new(Vec::<String>::new());
    let result = run_deferred_request_with_binding(
        "root",
        "/w",
        "/w/effigy.toml",
        manifest_present,
        run_in,
        handoff,
        true,
        |dir: &str| {
            events.borrow_mut().push(format!("build:{dir}"));
            Ok(format!("effigy prep # {dir}"))
        },
        || Ok(binding),
        || Ok(Some("/workspace".to_owned())),
        |c: &str| {
            events.borrow_mut().push(format!("local:{c}"));
            Ok("local output".to_owned())
        },
        || {
            events.borrow_mut().push("prepare".to_owned());
            Ok(Some(true))
        },
        |c: &str| {
            events.borrow_mut().push(format!("exec:{c}"));
            Ok((success, Some(if success { 0 } else { 3 })))
        },
        || events.borrow_mut().push("notice".to_owned()),
        |c: &str| format!("trace of {c}"),
    );
    let events = events.borrow().clone();
    (result, events)
}

#[test]
fn deferral_without_manifest_runs_on_the_host_or_fails_for_container_only() {
    let (result, events) = run_with(false, DeferRunIn::Either, DeferBinding::Host, false, true);
    assert!(matches!(result, Ok(DeferredExecutionPlan::HostCommand(ref c)) if c == "effigy prep # /w"));
    assert_eq!(events, vec!["build:/w"]);
    let (result, _) = run_with(false, DeferRunIn::Container, DeferBinding::Host, false, true);
    match result {
        Err(RunnerError::TaskInvocation { message }) => assert_eq!(
            message,
            "deferred command from root sets `[defer].run_in = \"container\"`, but /w does not contain an `effigy.toml` manifest to resolve a workspace container binding"
        ),
        other => panic!("unexpected {other:?}"),
    }
}

#[test]
fn deferral_with_manifest_follows_the_binding() {
    let (result, _) = run_with(true, DeferRunIn::Either, DeferBinding::Host, false, true);
    assert!(matches!(result, Ok(DeferredExecutionPlan::HostCommand(_))));
    let (result, _) = run_with(true, DeferRunIn::Container, DeferBinding::Host, false, true);
    assert!(matches!(result, Err(RunnerError::TaskInvocation { ref message })
        if message.ends_with("no default workspace container binding could be resolved from /w/effigy.toml")));
    let (result, events) = run_with(true, DeferRunIn::Container, DeferBinding::Container, false, true);
    assert!(matches!(result, Ok(DeferredExecutionPlan::Completed(ref out)) if out == "trace of effigy prep # /workspace"));
    assert_eq!(events, vec!["build:/workspace", "prepare", "exec:effigy prep # /workspace", "notice"]);
    let (result, events) = run_with(true, DeferRunIn::Container, DeferBinding::Container, true, true);
    assert!(matches!(result, Ok(DeferredExecutionPlan::Completed(ref out)) if out == "local output"));
    assert_eq!(events, vec!["build:/workspace", "local:effigy prep # /workspace"]);
}

#[test]
fn deferred_container_failures_carry_their_exit_code() {
    let (result, _) = run_with(true, DeferRunIn::Container, DeferBinding::Container, false, false);
    match result {
        Err(RunnerError::TaskCommandFailure { command, code, .. }) => {
            assert_eq!(command, "effigy prep # /workspace");
            assert_eq!(code, Some(3));
        }
        other => panic!("unexpected {other:?}"),
    }
}

#[test]
fn normalize_defer_task_applies_top_level_flags() {
    let task = DeferTaskRequest { name: "prep".to_owned(), args: strings(&["--fast"]) };
    let normalized = normalize_defer_task(task, true, Some("/repo"));
    assert_eq!(normalized.name, "prep");
    assert_eq!(normalized.args, strings(&["--fast", "--json", "--repo", "/repo"]));
    let task = DeferTaskRequest { name: "prep".to_owned(), args: strings(&["--json"]) };
    assert_eq!(normalize_defer_task(task, true, None).args, strings(&["--json"]));
}

#[test]
fn deferred_container_command_args_carry_identity_and_depth() {
    let policy = ContainerPolicy {
        name: "web".to_owned(),
        primary_service: "app".to_owned(),
        compose_files: vec![],
        dns_routes: vec![],
        service_aliases: vec![],
        shared_services: vec![],
        workspace_user: Some("dev".to_owned()),
        workspace_home: Some("/home/dev".to_owned()),
    };
    let args = build_deferred_container_command_args(
        strings(&["compose", "-p", "demo", "exec"]),
        &policy,
        &strings(&["-e", "FORCE_COLOR=0"]),
        "effigy prep",
        "/workspace",
        0,
        false,
    );
    assert_eq!(
        args,
        strings(&[
            "compose", "-p", "demo", "exec", "-T", "-w", "/workspace", "-u", "dev", "-e",
            "HOME=/home/dev", "-e", "FORCE_COLOR=0", "-e", "EFFIGY_DEFER_DEPTH=1", "app", "sh", "-lc",
            "effigy prep",
        ])
    );
}

#[test]
fn local_deferral_runs_through_interactive_shell_with_next_depth() {
    let mut seen = None;
    let out = run_deferred_request_locally(
        "composer global exec phpunit",
        0,
        false,
        Some("/bin/zsh"),
        None,
        Some("/home/dev"),
        Some("/usr/bin"),
        |shell, flag, command, depth, path| {
            seen = Some((shell, flag, command, depth, path));
            Ok((true, Some(0)))
        },
        |_| "trace".to_owned(),
    );
    assert_eq!(out.unwrap(), "");
    let (shell, flag, command, depth, path) = seen.unwrap();
    assert_eq!(shell, "/bin/zsh");
    assert_eq!(flag, "-ic");
    assert_eq!(command, "composer global exec phpunit");
    assert_eq!(depth, 1);
    assert_eq!(path.as_deref(), Some("/home/dev/.config/composer/vendor/bin:/usr/bin"));
}

#[test]
fn local_deferral_traces_when_verbose_and_reports_failure_code() {
    let traced = run_deferred_request_locally(
        "make prep",
        0,
        true,
        None,
        None,
        None,
        None,
        |shell, flag, _, _, path| {
            assert_eq!(shell, "sh");
            assert_eq!(flag, "-c");
            assert!(path.is_none());
            Ok((true, Some(0)))
        },
        |command| format!("deferred: {command}"),
    );
    assert_eq!(traced.unwrap(), "deferred: make prep");

    let failed = run_deferred_request_locally(
        "make prep",
        0,
        true,
        Some("  "),
        None,
        None,
        None,
        |_, _, _, _, _| Ok((false, Some(3))),
        |_| String::new(),
    );
    match failed {
        Err(RunnerError::TaskCommandFailure { command, code, stdout, stderr }) => {
            assert_eq!(command, "make prep");
            assert_eq!(code, Some(3));
            assert!(stdout.is_empty() && stderr.is_empty());
        }
        other => panic!("unexpected {other:?}"),
    }
}

#[test]
fn deferred_request_refuses_a_second_deferral() {
    let out = run_deferred_request(
        Some("1"),
        DeferRunIn::Host,
        || panic!("not built"),
        |_| panic!("not bound"),
        |_, _| panic!("not run"),
    );
    assert!(matches!(out, Err(RunnerError::DeferLoopDetected { depth: 1 })));
}

#[test]
fn deferred_request_routes_host_and_binding_plans() {
    let host = run_deferred_request(
        None,
        DeferRunIn::Host,
        || Ok("make prep".to_owned()),
        |_| panic!("not bound"),
        |command, depth| Ok(format!("{command}@{depth}")),
    );
    assert_eq!(host.unwrap(), "make prep@0");

    let handed_back = run_deferred_request(
        Some("garbage"),
        DeferRunIn::Either,
        || panic!("not built"),
        |_| Ok(DeferredExecutionPlan::HostCommand("npm run prep".to_owned())),
        |command, _| Ok(command.to_owned()),
    );
    assert_eq!(handed_back.unwrap(), "npm run prep");

    let completed = run_deferred_request(
        Some("0"),
        DeferRunIn::Container,
        || panic!("not built"),
        |_| Ok(DeferredExecutionPlan::Completed("done".to_owned())),
        |_, _| panic!("not run"),
    );
    assert_eq!(completed.unwrap(), "done");
}

fn catalog(alias: &str, root: &str, depth: usize, run: Option<&str>) -> DeferralCatalog {
    DeferralCatalog {
        alias: alias.to_owned(),
        catalog_root: root.to_owned(),
        manifest_path: format!("{root}/effigy.toml"),
        depth,
        defer_run: run.map(str::to_owned),
        run_in: None,
    }
}

#[test]
fn deferral_selection_prefers_named_then_deepest_in_scope_then_shallowest() {
    let catalogs = vec![
        catalog("root", "/repo", 0, Some("make {request}")),
        catalog("web", "/repo/apps/web", 2, Some("npm run {request}")),
        catalog("apps", "/repo/apps", 1, Some("just {request}")),
        catalog("docs", "/repo/docs", 1, None),
    ];
    let named = select_deferral(Some("apps"), &catalogs, "/repo/apps/web/src").unwrap();
    assert_eq!(named.template, "just {request}");
    assert_eq!(named.source, "catalog apps (/repo/apps/effigy.toml)");
    assert_eq!(named.run_in, DeferRunIn::Host);

    let deepest = select_deferral(None, &catalogs, "/repo/apps/web/src").unwrap();
    assert_eq!(deepest.working_dir, "/repo/apps/web");

    let named_without_command = select_deferral(Some("docs"), &catalogs, "/repo/docs").unwrap();
    assert_eq!(named_without_command.working_dir, "/repo");

    let outside = select_deferral(None, &catalogs[1..3].iter().map(|c| catalog(&c.alias, &c.catalog_root, c.depth, c.defer_run.as_deref())).collect::<Vec<_>>(), "/elsewhere").unwrap();
    assert_eq!(outside.working_dir, "/repo/apps");

    assert!(select_deferral(None, &vec![catalog("docs", "/repo/docs", 1, None)], "/repo/docs").is_none());
}
