use effigy_runner::deploy::export::{provider_export_warnings, run_deploy_export};
use effigy_runner::deploy::flow::{
    build_deploy_history, history_report_files, run_deploy_plan, DeployReportFields,
};
use effigy_runner::deploy::model::{
    detect_static_fallback, DeployApp, DeployModel, DeployWarning,
};
use effigy_runner::deploy::provider_package::{
    ensure_git_checkout, git_failure_error, resolve_git_provider_source, sanitize_cache_segment,
    validate_provider_phase_report, DeployProviderPhaseReport, DeployProviderPolicy,
};
use effigy_runner::error::RunnerError;
use std::cell::RefCell;
use effigy_runner::deploy::report::{iso_timestamp, path_display, safe_path_component};
use effigy_runner::deploy::model::{DeployHealth, DeployService};
use effigy_runner::deploy::transaction::{
    build_deploy_plan, provider_package_policy_blockers, resolve_code_ref, select_deploy_env,
    ArtifactPolicy,
    DeployCodeRef, ManifestDeployConfig,
    DeployHooksConfig, DeployPreflightConfig, ManifestDeployEnvConfig, ReleasePolicy,
};

fn empty_model(warnings: Vec<DeployWarning>) -> DeployModel {
    DeployModel {
        schema: "deploy.model.v1".to_owned(),
        schema_version: 1,
        app: DeployApp {
            name: "app".to_owned(),
            bundle: None,
            project_name: "app".to_owned(),
            source_root: None,
            notes: None,
        },
        services: Vec::new(),
        backing_services: Vec::new(),
        domains: Vec::new(),
        secrets: Vec::new(),
        warnings,
    }
}

#[test]
fn safe_path_components_keep_their_length_and_are_stable() {
    let once = safe_path_component("prod/eu west#1");
    assert_eq!(once, "prod-eu-west-1");
    assert_eq!(once.chars().count(), "prod/eu west#1".chars().count());
    assert_eq!(safe_path_component(&once), once);
    assert_eq!(sanitize_cache_segment("feature/x y"), "feature_x_y");
}

#[test]
fn timestamps_and_paths_read_as_recorded() {
    assert_eq!(iso_timestamp(1700000000), "1700000000Z");
    assert_eq!(path_display("/repo/.effigy/deploy/latest.json", "/repo"), ".effigy/deploy/latest.json");
    assert_eq!(path_display("/elsewhere/x.json", "/repo"), "/elsewhere/x.json");
}

#[test]
fn policy_blockers_name_each_claimed_capability() {
    let policy = DeployProviderPolicy {
        creates_projects: true,
        creates_services: false,
        creates_resources: false,
        creates_variables: true,
        creates_domains: false,
        prints_secret_values: true,
    };
    let blockers = provider_package_policy_blockers("railway", &policy);
    assert_eq!(blockers.len(), 3);
    assert!(blockers.iter().all(|b| b.contains("railway")));
    let none = DeployProviderPolicy {
        creates_projects: false,
        creates_services: false,
        creates_resources: false,
        creates_variables: false,
        creates_domains: false,
        prints_secret_values: false,
    };
    assert!(provider_package_policy_blockers("railway", &none).is_empty());
}

#[test]
fn git_provider_sources_are_cached_under_a_digest_of_their_identity() {
    let seen = std::cell::RefCell::new(Vec::new());
    let checkout = |url: &str, reference: &str, path: &str| {
        seen.borrow_mut().push((url.to_owned(), reference.to_owned(), path.to_owned()));
        Ok(())
    };
    let canonicalize = |_p: &str| None;
    let path = resolve_git_provider_source(
        "/repo",
        "https://example.com/acme/provider.git",
        Some(" release/1 "),
        &canonicalize,
        &checkout,
    )
    .unwrap();
    let prefix = "/repo/.effigy/cache/providers/git/";
    assert!(path.starts_with(prefix), "{path}");
    let rest = &path[prefix.len()..];
    let (digest, segment) = rest.split_once('/').unwrap();
    assert_eq!(digest.len(), 64);
    assert!(digest.chars().all(|c| c.is_ascii_hexdigit() && !c.is_ascii_uppercase()));
    assert_eq!(segment, "release_1");
    assert_eq!(seen.borrow()[0].1, "release/1");
}

#[test]
fn static_fallback_is_read_from_the_svelte_config() {
    let read = |path: &str| {
        if path.ends_with("svelte.config.js") {
            Some("export default { kit: { adapter: adapter({ fallback: '200.html' }) } };".to_owned())
        } else {
            None
        }
    };
    assert_eq!(detect_static_fallback("/repo", "web", &read), Some("200.html".to_owned()));
    let nothing = |_path: &str| None;
    assert_eq!(detect_static_fallback("/repo", "web", &nothing), None);
}

#[test]
fn provider_exports_add_provider_warnings_after_the_model_warnings() {
    let model = empty_model(vec![DeployWarning {
        code: "model".to_owned(),
        scope: "app".to_owned(),
        target: None,
        message: "check".to_owned(),
        severity: "warn".to_owned(),
    }]);
    let warnings = provider_export_warnings(&model, &vec!["token unset".to_owned()]);
    assert_eq!(warnings.len(), 2);
    assert_eq!(warnings[0].code, "model");
    assert_eq!(warnings[1].code, "provider-warning");
    assert_eq!(warnings[1].scope, "export");
    assert_eq!(warnings[1].message, "token unset");
    let (result, text) = run_deploy_export("fly", "deploy/fly", true, &vec!["fly.toml".to_owned()], warnings);
    assert_eq!(result.schema, "effigy.deploy.export.v1");
    assert_eq!(result.files, vec!["fly.toml".to_owned()]);
    assert_eq!(
        text,
        "[deploy] planned fly export to deploy/fly\n\nFiles (1)\n- fly.toml\n\nWarnings (2)\n- [model] check\n- [provider-warning] token unset"
    );
}

#[test]
fn deploy_history_is_newest_first_and_limited() {
    let fields = |id: &str| {
        Some(DeployReportFields {
            deployment_id: Some(id.to_owned()),
            schema: Some("effigy.deploy.apply.v1".to_owned()),
            status: Some("applied".to_owned()),
            provider: None,
        })
    };
    let records = vec![
        ("/repo/.effigy/deploy/prod/history/20240101.json".to_owned(), fields("a")),
        ("/repo/.effigy/deploy/prod/history/20240301.json".to_owned(), fields("c")),
        ("/repo/.effigy/deploy/prod/history/bad.json".to_owned(), None),
        ("/repo/.effigy/deploy/prod/history/20240201.json".to_owned(), fields("b")),
    ];
    let out = build_deploy_history("/repo", "prod", &records, Some(2));
    assert!(out.ok);
    let ids: Vec<&str> = out.report.entries.iter().map(|e| e.deployment_id.as_str()).collect();
    assert_eq!(ids, vec!["c", "b"]);
    assert_eq!(out.report.warnings.len(), 1);
}

fn invocation_message(error: RunnerError) -> String {
    match error {
        RunnerError::TaskInvocation { message } => message,
        other => panic!("unexpected {other:?}"),
    }
}

#[test]
fn git_failure_error_names_arguments_and_trimmed_stderr() {
    let args = vec!["fetch".to_owned(), "origin".to_owned(), "main".to_owned()];
    assert_eq!(
        invocation_message(git_failure_error(&args, "  fatal: no such ref \n")),
        "git fetch origin main failed for deploy provider package: fatal: no such ref"
    );
    assert_eq!(
        invocation_message(git_failure_error(&args, " \n")),
        "git fetch origin main failed for deploy provider package"
    );
}

#[test]
fn git_checkout_clones_then_updates_a_new_cache_path() {
    let calls = RefCell::new(Vec::new());
    let created = RefCell::new(false);
    let out = ensure_git_checkout(
        "railway",
        "https://example.com/p.git",
        "v1",
        "/repo/.effigy/cache/p",
        false,
        false,
        false,
        || {
            *created.borrow_mut() = true;
            Ok(())
        },
        &|cwd: Option<&str>, args: &Vec<String>| {
            calls.borrow_mut().push((cwd.map(str::to_owned), args.join(" ")));
            Ok(())
        },
    );
    assert!(out.is_ok());
    assert!(*created.borrow());
    let local = Some("/repo/.effigy/cache/p".to_owned());
    assert_eq!(
        calls.into_inner(),
        vec![
            (None, "clone --no-checkout https://example.com/p.git /repo/.effigy/cache/p".to_owned()),
            (local.clone(), "remote set-url origin https://example.com/p.git".to_owned()),
            (local.clone(), "fetch --depth 1 origin v1".to_owned()),
            (local, "checkout --detach FETCH_HEAD".to_owned()),
        ]
    );
}

#[test]
fn git_checkout_refuses_a_file_in_the_cache_path_and_stops_at_a_failed_step() {
    let refused = ensure_git_checkout(
        "railway",
        "u",
        "main",
        "/cache/p",
        false,
        true,
        false,
        || panic!("no parent"),
        &|_: Option<&str>, _: &Vec<String>| panic!("no git"),
    );
    assert_eq!(
        invocation_message(refused.unwrap_err()),
        "deploy provider `railway` cache path exists but is not a directory: /cache/p"
    );

    let calls = RefCell::new(0);
    let failed = ensure_git_checkout(
        "railway",
        "u",
        "main",
        "/cache/p",
        true,
        true,
        true,
        || panic!("no parent"),
        &|_: Option<&str>, args: &Vec<String>| {
            *calls.borrow_mut() += 1;
            if args[0] == "fetch" {
                Err(git_failure_error(args, "boom"))
            } else {
                Ok(())
            }
        },
    );
    assert_eq!(*calls.borrow(), 2);
    assert_eq!(
        invocation_message(failed.unwrap_err()),
        "git fetch --depth 1 origin main failed for deploy provider package: boom"
    );
}

fn api_service() -> DeployService {
    DeployService {
        name: "api".to_owned(),
        role: "web".to_owned(),
        runtime: "rust".to_owned(),
        source_root: "app-api".to_owned(),
        build: None,
        start: None,
        release: None,
        health: Some(DeployHealth { kind: "http".to_owned(), path: "/v1/health".to_owned() }),
        output: None,
        port: Some(8080),
        domains: vec![],
        env: vec![],
        secret_refs: vec![],
        volumes: vec![],
        warnings: vec![],
    }
}

fn env_config(provider: &str, release: ReleasePolicy, artifacts: ArtifactPolicy) -> ManifestDeployEnvConfig {
    ManifestDeployEnvConfig {
        provider: provider.to_owned(),
        state: Some("prod-stack".to_owned()),
        code_ref: "release-tag".to_owned(),
        release_policy: release,
        provider_project: None,
        artifact_policy: artifacts,
        preflight: Some(DeployPreflightConfig { require_release_gates: true }),
        hooks: Some(DeployHooksConfig {
            before_state: Some("db:backup".to_owned()),
            after_state: None,
            after_deploy: Some("smoke".to_owned()),
        }),
    }
}

#[test]
fn deploy_plan_collects_state_hooks_health_and_id() {
    let mut model = empty_model(vec![]);
    model.services.push(api_service());
    let code = DeployCodeRef {
        requested_ref: "release-tag".to_owned(),
        kind: "tag".to_owned(),
        resolved_ref: Some("v1.2.0".to_owned()),
        resolved_commit: Some("abc123".to_owned()),
    };
    let plan = build_deploy_plan(
        "prod/eu",
        &env_config(" Railway ", ReleasePolicy::Required, ArtifactPolicy::DigestPinned),
        &model,
        None,
        code,
        1700000000,
    );
    assert_eq!(plan.schema, "effigy.deploy.plan.v1");
    assert_eq!(plan.deployment_id, "1700000000-prod-eu-abc123");
    assert_eq!(plan.env, "prod/eu");
    assert_eq!(plan.app.project_name, "app");
    assert_eq!(plan.release_policy.mode, "required");
    assert!(plan.release_policy.required && plan.release_policy.gates_required);
    let state = plan.state.unwrap();
    assert_eq!(state.lineage_id, "prod-stack-planned");
    assert_eq!(state.planned_report_path, ".effigy/reports/state/prod-stack/latest-plan.json");
    assert_eq!(plan.artifact_policy.mode, "digest-pinned");
    let hooks: Vec<(String, String)> = plan.hooks.iter().map(|h| (h.stage.clone(), h.task.clone())).collect();
    assert_eq!(
        hooks,
        vec![
            ("before_state".to_owned(), "db:backup".to_owned()),
            ("after_deploy".to_owned(), "smoke".to_owned()),
        ]
    );
    assert_eq!(plan.health_checks.len(), 1);
    assert_eq!(plan.health_checks[0].path, "/v1/health");
    assert_eq!(plan.warnings.len(), 1);
    assert!(plan.blockers.is_empty());
    assert_eq!(plan.provider_preflight.status, "planned");
    let names: Vec<&str> = plan.provider_preflight.checks.iter().map(|c| c.name.as_str()).collect();
    assert_eq!(names, vec!["project", "services", "provider-adapter"]);
}

#[test]
fn deploy_plan_blocks_untagged_required_releases_and_unknown_providers() {
    let model = empty_model(vec![]);
    let code = DeployCodeRef {
        requested_ref: "branch:main".to_owned(),
        kind: "branch".to_owned(),
        resolved_ref: None,
        resolved_commit: None,
    };
    let plan = build_deploy_plan(
        "prod",
        &env_config("fly", ReleasePolicy::Required, ArtifactPolicy::MutableOk),
        &model,
        None,
        code,
        5,
    );
    assert!(plan.deployment_id.ends_with("-prod-unresolved"));
    assert_eq!(
        plan.blockers,
        vec![
            "release_policy `required` requires `code_ref = \"release-tag\"` or a tag ref".to_owned(),
            "release_policy `required` requires a resolvable release tag or immutable commit".to_owned(),
            "deploy provider `fly` is not supported; expected `railway` or `render`".to_owned(),
        ]
    );
    assert_eq!(plan.provider_preflight.status, "blocked");
    assert!(plan.warnings.is_empty());
}

#[test]
fn deploy_env_selection_names_the_known_environments() {
    let config = ManifestDeployConfig {
        providers: vec![],
        envs: vec![
            ("prod".to_owned(), env_config("railway", ReleasePolicy::Optional, ArtifactPolicy::MutableOk)),
            ("staging".to_owned(), env_config("render", ReleasePolicy::Disabled, ArtifactPolicy::DigestPreferred)),
        ],
    };
    assert_eq!(select_deploy_env(&config, "staging").unwrap().provider, "render");
    assert_eq!(
        invocation_message(select_deploy_env(&config, "qa").unwrap_err()),
        "deploy environment `qa` is not defined in `[deploy]`; available environments: prod, staging"
    );
}

#[test]
fn code_refs_resolve_through_git_by_kind() {
    let git = |args: &Vec<String>| -> Option<String> {
        match args.join(" ").as_str() {
            "describe --tags --abbrev=0" => Some("v2.0.0".to_owned()),
            "rev-parse v2.0.0" => Some("c0ffee".to_owned()),
            "rev-parse main" => Some("beef".to_owned()),
            _ => None,
        }
    };
    let release = resolve_code_ref("release-tag", &git);
    assert_eq!(release.kind, "tag");
    assert_eq!(release.resolved_ref.as_deref(), Some("v2.0.0"));
    assert_eq!(release.resolved_commit.as_deref(), Some("c0ffee"));

    let bare = resolve_code_ref("main", &git);
    assert_eq!((bare.kind.as_str(), bare.resolved_ref.as_deref()), ("branch", Some("main")));
    assert_eq!(bare.resolved_commit.as_deref(), Some("beef"));

    let sha = resolve_code_ref("sha:1234abcd", &git);
    assert_eq!(sha.resolved_commit.as_deref(), Some("1234abcd"));

    let other = resolve_code_ref("image:web@sha256", &git);
    assert_eq!(other.kind, "image");
    assert!(other.resolved_commit.is_none());

    let untagged = resolve_code_ref("release-tag", &|args: &Vec<String>| {
        if args[0] == "rev-parse" && args[1] == "HEAD" { Some("head".to_owned()) } else { None }
    });
    assert!(untagged.resolved_ref.is_none());
    assert_eq!(untagged.resolved_commit.as_deref(), Some("head"));
}

fn phase_report(schema: &str, provider: &str, phase: &str) -> DeployProviderPhaseReport {
    DeployProviderPhaseReport {
        schema: schema.to_owned(),
        phase: phase.to_owned(),
        provider: provider.to_owned(),
        status: "ok".to_owned(),
        checks: vec![],
        warnings: vec![],
        blockers: vec![],
        files: vec![],
    }
}

#[test]
fn provider_phase_reports_must_match_schema_provider_and_phase() {
    let schema = "effigy.deploy-provider.report.v1";
    assert!(validate_provider_phase_report("fly", "apply", &phase_report(schema, "fly", "apply")).is_ok());
    assert_eq!(
        invocation_message(validate_provider_phase_report("fly", "apply", &phase_report("v0", "fly", "apply")).unwrap_err()),
        "deploy provider `fly` apply report has unsupported schema `v0`"
    );
    assert_eq!(
        invocation_message(validate_provider_phase_report("fly", "apply", &phase_report(schema, "railway", "apply")).unwrap_err()),
        "deploy provider `fly` apply report declares provider `railway`"
    );
    assert_eq!(
        invocation_message(validate_provider_phase_report("fly", "apply", &phase_report(schema, "fly", "status")).unwrap_err()),
        "deploy provider `fly` apply report declares phase `status`"
    );
}

#[test]
fn deploy_plan_command_writes_latest_and_history_reports_when_asked() {
    let model = empty_model(vec![]);
    let code = DeployCodeRef {
        requested_ref: "sha:abc".to_owned(),
        kind: "sha".to_owned(),
        resolved_ref: Some("abc".to_owned()),
        resolved_commit: Some("abc".to_owned()),
    };
    let plan = build_deploy_plan(
        "prod",
        &env_config("railway", ReleasePolicy::Optional, ArtifactPolicy::MutableOk),
        &model,
        None,
        code,
        42,
    );
    let written = RefCell::new(Vec::new());
    let out = run_deploy_plan("/repo", "prod", plan, true, |paths: &Vec<String>, report: &_| {
        let r: &effigy_runner::deploy::transaction::DeployPlanReport = report;
        written.borrow_mut().extend(paths.iter().cloned());
        assert!(r.written_report_path.is_some());
        Ok(())
    })
    .unwrap();
    assert!(out.ok);
    assert_eq!(
        written.into_inner(),
        vec![
            "/repo/.effigy/reports/deploy/prod/latest.json".to_owned(),
            "/repo/.effigy/reports/deploy/prod/history/42-prod-abc.json".to_owned(),
        ]
    );
    assert_eq!(out.report.written_report_path.as_deref(), Some(".effigy/reports/deploy/prod/latest.json"));
    assert_eq!(
        out.report.written_history_path.as_deref(),
        Some(".effigy/reports/deploy/prod/history/42-prod-abc.json")
    );
    assert!(out.text.starts_with("[deploy] planned railway deployment to prod\ndeployment: 42-prod-abc"));

    let unwritten = run_deploy_plan(
        "/repo",
        "prod",
        build_deploy_plan(
            "prod",
            &env_config("heroku", ReleasePolicy::Optional, ArtifactPolicy::MutableOk),
            &model,
            None,
            DeployCodeRef {
                requested_ref: "main".to_owned(),
                kind: "branch".to_owned(),
                resolved_ref: Some("main".to_owned()),
                resolved_commit: None,
            },
            1,
        ),
        false,
        |_: &Vec<String>, _: &_| panic!("not written"),
    )
    .unwrap();
    assert!(!unwritten.ok);
    assert!(unwritten.report.written_report_path.is_none());
}

#[test]
fn history_directories_keep_only_json_reports() {
    let entries = vec![
        "/h/2.json".to_owned(),
        "/h/notes.txt".to_owned(),
        "/h/1.json".to_owned(),
        "/h/README".to_owned(),
    ];
    assert_eq!(history_report_files(&entries), vec!["/h/2.json".to_owned(), "/h/1.json".to_owned()]);
}
