use effigy_runner::deps::{
    cargo_pin_unsupported, finish_deps_operation, render_bun_link, render_bun_pin,
    render_bun_unlink, render_cargo_link, render_cargo_unlink, render_deps_status,
    resolve_link_library_path, run_deps_with_home_and_process, status_summary, DepsCommand,
    DepsManager, BunLinkReport, BunPinOperation, BunPinOutcome,
    BunPinPackage, BunPinPackageAction, BunPinReport, BunPinVerificationStatus,
    BunProcessIntent, BunUnlinkReport, CargoLinkReport, CargoUnlinkReport, DepsDriftReason,
    DepsImmutableFile, DepsLinkDesired, DepsLinkStatus, DepsStatusPeer,
};
use effigy_runner::error::RunnerError;

fn message(e: RunnerError) -> String {
    match e {
        RunnerError::TaskInvocation { message } => message,
        other => panic!("expected a task invocation error, got {other:?}"),
    }
}

#[test]
fn cargo_pin_and_unpin_fail_as_explicitly_unsupported() {
    for unpin in [false, true] {
        let text = message(cargo_pin_unsupported(unpin));
        assert!(text.contains("unsupported"));
        assert!(text.contains("only for Bun overrides"));
    }
    assert!(message(cargo_pin_unsupported(true)).starts_with("`effigy deps unpin cargo`"));
}

#[test]
fn relative_link_library_paths_resolve_from_the_selected_repo() {
    assert_eq!(resolve_link_library_path("/repo", "/repo"), "/repo");
    assert_eq!(resolve_link_library_path("/repo", "missing-library"), "/repo/missing-library");
    assert_eq!(resolve_link_library_path("/repo/", "lib"), "/repo/lib");
}

#[test]
fn bare_status_renders_empty_text_and_json_from_the_same_report() {
    let text = render_deps_status("/repo", None, &Vec::new());
    assert!(text.contains("[deps] status"));
    assert!(text.contains("no machine-local dependency links configured"));
    assert_eq!(
        text,
        "[deps] status\nrepo: /repo\nmanager: all\nlinks: 0\nno machine-local dependency links configured"
    );
    let summary = status_summary(&Vec::new()).unwrap();
    assert_eq!(summary.total, 0);
}

fn conflict_link() -> DepsLinkStatus {
    DepsLinkStatus {
        manager: "bun".to_owned(),
        state: "conflict".to_owned(),
        desired: Some(DepsLinkDesired {
            library_path: "/repo/library".to_owned(),
            mechanism: "bun-link".to_owned(),
            consumer_roots: vec!["/repo".to_owned()],
            packages: vec!["@scope/core".to_owned()],
        }),
        verification_status: "Failed".to_owned(),
        drift: vec![DepsDriftReason {
            severity: "error".to_owned(),
            code: "bun-peer-duplicate-resolution".to_owned(),
            message: "Svelte resolves from two paths".to_owned(),
            package: Some("@scope/core".to_owned()),
            evidence: vec![
                "/repo/node_modules/svelte".to_owned(),
                "/repo/library/core/node_modules/svelte".to_owned(),
            ],
            remediation: Some("hoist/dedupe Svelte".to_owned()),
        }],
        peer_diagnostics: vec![DepsStatusPeer {
            package: "@scope/core".to_owned(),
            peer: "svelte".to_owned(),
            requirement: "^5".to_owned(),
            status: "duplicate".to_owned(),
            consumer_resolution: Some("/repo/node_modules/svelte".to_owned()),
            local_resolution: Some("/repo/library/core/node_modules/svelte".to_owned()),
        }],
    }
}

#[test]
fn status_text_and_json_share_health_evidence_and_peer_diagnostics() {
    let links = vec![conflict_link()];
    let text = render_deps_status("/repo", None, &links);
    assert!(text.contains("mechanism: bun-link"));
    assert!(text.contains("consumers: /repo"));
    assert!(text.contains("[error] bun-peer-duplicate-resolution"));
    assert!(text.contains("evidence: /repo/node_modules/svelte"));
    assert!(text.contains("remediation: hoist/dedupe Svelte"));
    assert!(text.contains("peer diagnostics: 1"));
    assert!(text.contains("verification: failed"));
    let summary = status_summary(&links).unwrap();
    assert_eq!(summary.errors, 1);
    assert_eq!(summary.warnings, 0);
    assert_eq!(summary.conflict, 1);
    assert_eq!(summary.healthy, 0);
}

#[test]
fn status_text_of_one_link_is_exact() {
    let text = render_deps_status("/repo", Some("bun"), &vec![conflict_link()]);
    assert_eq!(
        text,
        "[deps] status\nrepo: /repo\nmanager: bun\nlinks: 1\n\n[bun] conflict: /repo/library\ndesired: linked\nmechanism: bun-link\nconsumers: /repo\npackages: @scope/core\nverification: failed\n- [error] bun-peer-duplicate-resolution: Svelte resolves from two paths\n  package: @scope/core\n  evidence: /repo/node_modules/svelte\n  evidence: /repo/library/core/node_modules/svelte\n  remediation: hoist/dedupe Svelte\npeer diagnostics: 1\n- @scope/core -> svelte ^5: duplicate\n  consumer: /repo/node_modules/svelte\n  local: /repo/library/core/node_modules/svelte"
    );
}

#[test]
fn finish_deps_operation_passes_success_and_promotes_failures() {
    assert_eq!(
        finish_deps_operation("deps link cargo", "applied", true, &Vec::new(), "ok".to_owned()).unwrap(),
        "ok"
    );
    match finish_deps_operation("deps link cargo", "applied", true, &vec!["boom".to_owned()], "r".to_owned()) {
        Err(RunnerError::DepsOperationNonZero { command, outcome, error_count, rendered }) => {
            assert_eq!(command, "deps link cargo");
            assert_eq!(outcome, "applied");
            assert_eq!(error_count, 1);
            assert_eq!(rendered, "r");
        }
        other => panic!("unexpected {other:?}"),
    }
    assert!(finish_deps_operation("c", "failed", false, &Vec::new(), String::new()).is_err());
}

fn empty_unlink(outcome: &str) -> BunUnlinkReport {
    BunUnlinkReport {
        library_path: "/repo/library".to_owned(),
        outcome: outcome.to_owned(),
        verification_status: "NotRun".to_owned(),
        symlink_intents: Vec::new(),
        packages: Vec::new(),
        process_intents: Vec::new(),
        immutable_files: Vec::new(),
        warnings: Vec::new(),
        rollback_attempted: false,
        rollback_consumer_links: 0,
        rollback_registrations: 0,
        rollback_failures: 0,
        errors: Vec::new(),
    }
}

#[test]
fn bun_unlink_noop_text_and_json_are_successful_and_non_mutating() {
    let text = render_bun_unlink("/repo", &empty_unlink("no-op"));
    assert!(text.contains("[deps] unlink bun"));
    assert!(text.contains("outcome: no-op"));
    assert_eq!(
        text,
        "[deps] unlink bun\nrepo: /repo\nlibrary: /repo/library\noutcome: no-op\nverification: notrun\n\nConsumer link removals (0)\n- none; matching local symlinks are already absent\n\nRegistration releases (0)\n\nUnregister processes (0)\n- none; shared/foreign/unverifiable registrations retained\n\nImmutable files (0)"
    );
}

#[test]
fn bun_link_lists_intents_files_and_rollback() {
    let report = BunLinkReport {
        library_path: "/lib".to_owned(),
        dry_run: true,
        outcome: "dry-run".to_owned(),
        committed_pin_active: false,
        verification_status: "NotRun".to_owned(),
        process_intents: vec![BunProcessIntent {
            action: "Register".to_owned(),
            packages: vec!["a".to_owned(), "b".to_owned()],
            cwd: "/lib".to_owned(),
            program: "bun".to_owned(),
            args: vec!["link".to_owned()],
        }],
        packages: Vec::new(),
        evidence: Vec::new(),
        immutable_files: vec![DepsImmutableFile { path: "bun.lock".to_owned(), unchanged: true }],
        peer_diagnostics: Vec::new(),
        warnings: Vec::new(),
        rollback_attempted: true,
        rollback_consumer_links: 1,
        rollback_registrations: 2,
        rollback_files: 3,
        rollback_failures: 0,
        errors: vec!["bad".to_owned()],
    };
    let text = render_bun_link("/repo", &report);
    assert!(text.contains("\n- register a,b @ /lib: bun link\n"));
    assert!(text.contains("\n- bun.lock: unchanged"));
    assert!(text.contains("Rollback: consumer 1, registrations 2, files 3, failures 0"));
    assert!(text.ends_with("Errors (1)\n- bad"));
}

#[test]
fn cargo_link_with_nothing_to_change_says_so() {
    let report = CargoLinkReport {
        library_path: "/lib".to_owned(),
        dry_run: true,
        outcome: "no-op".to_owned(),
        verification_status: "NotRun".to_owned(),
        changes: Vec::new(),
        warnings: Vec::new(),
        expected_resolutions: Vec::new(),
        evidence: Vec::new(),
        affected_lockfiles: vec!["Cargo.lock".to_owned()],
        rollback_attempted: false,
        rollback_restored: 0,
        rollback_failures: 0,
        errors: Vec::new(),
    };
    let text = render_cargo_link("/repo", &report);
    assert!(text.starts_with("[deps] link cargo\nrepo: /repo\nlibrary: /lib\noutcome: no-op\n"));
    assert!(text.contains("- none; physical state already matches the plan"));
    assert!(text.contains("- Cargo.lock (do not commit while linked)"));
}

#[test]
fn cargo_unlink_dry_run_text_and_json_keep_the_exact_linked_state() {
    let report = CargoUnlinkReport {
        library_path: "/lib".to_owned(),
        dry_run: true,
        outcome: "dry-run".to_owned(),
        verification_status: "NotRun".to_owned(),
        changes: Vec::new(),
        warnings: Vec::new(),
        expected_resolutions: Vec::new(),
        evidence: Vec::new(),
        lockfiles: Vec::new(),
        removed_directories: Vec::new(),
        errors: Vec::new(),
    };
    let text = render_cargo_unlink("/repo", &report);
    assert!(text.contains("- none; dependency link is already absent"));
    assert!(text.contains("Lock recovery (0)\n- not run"));
}

#[test]
fn pin_text_and_json_share_committed_semantics_and_next_action() {
    let report = BunPinReport {
        operation: BunPinOperation::Pin,
        repo_root: "/repo".to_owned(),
        manifest_path: "/repo/package.json".to_owned(),
        library_path: "/lib".to_owned(),
        dry_run: true,
        outcome: BunPinOutcome::DryRun,
        outcome_text: "dry-run".to_owned(),
        packages: vec![BunPinPackage {
            name: "@acme/core".to_owned(),
            action: BunPinPackageAction::Add,
            local_path: "/lib".to_owned(),
            before: None,
            after: Some("link:/lib".to_owned()),
        }],
        writes: Vec::new(),
        verification: BunPinVerificationStatus::NotRun,
        install_pending: true,
        immutable_files: Vec::new(),
        warnings: Vec::new(),
        errors: Vec::new(),
    };
    let text = render_bun_pin(&report);
    assert!(text.starts_with("[deps] pin bun\nrepo: /repo\nmanifest: /repo/package.json\nlibrary: /lib\ndry-run: true\noutcome: dry-run\n"));
    assert!(text.contains("- @acme/core: add\n  local: /lib\n  before: <absent>\n  after: link:/lib"));
    assert!(text.contains("Writes (0)\n- none"));
    assert!(text.contains("Verification: not-run\ndependency install pending: true"));
    assert!(text.ends_with(
        "Next actions\n- re-run `effigy deps pin bun /lib` without `--dry-run`\n- then run `bun install` and review the resulting lockfile separately"
    ));
}

#[test]
fn pin_conflict_next_actions_lead_with_the_errors() {
    let report = BunPinReport {
        operation: BunPinOperation::Unpin,
        repo_root: "/repo".to_owned(),
        manifest_path: "/repo/package.json".to_owned(),
        library_path: "/lib".to_owned(),
        dry_run: false,
        outcome: BunPinOutcome::Conflict,
        outcome_text: "conflict".to_owned(),
        packages: Vec::new(),
        writes: Vec::new(),
        verification: BunPinVerificationStatus::Failed,
        install_pending: false,
        immutable_files: Vec::new(),
        warnings: Vec::new(),
        errors: vec!["override differs".to_owned()],
    };
    let text = render_bun_pin(&report);
    assert!(text.starts_with("[deps] unpin bun\n"));
    assert!(text.ends_with(
        "Errors (1)\n- override differs\n\nNext actions\n- override differs\n- resolve the conflict, then re-run the same command"
    ));
}

#[test]
fn manager_filter_keeps_only_matching_reports() {
    let mut cargo = conflict_link();
    cargo.manager = "cargo".to_owned();
    let links = vec![cargo, conflict_link()];
    let kept = effigy_runner::deps::retain_manager_links(links, Some("cargo"));
    assert_eq!(kept.len(), 1);
    assert_eq!(kept[0].manager, "cargo");
    let summary = status_summary(&kept).unwrap();
    assert_eq!(summary.total, 1);
    let all = effigy_runner::deps::retain_manager_links(vec![conflict_link(), conflict_link()], None);
    assert_eq!(all.len(), 2);
}

fn ok(label: &'static str) -> impl FnOnce() -> Result<String, RunnerError> {
    move || Ok(label.to_owned())
}

#[test]
fn deps_dispatch_runs_the_named_operation_and_refuses_cargo_pinning() {
    let run = |command| {
        run_deps_with_home_and_process(
            command,
            ok("status"),
            ok("cargo link"),
            ok("bun link"),
            ok("cargo unlink"),
            ok("bun unlink"),
            ok("bun pin"),
            ok("bun unpin"),
        )
    };
    assert_eq!(run(DepsCommand::Status).unwrap(), "status");
    assert_eq!(run(DepsCommand::Link(DepsManager::Cargo)).unwrap(), "cargo link");
    assert_eq!(run(DepsCommand::Unlink(DepsManager::Bun)).unwrap(), "bun unlink");
    assert_eq!(run(DepsCommand::Pin(DepsManager::Bun)).unwrap(), "bun pin");
    assert_eq!(run(DepsCommand::Unpin(DepsManager::Bun)).unwrap(), "bun unpin");
    assert_eq!(
        message(run(DepsCommand::Pin(DepsManager::Cargo)).unwrap_err()),
        "`effigy deps pin cargo` is unsupported; committed pinning is available only for Bun overrides"
    );
    assert_eq!(
        message(run(DepsCommand::Unpin(DepsManager::Cargo)).unwrap_err()),
        "`effigy deps unpin cargo` is unsupported; committed pinning is available only for Bun overrides"
    );
}
