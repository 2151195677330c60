use effigy_runner::demo::{render_demo_execute, DemoAttemptSummary, DemoExecuteOutput};
use effigy_runner::demo::{render_demo_stop, DemoStopFailure, PersistedPhase};
use effigy_runner::demo::{
    demo_sources_for_id, execute_concurrent_runner_backed_demo, execute_task_backed_demo,
    materialize_demo_special_managed_processes, ManagedProcess, ManagedProcessRole,
    ProcessRendering, TaskDemoOutcome, demo_error, demo_history_selection, demo_log_paths_for_launch_mode, demo_record_group_by,
    demo_runtime_backend_from_entrypoint, demo_stop_step, pid_is_alive, render_demo_execute_text,
    render_demo_history, render_demo_input, render_demo_inspect, render_demo_list,
    render_demo_resize, run_concurrent_runner_demo_runtime, wrap_pty_shell_command, DemoAttemptKind,
    DemoBlock, DemoHistoricalAttempt, DemoHistoryQuery, DemoLatestAttempt, DemoLaunchMode,
    DemoListGroupBy, DemoListQuery, DemoLogLayout, DemoRecordGroupBy, DemoRecordView,
    DemoRuntimeBackend, DemoStopDecision, DemoStopStep, HistoryPick, KillProbe,
};
use effigy_runner::error::RunnerError;

fn record() -> DemoRecordView {
    DemoRecordView {
        id: "demo".to_owned(),
        title: "Demo".to_owned(),
        summary: "summary".to_owned(),
        proof: "proof".to_owned(),
        owner: "owner".to_owned(),
        mode: "interactive".to_owned(),
        base_status: "ready".to_owned(),
        effective_status: "ready".to_owned(),
        freshness: "fresh".to_owned(),
        gap: "existing".to_owned(),
        entrypoint: "run: printf demo".to_owned(),
        defined_in: "effigy.toml".to_owned(),
        covers: Vec::new(),
        tags: vec!["cli".to_owned()],
        sources: vec!["effigy.toml".to_owned()],
        prerequisites: Vec::new(),
        dependencies: Vec::new(),
        latest: DemoLatestAttempt {
            state_label: "recorded".to_owned(),
            outcome: Some("terminated".to_owned()),
            summary: Some("terminated".to_owned()),
            receipt_path: Some(".effigy/demo/receipts/demo.json".to_owned()),
            parse_error: None,
            stdout_log_path: None,
            stderr_log_path: None,
            artifacts: Vec::new(),
        },
        history_path: None,
        history_parse_error: None,
        stored_attempts: 0,
        recent_stdout: Vec::new(),
        recent_stderr: Vec::new(),
    }
}

fn values(block: &DemoBlock) -> Vec<(String, String)> {
    match block {
        DemoBlock::KeyValues(kvs) => kvs.iter().map(|k| (k.key.clone(), k.value.clone())).collect(),
        other => panic!("expected key values, got {other:?}"),
    }
}

#[test]
fn wrap_pty_shell_command_prefixes_stty_with_terminal_size() {
    let wrapped = wrap_pty_shell_command("printf demo", Some((96, 28)));
    assert_eq!(wrapped, "printf demo");
}

#[test]
fn render_demo_execute_treats_terminated_attempt_as_non_error_text_result() {
    let blocks = render_demo_execute_text(
        &record(),
        "Demo Run",
        "terminated",
        Some("Demo `demo` was terminated after stop was requested."),
    );
    let kvs = values(&blocks[1]);
    assert!(kvs.contains(&("outcome".to_owned(), "terminated".to_owned())));
    assert!(!format!("{blocks:?}").contains("[error] Task failed"));
    assert!(matches!(&blocks[0], DemoBlock::Section(t) if t == "Demo Run"));
    assert!(matches!(&blocks[3], DemoBlock::Notice(n) if n.contains("terminated after stop")));
}

#[test]
fn history_selection_rejects_both_selectors_and_counts_ordinals_from_one() {
    assert_eq!(
        demo_history_selection("demo", Some("a1"), Some(1), Some(0), 3).unwrap_err(),
        "choose either `--attempt <ATTEMPT_ID>` or `--ordinal <N>`, not both"
    );
    assert_eq!(demo_history_selection("demo", None, None, None, 3).unwrap(), HistoryPick::NoAttempt);
    assert_eq!(demo_history_selection("demo", None, Some(2), None, 3).unwrap(), HistoryPick::Displayed(1));
    assert_eq!(
        demo_history_selection("demo", None, Some(4), None, 3).unwrap_err(),
        "retained attempt ordinal `4` was not found in the current history result for demo `demo`"
    );
    assert_eq!(demo_history_selection("demo", Some("a1"), None, Some(5), 3).unwrap(), HistoryPick::Retained(5));
    assert_eq!(
        demo_history_selection("demo", Some("a9"), None, None, 3).unwrap_err(),
        "retained attempt `a9` was not found for demo `demo`"
    );
}

#[test]
fn history_without_attempts_says_none_are_recorded() {
    let q = DemoHistoryQuery { limit: Some(5), outcome: None, attempt_id: None, ordinal: None };
    let blocks = render_demo_history(&record(), &q, 0, 0, None);
    let head = values(&blocks[1]);
    assert!(head.contains(&("limit".to_owned(), "5".to_owned())));
    assert!(head.contains(&("outcome".to_owned(), "all".to_owned())));
    assert!(head.contains(&("history-path".to_owned(), "<none>".to_owned())));
    assert!(blocks.iter().any(|b| matches!(b, DemoBlock::Notice(n)
        if n == "No retained terminal attempts are recorded for this demo yet.")));
}

#[test]
fn history_shows_the_selected_attempt() {
    let mut r = record();
    r.stored_attempts = 1;
    let attempt = DemoHistoricalAttempt {
        attempt_id: "a1".to_owned(),
        recorded_at_epoch_ms: 1700,
        outcome: "failed".to_owned(),
        exit_code: Some(-2),
        receipt_path: None,
        stdout_log_path: None,
        stderr_log_path: None,
        summary: None,
        artifacts: Vec::new(),
    };
    let q = DemoHistoryQuery { limit: None, outcome: Some("failed".to_owned()), attempt_id: None, ordinal: Some(1) };
    let blocks = render_demo_history(&r, &q, 1, 1, Some(&attempt));
    assert!(blocks.iter().any(|b| matches!(b, DemoBlock::RecentAttempts)));
    let selected = blocks
        .iter()
        .position(|b| matches!(b, DemoBlock::Section(t) if t == "Selected Attempt"))
        .expect("selected section");
    let kvs = values(&blocks[selected + 1]);
    assert_eq!(kvs[0], ("attempt-id".to_owned(), "a1".to_owned()));
    assert_eq!(kvs[1], ("recorded-at-epoch-ms".to_owned(), "1700".to_owned()));
    assert_eq!(kvs[3], ("exit-code".to_owned(), "-2".to_owned()));
    assert!(blocks.iter().any(|b| matches!(b, DemoBlock::Notice(n)
        if n == "No artifacts were recorded for the selected historical attempt.")));
}

#[test]
fn inspect_lists_only_what_the_demo_declares() {
    let blocks = render_demo_inspect(&record());
    assert!(matches!(&blocks[0], DemoBlock::Section(t) if t == "Demo Inspect"));
    assert!(blocks.iter().any(|b| matches!(b, DemoBlock::Bullets(l, _) if l == "tags")));
    assert!(!blocks.iter().any(|b| matches!(b, DemoBlock::Bullets(l, _) if l == "covers")));
    assert!(!blocks.iter().any(|b| matches!(b, DemoBlock::Bullets(l, _) if l == "sources")));
    assert!(!blocks.iter().any(|b| matches!(b, DemoBlock::RecentAttempts)));
}

#[test]
fn demo_input_forwards_text_with_its_newline() {
    let (plan, blocks) = render_demo_input("demo", "héllo", true, true, true, Some("in.txt")).unwrap();
    assert_eq!(plan.forwarded_text, "héllo\n");
    assert_eq!(plan.forwarded_bytes, 7);
    assert_eq!(plan.input_path, "in.txt");
    assert!(values(&blocks[1]).contains(&("forwarded-bytes".to_owned(), "7".to_owned())));
    assert_eq!(
        render_demo_input("demo", "x", false, false, true, Some("in.txt")).unwrap_err(),
        "demo `demo` has no active terminal session to receive input"
    );
    assert_eq!(
        render_demo_input("demo", "x", false, true, false, Some("in.txt")).unwrap_err(),
        "demo `demo` does not expose terminal input forwarding in the current runtime"
    );
    assert_eq!(
        render_demo_input("demo", "x", false, true, true, None).unwrap_err(),
        "demo `demo` does not expose a writable terminal input handoff"
    );
}

#[test]
fn demo_resize_reports_the_new_size() {
    let (path, blocks) = render_demo_resize("demo", 96, 28, true, true, Some("resize.jsonl")).unwrap();
    assert_eq!(path, "resize.jsonl");
    assert_eq!(
        values(&blocks[1]),
        vec![
            ("demo".to_owned(), "demo".to_owned()),
            ("cols".to_owned(), "96".to_owned()),
            ("rows".to_owned(), "28".to_owned()),
        ]
    );
    assert_eq!(
        render_demo_resize("demo", 1, 1, true, false, None).unwrap_err(),
        "demo `demo` does not expose terminal resize handoff in the current runtime"
    );
}

#[test]
fn demo_stop_steps_follow_the_decision() {
    assert!(matches!(demo_stop_step("d", DemoStopDecision::AlreadyRequested),
        DemoStopStep::Report(s) if s == "stop already requested"));
    assert!(matches!(demo_stop_step("d", DemoStopDecision::SignalPid { target_pid: 42 }),
        DemoStopStep::SignalThenReport { target_pid: 42, summary } if summary == "stop requested"));
    assert!(matches!(demo_stop_step("d", DemoStopDecision::ProcessNotRunning),
        DemoStopStep::ClearThenFail(m) if m == "demo `d` is no longer running"));
    assert!(matches!(demo_stop_step("d", DemoStopDecision::TaskEntrypointNotStoppable { task_name: "t".to_owned() }),
        DemoStopStep::Fail(m) if m == "demo `d` uses task entrypoint `t`; stop is not supported until task execution exposes cancellable handles"));
}

#[test]
fn concurrent_demo_outcome_prefers_stop_then_failure() {
    let (kind, summary) = run_concurrent_runner_demo_runtime("d", "dev", "default", true, true, Some("web exited 1"));
    assert_eq!(kind, DemoAttemptKind::Terminated);
    assert_eq!(summary, "Demo `d` terminated after stop request while projecting managed task `dev`.");
    let (kind, summary) = run_concurrent_runner_demo_runtime("d", "dev", "default", false, true, Some("web exited 1"));
    assert_eq!(kind, DemoAttemptKind::Failed);
    assert_eq!(summary, "Demo `d` failed via managed task `dev`: web exited 1");
    let (kind, summary) = run_concurrent_runner_demo_runtime("d", "dev", "default", false, false, Some("web exited 1"));
    assert_eq!(kind, DemoAttemptKind::Succeeded);
    assert_eq!(summary, "Demo `d` completed via managed task `dev` profile `default`.");
}

#[test]
fn demo_helpers_map_their_choices() {
    assert_eq!(demo_log_paths_for_launch_mode(DemoLaunchMode::AttachedPty), DemoLogLayout::Pty);
    assert_eq!(demo_log_paths_for_launch_mode(DemoLaunchMode::DetachedJson), DemoLogLayout::Split);
    assert_eq!(demo_record_group_by(DemoListGroupBy::Gap), DemoRecordGroupBy::Gap);
    assert!(matches!(demo_runtime_backend_from_entrypoint(false, true, Vec::new()), DemoRuntimeBackend::Run));
    assert!(matches!(demo_runtime_backend_from_entrypoint(true, false, Vec::new()), DemoRuntimeBackend::Task));
    assert!(!pid_is_alive(0, |_| KillProbe::Delivered));
    assert!(pid_is_alive(7, |_| KillProbe::PermissionDenied));
    assert!(!pid_is_alive(7, |_| KillProbe::NoSuchProcess));
    match demo_error(true, "m".to_owned(), "{\"ok\":false}".to_owned()) {
        Err(RunnerError::CommandJsonFailure { rendered }) => assert_eq!(rendered, "{\"ok\":false}"),
        other => panic!("unexpected {other:?}"),
    }
    assert!(matches!(demo_error(false, "m".to_owned(), String::new()),
        Err(RunnerError::TaskInvocation { message }) if message == "m"));
}

#[test]
fn demo_list_without_demos_explains_why() {
    let empty = DemoListQuery {
        search: None,
        owner: None,
        tag: None,
        mode: None,
        cover: None,
        status: None,
        gap: None,
        stale_only: false,
        group_by: None,
    };
    let blocks = render_demo_list(&empty, 0, None);
    assert!(matches!(&blocks[1], DemoBlock::Notice(n)
        if n == "No demos are declared in the current effigy.toml manifest."));
    let filtered = DemoListQuery { owner: Some("ops".to_owned()), ..empty };
    let blocks = render_demo_list(&filtered, 0, None);
    assert!(matches!(&blocks[1], DemoBlock::Notice(n) if n == "No demos matched the current discovery query."));
    let groups = vec!["ops".to_owned(), "web".to_owned()];
    let blocks = render_demo_list(&filtered, 2, Some(&groups));
    assert!(blocks.iter().any(|b| matches!(b, DemoBlock::Section(t) if t == "Group: web")));
    assert!(blocks.iter().any(|b| matches!(b, DemoBlock::DemosTable(Some(1)))));
}

#[test]
fn demo_sources_keep_each_file_once_in_first_order() {
    let entries = vec![
        ("demos.intro.title".to_owned(), "effigy.toml".to_owned()),
        ("demos.intro2.title".to_owned(), "other.toml".to_owned()),
        ("demos.intro".to_owned(), "demos/intro.toml".to_owned()),
        ("demos.intro.summary".to_owned(), "effigy.toml".to_owned()),
        ("tasks.intro".to_owned(), "tasks.toml".to_owned()),
    ];
    assert_eq!(
        demo_sources_for_id("intro", &entries),
        vec!["effigy.toml".to_owned(), "demos/intro.toml".to_owned()]
    );
}

#[test]
fn managed_processes_are_rewritten_by_role() {
    let mut processes = vec![
        ManagedProcess {
            name: "life".to_owned(),
            role: ManagedProcessRole::Lifecycle,
            run_on_host: false,
            setup: None,
            run: "old".to_owned(),
        },
        ManagedProcess {
            name: "host".to_owned(),
            role: ManagedProcessRole::Standard,
            run_on_host: true,
            setup: Some("npm ci".to_owned()),
            run: "npm run dev".to_owned(),
        },
        ManagedProcess {
            name: "api".to_owned(),
            role: ManagedProcessRole::Standard,
            run_on_host: false,
            setup: None,
            run: "cargo run".to_owned(),
        },
    ];
    materialize_demo_special_managed_processes(&mut processes, false, true, |p: &ManagedProcess, k: ProcessRendering| {
        format!("{k:?}:{}", p.name)
    });
    assert_eq!(processes[0].run, "Lifecycle:life");
    assert_eq!(processes[1].run, "npm ci\nnpm run dev");
    assert_eq!(processes[2].run, "StandardExec:api");
    assert_eq!(processes[1].setup.as_deref(), Some("npm ci"));
}

#[test]
fn task_backed_demo_outcomes_follow_the_task_result() {
    assert!(matches!(execute_task_backed_demo("d", "t", false, Ok(String::new()), ""),
        TaskDemoOutcome::Succeeded(s) if s == "Demo `d` completed via task `t`."));
    assert!(matches!(execute_task_backed_demo("d", "t", true, Ok("{}".to_owned()), ""),
        TaskDemoOutcome::ParseJson(s) if s == "{}"));
    let failure = RunnerError::TaskCommandFailure {
        command: "t".to_owned(),
        code: Some(2),
        stdout: String::new(),
        stderr: String::new(),
    };
    assert!(matches!(execute_task_backed_demo("d", "t", false, Err(failure), "exit 2"),
        TaskDemoOutcome::Failed { code: Some(2), summary } if summary == "Demo `d` failed via task `t`."));
    assert!(matches!(execute_task_backed_demo("d", "t", false, Err(RunnerError::task_invocation("nope")), "nope"),
        TaskDemoOutcome::Failed { code: None, summary } if summary == "Demo `d` failed to run task `t`: nope"));
    let handoffs = execute_concurrent_runner_backed_demo(false, false, Some("web".to_owned()));
    assert_eq!(handoffs.input_target, None);
    assert!(!handoffs.resize);
    let handoffs = execute_concurrent_runner_backed_demo(true, false, Some("web".to_owned()));
    assert_eq!(handoffs.input_target.as_deref(), Some("web"));
    assert!(handoffs.resize);
}

#[test]
fn demo_stop_restores_running_when_the_signal_fails() {
    let phases = std::cell::RefCell::new(Vec::new());
    let result = render_demo_stop(
        "d",
        DemoStopDecision::SignalPid { target_pid: 9 },
        |p: PersistedPhase| {
            phases.borrow_mut().push(p);
            Ok(())
        },
        |_pid: u32| Err(RunnerError::task_invocation("failed to send stop signal")),
        || {},
    );
    assert!(matches!(result, Err(DemoStopFailure::Failed(RunnerError::TaskInvocation { ref message }))
        if message == "failed to send stop signal"));
    assert_eq!(*phases.borrow(), vec![PersistedPhase::StopRequested, PersistedPhase::Running]);

    let phases = std::cell::RefCell::new(Vec::new());
    let result = render_demo_stop(
        "d",
        DemoStopDecision::SignalPid { target_pid: 9 },
        |p: PersistedPhase| {
            phases.borrow_mut().push(p);
            Ok(())
        },
        |_pid: u32| Ok(()),
        || {},
    );
    assert_eq!(result.unwrap(), "stop requested");
    assert_eq!(*phases.borrow(), vec![PersistedPhase::StopRequested]);

    let cleared = std::cell::Cell::new(false);
    let result = render_demo_stop("d", DemoStopDecision::ProcessNotRunning, |_p: PersistedPhase| Ok(()), |_pid: u32| Ok(()), || cleared.set(true));
    assert!(matches!(result, Err(DemoStopFailure::Refused(ref m)) if m == "demo `d` is no longer running"));
    assert!(cleared.get());
}

#[test]
fn demo_execute_refuses_while_active_and_reports_failures_by_receipt() {
    let result = render_demo_execute(
        "d",
        "Demo Run",
        false,
        true,
        || Ok(DemoAttemptSummary { ok: true, outcome: "success".to_owned(), summary: None }),
        |_a: &DemoAttemptSummary| Ok(()),
        || Ok(record()),
        |_r: &DemoRecordView, _a: &DemoAttemptSummary| Ok(String::new()),
    );
    assert!(matches!(result, Err(RunnerError::TaskInvocation { ref message })
        if message == "demo `d` already has an active attempt; stop it before starting a fresh run"));

    let failed = || Ok(DemoAttemptSummary { ok: false, outcome: "failed".to_owned(), summary: None });
    let result = render_demo_execute(
        "d",
        "Demo Run",
        false,
        false,
        failed,
        |_a: &DemoAttemptSummary| Ok(()),
        || Ok(record()),
        |_r: &DemoRecordView, _a: &DemoAttemptSummary| Ok(String::new()),
    );
    assert!(matches!(result, Err(RunnerError::TaskInvocation { ref message })
        if message == "demo `d` failed; latest attempt written to .effigy/demo/receipts/demo.json"));

    let result = render_demo_execute(
        "d",
        "Demo Run",
        true,
        false,
        failed,
        |_a: &DemoAttemptSummary| Ok(()),
        || Ok(record()),
        |_r: &DemoRecordView, _a: &DemoAttemptSummary| Ok("{\"ok\":false}".to_owned()),
    );
    assert!(matches!(result, Err(RunnerError::CommandJsonFailure { ref rendered }) if rendered == "{\"ok\":false}"));

    let terminated = || Ok(DemoAttemptSummary { ok: false, outcome: "terminated".to_owned(), summary: None });
    let result = render_demo_execute(
        "d",
        "Demo Rerun",
        false,
        false,
        terminated,
        |_a: &DemoAttemptSummary| Ok(()),
        || Ok(record()),
        |_r: &DemoRecordView, _a: &DemoAttemptSummary| Ok(String::new()),
    );
    assert!(matches!(result, Ok(DemoExecuteOutput::Blocks(ref b)) if matches!(&b[0], DemoBlock::Section(t) if t == "Demo Rerun")));
}
