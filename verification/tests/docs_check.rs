use effigy_runner::docs_check::{
    check_arguments, dispatch_docs_report, run_add_log_index, DocsCheckReport, DocsPathCheck,
};
use effigy_runner::error::RunnerError;
use std::cell::RefCell;

fn message(error: RunnerError) -> String {
    match error {
        RunnerError::TaskInvocation { message } => message,
        other => panic!("unexpected {other:?}"),
    }
}

fn report(ok: bool) -> DocsCheckReport {
    DocsCheckReport {
        ok,
        json: "{\"ok\":false}".to_owned(),
        success_text: "all good".to_owned(),
        failure_text: "2 findings".to_owned(),
    }
}

#[test]
fn docs_report_answers_by_outcome_and_mode() {
    assert_eq!(dispatch_docs_report(report(true), false).unwrap(), "all good");
    assert_eq!(dispatch_docs_report(report(true), true).unwrap(), "{\"ok\":false}");
    assert_eq!(message(dispatch_docs_report(report(false), false).unwrap_err()), "2 findings");
    assert_eq!(message(dispatch_docs_report(report(false), true).unwrap_err()), "{\"ok\":false}");
}

#[test]
fn docs_check_arguments_name_what_is_missing() {
    assert_eq!(
        message(check_arguments(DocsPathCheck::Headings, 0, 1).unwrap_err()),
        "`check-headings` requires at least one file path"
    );
    assert_eq!(
        message(check_arguments(DocsPathCheck::Headings, 1, 0).unwrap_err()),
        "`check-headings` requires at least one `--require-heading` value"
    );
    assert_eq!(
        message(check_arguments(DocsPathCheck::Contains, 2, 0).unwrap_err()),
        "`check-contains` requires at least one `--require` value"
    );
    assert_eq!(
        message(check_arguments(DocsPathCheck::Forbidden, 1, 0).unwrap_err()),
        "`check-forbidden` requires at least one `--forbid` value"
    );
    assert_eq!(
        message(check_arguments(DocsPathCheck::Paths, 0, 0).unwrap_err()),
        "`check-paths` requires at least one path"
    );
    assert!(check_arguments(DocsPathCheck::Paths, 1, 0).is_ok());
    assert!(check_arguments(DocsPathCheck::Forbidden, 1, 1).is_ok());
}

#[test]
fn add_log_index_inserts_a_new_entry_once() {
    let written = RefCell::new(None);
    let seen = RefCell::new(None);
    let out = run_add_log_index(
        "/repo",
        "docs/logs/2024-01-01-x.md",
        false,
        &|path: &str| path == "/repo/docs/logs/README.md" || path == "/repo/docs/logs/2024-01-01-x.md",
        |_| Ok("2024-01-01-x.md".to_owned()),
        |_| Ok("# Logs\n\n- [`older.md`](./older.md)\n".to_owned()),
        |original, entry| format!("{original}{entry}\n"),
        |path, text| {
            *written.borrow_mut() = Some((path.to_owned(), text.to_owned()));
            Ok(())
        },
        |rel, index, already| {
            *seen.borrow_mut() = Some((rel.to_owned(), index.to_owned(), already));
            DocsCheckReport {
                ok: true,
                json: String::new(),
                success_text: format!("indexed {rel}"),
                failure_text: String::new(),
            }
        },
    );
    assert_eq!(out.unwrap(), "indexed 2024-01-01-x.md");
    let (path, text) = written.into_inner().unwrap();
    assert_eq!(path, "/repo/docs/logs/README.md");
    assert!(text.ends_with("- [`2024-01-01-x.md`](./2024-01-01-x.md)\n"));
    assert_eq!(
        seen.into_inner().unwrap(),
        ("2024-01-01-x.md".to_owned(), "/repo/docs/logs/README.md".to_owned(), false)
    );
}

#[test]
fn add_log_index_leaves_an_indexed_log_and_reports_missing_files() {
    let out = run_add_log_index(
        "/repo",
        "x.md",
        true,
        &|_: &str| true,
        |_| Ok("x.md".to_owned()),
        |_| Ok("# Logs\r\n  - [`x.md`](./x.md)  \r\n".to_owned()),
        |_, _| panic!("no insert"),
        |_, _| panic!("no write"),
        |_, _, already| {
            assert!(already);
            DocsCheckReport {
                ok: true,
                json: "{\"alreadyIndexed\":true}".to_owned(),
                success_text: String::new(),
                failure_text: String::new(),
            }
        },
    );
    assert_eq!(out.unwrap(), "{\"alreadyIndexed\":true}");

    let no_index = run_add_log_index(
        "/repo",
        "x.md",
        false,
        &|_: &str| false,
        |_| panic!("not normalized"),
        |_| panic!("not read"),
        |_, _| panic!("no insert"),
        |_, _| panic!("no write"),
        |_, _, _| panic!("no report"),
    );
    assert_eq!(message(no_index.unwrap_err()), "logs index not found: /repo/docs/logs/README.md");

    let no_log = run_add_log_index(
        "/repo",
        "x.md",
        false,
        &|path: &str| path.ends_with("README.md"),
        |_| Ok("x.md".to_owned()),
        |_| panic!("not read"),
        |_, _| panic!("no insert"),
        |_, _| panic!("no write"),
        |_, _, _| panic!("no report"),
    );
    assert_eq!(message(no_log.unwrap_err()), "log file not found: /repo/docs/logs/x.md");
}

#[test]
fn add_log_index_passes_on_normalize_read_and_write_errors() {
    let fail = |text: &str| RunnerError::task_invocation(text);
    let normalize_error = run_add_log_index(
        "/repo",
        "../x.md",
        false,
        &|_: &str| true,
        |_| Err(fail("log path escapes the logs directory")),
        |_| panic!("not read"),
        |_, _| panic!("no insert"),
        |_, _| panic!("no write"),
        |_, _, _| panic!("no report"),
    );
    assert_eq!(message(normalize_error.unwrap_err()), "log path escapes the logs directory");

    let read_error = run_add_log_index(
        "/repo",
        "x.md",
        false,
        &|_: &str| true,
        |_| Ok("x.md".to_owned()),
        |_| Err(fail("cannot read index")),
        |_, _| panic!("no insert"),
        |_, _| panic!("no write"),
        |_, _, _| panic!("no report"),
    );
    assert_eq!(message(read_error.unwrap_err()), "cannot read index");

    let write_error = run_add_log_index(
        "/repo",
        "x.md",
        false,
        &|_: &str| true,
        |_| Ok("x.md".to_owned()),
        |_| Ok("# Logs\n".to_owned()),
        |original, entry| format!("{original}{entry}\n"),
        |_, _| Err(fail("cannot write index")),
        |_, _, _| panic!("no report"),
    );
    assert_eq!(message(write_error.unwrap_err()), "cannot write index");
}
