use effigy_runner::deploy::bundle::{derive_underlay_model, BundleValue};
use effigy_runner::deploy::derive::{TaskEntry, TaskRun};
use effigy_runner::error::RunnerError;

fn s(v: &str) -> BundleValue {
    BundleValue::Str(v.to_owned())
}

fn task(name: &str, command: &str) -> TaskEntry {
    TaskEntry { name: name.to_owned(), run: Some(TaskRun::Command(command.to_owned())) }
}

fn message(error: RunnerError) -> String {
    match error {
        RunnerError::TaskInvocation { message } => message,
        other => panic!("unexpected {other:?}"),
    }
}

fn inputs() -> Vec<(String, BundleValue)> {
    vec![
        ("host".to_owned(), s("example.test")),
        ("project_name".to_owned(), s("shop")),
        ("databases".to_owned(), BundleValue::Array(vec![s("main"), s("audit")])),
        ("api_port".to_owned(), BundleValue::Int(8080)),
        (
            "routes".to_owned(),
            BundleValue::Table(vec![("api".to_owned(), s("  backend "))]),
        ),
    ]
}

fn tasks(dir: &str) -> Result<Vec<TaskEntry>, RunnerError> {
    Ok(match dir {
        "app-api" => vec![
            task("build", "cargo build --release {args}"),
            task("api", "  ./target/release/api "),
            task("db:migrate", "sqlx migrate run"),
            task("jobs", "./target/release/jobs"),
        ],
        _ => vec![task("build", "npm run build")],
    })
}

#[test]
fn underlay_model_reads_inputs_routes_and_service_tasks() {
    let model = derive_underlay_model(
        "shop-repo".to_owned(),
        &inputs(),
        tasks,
        |dir: &str| if dir == "app-front" { Some("index.html".to_owned()) } else { None },
    )
    .unwrap();
    assert_eq!(model.schema, "deploy.model.v1");
    assert_eq!(model.app.name, "shop-repo");
    assert_eq!(model.app.project_name, "shop");
    assert_eq!(model.app.bundle.as_deref(), Some("underlay"));
    let names: Vec<&str> = model.services.iter().map(|s| s.name.as_str()).collect();
    assert_eq!(names, vec!["front", "admin", "api", "jobs"]);

    let front = &model.services[0];
    assert_eq!(front.source_root, "app-front");
    assert_eq!(front.domains, vec!["example.test".to_owned()]);
    assert_eq!(front.output.as_ref().unwrap().fallback.as_deref(), Some("index.html"));
    assert!(front.warnings.is_empty());

    let admin = &model.services[1];
    assert_eq!(admin.domains, vec!["admin.example.test".to_owned()]);
    assert_eq!(admin.warnings.len(), 1);
    assert_eq!(admin.warnings[0].code, "missing-static-fallback");
    assert_eq!(admin.warnings[0].target.as_deref(), Some("admin"));

    let api = &model.services[2];
    assert_eq!(api.build.as_ref().unwrap().command, "cargo build --release");
    assert_eq!(api.start.as_ref().unwrap().command, "./target/release/api");
    assert_eq!(api.release.as_ref().unwrap().command, "sqlx migrate run");
    assert_eq!(api.port, Some(8080));
    assert_eq!(api.domains, vec!["backend.example.test".to_owned()]);
    assert!(api.warnings.is_empty());

    let jobs = &model.services[3];
    assert_eq!(jobs.role, "worker");
    assert_eq!(jobs.start.as_ref().unwrap().command, "./target/release/jobs");

    assert_eq!(model.backing_services[0].consumers, vec!["api".to_owned(), "jobs".to_owned()]);
    assert_eq!(
        model.secrets[0].notes.as_deref(),
        Some("Managed Postgres connection string for primary database `main`")
    );
    let hosts: Vec<&str> = model.domains.iter().map(|d| d.host.as_str()).collect();
    assert_eq!(hosts, vec!["example.test", "admin.example.test", "backend.example.test"]);
}

#[test]
fn underlay_model_without_migration_or_jobs_warns_on_the_api() {
    let model = derive_underlay_model(
        "r".to_owned(),
        &inputs(),
        |dir: &str| {
            Ok(if dir == "app-api" {
                vec![task("build", "cargo build"), task("api", "api")]
            } else {
                vec![task("build", "npm run build")]
            })
        },
        |_: &str| Some("200.html".to_owned()),
    )
    .unwrap();
    assert_eq!(model.services.len(), 3);
    assert_eq!(model.services[2].warnings[0].code, "missing-release-hook");
    assert_eq!(model.services[2].port, Some(8080));
    assert_eq!(model.backing_services[0].consumers, vec!["api".to_owned()]);
}

#[test]
fn underlay_model_refuses_missing_and_malformed_inputs() {
    let no_fallback = |_: &str| -> Option<String> { None };
    let mut without_host = inputs();
    without_host.remove(0);
    assert_eq!(
        message(derive_underlay_model("r".to_owned(), &without_host, tasks, no_fallback).unwrap_err()),
        "missing required bundle input `host`"
    );

    let mut without_project = inputs();
    without_project.remove(1);
    assert_eq!(
        message(derive_underlay_model("r".to_owned(), &without_project, tasks, no_fallback).unwrap_err()),
        "missing required bundle input `project_name`"
    );

    let mut empty_databases = inputs();
    empty_databases[2].1 = BundleValue::Array(vec![]);
    assert_eq!(
        message(derive_underlay_model("r".to_owned(), &empty_databases, tasks, no_fallback).unwrap_err()),
        "bundle input `databases` must not be empty"
    );

    let mut big_port = inputs();
    big_port[3].1 = BundleValue::Int(70000);
    assert_eq!(
        message(derive_underlay_model("r".to_owned(), &big_port, tasks, no_fallback).unwrap_err()),
        "bundle input `api_port` must fit into a u16"
    );

    let missing_api_task = derive_underlay_model(
        "r".to_owned(),
        &inputs(),
        |_: &str| Ok(vec![task("build", "make")]),
        no_fallback,
    );
    assert_eq!(
        message(missing_api_task.unwrap_err()),
        "required task `api` is missing or non-command in `app-api/effigy.toml`"
    );
}

#[test]
fn underlay_model_refuses_non_string_dirs_and_routes_and_non_list_databases() {
    let no_fallback = |_: &str| -> Option<String> { None };
    let mut dirs = inputs();
    dirs.push(("dirs".to_owned(), BundleValue::Table(vec![("admin".to_owned(), BundleValue::Int(1))])));
    assert_eq!(
        message(derive_underlay_model("r".to_owned(), &dirs, tasks, no_fallback).unwrap_err()),
        "bundle input `dirs.admin` must be a string"
    );
    let mut databases = inputs();
    databases[2].1 = s("main");
    assert_eq!(
        message(derive_underlay_model("r".to_owned(), &databases, tasks, no_fallback).unwrap_err()),
        "missing required bundle input `databases`"
    );
    let mut port = inputs();
    port[3].1 = s("80");
    assert_eq!(
        message(derive_underlay_model("r".to_owned(), &port, tasks, no_fallback).unwrap_err()),
        "bundle input `api_port` must be an integer"
    );
    let mut routes = inputs();
    routes[4].1 = BundleValue::Table(vec![("front".to_owned(), BundleValue::Other)]);
    assert_eq!(
        message(derive_underlay_model("r".to_owned(), &routes, tasks, no_fallback).unwrap_err()),
        "bundle input `routes.front` must be a string"
    );
    let load_failure = derive_underlay_model(
        "r".to_owned(),
        &inputs(),
        |dir: &str| Err(RunnerError::task_invocation(&format!("cannot read {dir}"))),
        no_fallback,
    );
    assert_eq!(message(load_failure.unwrap_err()), "cannot read app-front");
}
