use effigy_runner::db_seed::{stage_db_seed_files_with_adapter, DbSeedPlan, StagedArtifact};
use effigy_runner::db_seed::{run_builtin_db_seed_task, SeedContainerRegistry, SeedStep, SeedStepOutput};
use effigy_runner::db_seed::{
    builtin_seed_target, bundle_database_targets, check_target_service, claim_staged_name,
    confirm_seed_inputs, db_seed_env, db_seed_service_selection_error,
    db_seed_target_selection_error, manifest_database_service_kind, prompt_yes_no,
    prompt_yes_no_with_default, seed_confirm_prompt, seed_path_from_answer, seed_step_failure,
    service_declared_databases, service_password, service_primary_database, staged_name,
    BundleDatabases, DataTargetSelectionError, DatabaseServiceKind,
    DatabaseServiceSelectionError, DbSeedInput, StagedDbSeed,
};
use effigy_runner::error::RunnerError;

fn message(e: RunnerError) -> String {
    match e {
        RunnerError::TaskInvocation { message } => message,
        other => panic!("expected a task invocation error, got {other:?}"),
    }
}

#[test]
fn yes_no_answers_follow_the_default_when_blank() {
    assert!(prompt_yes_no("\n"));
    assert!(prompt_yes_no(" Yes \n"));
    assert!(prompt_yes_no("y"));
    assert!(!prompt_yes_no("no"));
    assert!(!prompt_yes_no("yep"));
    assert!(!prompt_yes_no_with_default("  ", false));
    assert!(prompt_yes_no_with_default("Y", false));
}

#[test]
fn seed_prompt_answers_resolve_under_the_repository() {
    assert_eq!(seed_path_from_answer("/repo", "  \n"), None);
    assert_eq!(seed_path_from_answer("/repo", "dumps/app.sql\n"), Some("/repo/dumps/app.sql".to_owned()));
    assert_eq!(seed_path_from_answer("/repo", "/abs/app.sql"), Some("/abs/app.sql".to_owned()));
    assert_eq!(seed_confirm_prompt(1), "Continue with 1 database seed file? [Y/n]: ");
    assert_eq!(seed_confirm_prompt(3), "Continue with 3 database seed file(s)? [Y/n]: ");
}

#[test]
fn declining_the_seed_confirmation_cancels_bootstrap() {
    let seeds = vec![DbSeedInput { target: Some("app".to_owned()), path: "/a.sql".to_owned() }];
    assert_eq!(confirm_seed_inputs("", seeds).unwrap().len(), 1);
    let seeds = vec![DbSeedInput { target: None, path: "/a.sql".to_owned() }];
    assert_eq!(
        message(confirm_seed_inputs("n", seeds).unwrap_err()),
        "bootstrap cancelled during interactive database seed prompt"
    );
}

#[test]
fn staged_names_are_unique() {
    assert_eq!(staged_name(Some("app"), "dump.sql"), "app--dump.sql");
    assert_eq!(staged_name(None, "dump.sql"), "dump.sql");
    let mut taken = Vec::new();
    assert!(claim_staged_name(&mut taken, "app--dump.sql".to_owned()).is_ok());
    assert!(claim_staged_name(&mut taken, "dump.sql".to_owned()).is_ok());
    let error = claim_staged_name(&mut taken, "dump.sql".to_owned()).unwrap_err();
    assert_eq!(
        message(error),
        "duplicate staged db seed file name `dump.sql`; rename one input or use distinct seed targets"
    );
    assert_eq!(taken, vec!["app--dump.sql".to_owned(), "dump.sql".to_owned()]);
}

#[test]
fn seed_env_is_empty_without_seeds() {
    assert!(db_seed_env(&Vec::new()).is_empty());
}

#[test]
fn seed_env_names_a_single_seed_and_its_target() {
    let seeds = vec![StagedDbSeed {
        target: Some("app".to_owned()),
        source_path: "/tmp/app.sql".to_owned(),
        staged_file_name: "app--app.sql".to_owned(),
    }];
    let env = db_seed_env(&seeds);
    let get = |k: &str| env.iter().find(|(key, _)| key == k).map(|(_, v)| v.clone());
    assert_eq!(get("EFFIGY_DB_SEEDS_DIR").as_deref(), Some(".effigy/local/db-seeds"));
    assert_eq!(get("EFFIGY_DB_SEED_COUNT").as_deref(), Some("1"));
    assert_eq!(get("EFFIGY_DB_SEED_FILE").as_deref(), Some(".effigy/local/db-seeds/app--app.sql"));
    assert_eq!(get("EFFIGY_BOOTSTRAP_DB_SEED_TARGET").as_deref(), Some("app"));
    let json: serde_json::Value = serde_json::from_str(&get("EFFIGY_DB_SEEDS_JSON").unwrap()).unwrap();
    assert_eq!(json[0]["target"], "app");
    assert_eq!(json[0]["source_path"], "/tmp/app.sql");
    assert_eq!(json[0]["staged_path"], ".effigy/local/db-seeds/app--app.sql");
    assert_eq!(env.len(), 12);
}

#[test]
fn seed_env_of_several_seeds_lists_their_files() {
    let seeds = vec![
        StagedDbSeed { target: None, source_path: "/a.sql".to_owned(), staged_file_name: "a.sql".to_owned() },
        StagedDbSeed { target: None, source_path: "/b.sql".to_owned(), staged_file_name: "b.sql".to_owned() },
    ];
    let env = db_seed_env(&seeds);
    let get = |k: &str| env.iter().find(|(key, _)| key == k).map(|(_, v)| v.clone());
    assert_eq!(
        get("EFFIGY_DB_SEED_FILES").as_deref(),
        Some(".effigy/local/db-seeds/a.sql\n.effigy/local/db-seeds/b.sql")
    );
    assert_eq!(get("EFFIGY_DB_SEED_FILE"), None);
    assert_eq!(env.len(), 8);
    let json: serde_json::Value = serde_json::from_str(&get("EFFIGY_BOOTSTRAP_DB_SEEDS_JSON").unwrap()).unwrap();
    assert_eq!(json[1]["target"], serde_json::Value::Null);
}

#[test]
fn bundle_databases_keep_trimmed_non_blank_strings() {
    let list = BundleDatabases::List(vec![Some(" app ".to_owned()), None, Some("  ".to_owned()), Some("ops".to_owned())]);
    assert_eq!(bundle_database_targets(&list), Some(vec!["app".to_owned(), "ops".to_owned()]));
    assert_eq!(bundle_database_targets(&BundleDatabases::List(vec![None])), None);
    assert_eq!(bundle_database_targets(&BundleDatabases::Text(" app ".to_owned())), Some(vec!["app".to_owned()]));
    assert_eq!(bundle_database_targets(&BundleDatabases::Text(" ".to_owned())), None);
    assert_eq!(bundle_database_targets(&BundleDatabases::Other), None);
}

#[test]
fn collects_manifest_database_services_from_container_service_params() {
    assert_eq!(manifest_database_service_kind("postgres"), Some(DatabaseServiceKind::Postgres));
    assert_eq!(manifest_database_service_kind("mariadb"), Some(DatabaseServiceKind::MariaDb));
    assert_eq!(manifest_database_service_kind("redis"), None);
    assert_eq!(service_password(Some(" pw ")), "pw");
    assert_eq!(service_password(Some("  ")), "secret");
    assert_eq!(service_password(None), "secret");
    assert_eq!(service_primary_database(Some(" app ")), Some("app".to_owned()));
    assert_eq!(service_primary_database(Some("")), None);
    assert_eq!(
        service_declared_databases(&vec![Some("app".to_owned()), None, Some(" ops ".to_owned())]),
        vec!["app".to_owned(), "ops".to_owned()]
    );
}

#[test]
fn seed_targets_resolve_to_declared_targets() {
    let declared = vec!["app".to_owned(), "ops".to_owned()];
    assert_eq!(builtin_seed_target(Some("ops"), "s.sql", &declared).unwrap(), 1);
    assert_eq!(
        message(builtin_seed_target(None, "s.sql", &declared).unwrap_err()),
        "database seed entry `s.sql` is missing a target and the manifest declares multiple database targets"
    );
    assert_eq!(
        message(builtin_seed_target(Some("x"), "s.sql", &declared).unwrap_err()),
        "database seed target `x` is not declared in `[bundle].databases` or `[data.targets]`"
    );
    assert_eq!(builtin_seed_target(None, "s.sql", &vec!["only".to_owned()]).unwrap(), 0);
}

#[test]
fn seed_selection_failures_name_the_inputs() {
    let e = db_seed_target_selection_error(
        "/repo/effigy.toml",
        &vec!["/a.sql".to_owned()],
        &DataTargetSelectionError::MissingTarget { index: 0, valid_targets: vec!["app".to_owned(), "ops".to_owned()] },
    );
    assert_eq!(
        message(e),
        "db seed input `/a.sql` must name a target because multiple database targets are declared in `[bundle].databases` and `[data.targets]`: app, ops"
    );
    let e = db_seed_target_selection_error(
        "/repo/effigy.toml",
        &Vec::new(),
        &DataTargetSelectionError::UnknownTarget { target: "x".to_owned(), valid_targets: vec!["app".to_owned()] },
    );
    assert_eq!(
        message(e),
        "db seed target `x` is not declared in `[bundle].databases` or `[data.targets]` for /repo/effigy.toml; valid targets: app"
    );
    let e = db_seed_service_selection_error("app", "appdb", &DatabaseServiceSelectionError::NoServiceForDatabase);
    assert_eq!(
        message(e),
        "database target `app` is ambiguous; expected exactly one matching database service for `appdb`"
    );
    assert_eq!(
        message(check_target_service("app", "cache", Some("redis")).unwrap_err()),
        "database target `app` uses unsupported service catalog `redis`"
    );
    assert_eq!(
        message(check_target_service("app", "db", None).unwrap_err()),
        "database target `app` references unknown service `db`"
    );
    assert_eq!(
        message(seed_step_failure("SQL import", " out \n", "\n err ")),
        "[error] SQL import failed\nstdout:\nout\n\nstderr:\nerr"
    );
}

#[test]
fn builtin_seed_task_resets_then_imports_each_seed() {
    let env = vec![("EFFIGY_BOOTSTRAP_DB_SEEDS_JSON".to_owned(), "[two seeds]".to_owned())];
    let registry = SeedContainerRegistry { present: true, default: Some("web".to_owned()), default_defined: true };
    let declared = vec!["app".to_owned(), "ops".to_owned()];
    let steps = std::cell::RefCell::new(Vec::new());
    let parse = |text: &str| {
        assert_eq!(text, "[two seeds]");
        Ok(vec![(Some("ops".to_owned()), "a.sql".to_owned()), (Some("app".to_owned()), "b.sql".to_owned())])
    };
    run_builtin_db_seed_task(&env, parse, "/repo/effigy.toml", &registry, &declared, |seed: usize, target: usize, step: SeedStep| {
        steps.borrow_mut().push((seed, target, step));
        Ok(SeedStepOutput { success: true, stdout: String::new(), stderr: String::new() })
    })
    .unwrap();
    assert_eq!(
        *steps.borrow(),
        vec![(0, 1, SeedStep::Reset), (0, 1, SeedStep::Import), (1, 0, SeedStep::Reset), (1, 0, SeedStep::Import)]
    );

    let error = run_builtin_db_seed_task(
        &env,
        parse,
        "/repo/effigy.toml",
        &registry,
        &declared,
        |_s: usize, _t: usize, step: SeedStep| {
            Ok(SeedStepOutput { success: step == SeedStep::Reset, stdout: " out ".to_owned(), stderr: "bad dump".to_owned() })
        },
    )
    .unwrap_err();
    assert_eq!(message(error), "[error] SQL import failed\nstdout:\nout\n\nstderr:\nbad dump");

    let missing = run_builtin_db_seed_task(&Vec::new(), parse, "/repo/effigy.toml", &registry, &declared, |_s: usize, _t: usize, _st: SeedStep| {
        Ok(SeedStepOutput { success: true, stdout: String::new(), stderr: String::new() })
    })
    .unwrap_err();
    assert_eq!(message(missing), "database seed metadata is missing from the seed environment");

    let undefined = SeedContainerRegistry { present: true, default: Some("web".to_owned()), default_defined: false };
    let error = run_builtin_db_seed_task(&env, parse, "/repo/effigy.toml", &undefined, &declared, |_s: usize, _t: usize, _st: SeedStep| {
        Ok(SeedStepOutput { success: true, stdout: String::new(), stderr: String::new() })
    })
    .unwrap_err();
    assert_eq!(message(error), "default container `web` is not defined in `/repo/effigy.toml`");
}

#[test]
fn stage_db_seed_files_writes_artifact_metadata_and_preserves_seed_path() {
    let plans = vec![
        DbSeedPlan { target: Some("app".to_owned()), source_display: "/seeds/app.sql".to_owned() },
        DbSeedPlan { target: None, source_display: "/seeds/all.sql".to_owned() },
    ];
    let copies = std::cell::RefCell::new(Vec::new());
    let writes = std::cell::RefCell::new(Vec::new());
    let staged = stage_db_seed_files_with_adapter(
        &plans,
        |i: usize| {
            let name = if i == 0 { "app.sql" } else { "all.sql" };
            Ok(StagedArtifact {
                source: format!("/seeds/{name}"),
                primary_file: Some(format!("/repo/.effigy/artifacts/{name}")),
                file_name: Some(name.to_owned()),
            })
        },
        |from: &str, name: &str| {
            copies.borrow_mut().push((from.to_owned(), name.to_owned()));
            Ok(())
        },
        |file: &str, json: &str| {
            writes.borrow_mut().push((file.to_owned(), json.to_owned()));
            Ok(())
        },
    )
    .unwrap();
    assert_eq!(staged[0].staged_file_name, "app--app.sql");
    assert_eq!(staged[1].staged_file_name, "all.sql");
    assert_eq!(staged[0].source_path, "/seeds/app.sql");
    assert_eq!(copies.borrow()[0], ("/repo/.effigy/artifacts/app.sql".to_owned(), "app--app.sql".to_owned()));
    let writes = writes.borrow();
    assert_eq!(writes.len(), 2);
    assert_eq!(writes[0].0, "_effigy-db-seeds.json");
    assert_eq!(writes[1].0, "_effigy-bootstrap-db-seeds.json");
    let json: serde_json::Value = serde_json::from_str(&writes[0].1).unwrap();
    assert_eq!(json[0]["staged_path"], ".effigy/local/db-seeds/app--app.sql");
    assert_eq!(json[1]["target"], serde_json::Value::Null);
}

#[test]
fn stage_db_seed_files_refuses_duplicate_names_and_missing_files() {
    let plans = vec![
        DbSeedPlan { target: None, source_display: "a".to_owned() },
        DbSeedPlan { target: None, source_display: "b".to_owned() },
    ];
    let error = stage_db_seed_files_with_adapter(
        &plans,
        |_i: usize| {
            Ok(StagedArtifact {
                source: "s".to_owned(),
                primary_file: Some("/x/dump.sql".to_owned()),
                file_name: Some("dump.sql".to_owned()),
            })
        },
        |_f: &str, _n: &str| Ok(()),
        |_f: &str, _j: &str| Ok(()),
    )
    .unwrap_err();
    assert_eq!(
        message(error),
        "duplicate staged db seed file name `dump.sql`; rename one input or use distinct seed targets"
    );
    let error = stage_db_seed_files_with_adapter(
        &plans,
        |_i: usize| Ok(StagedArtifact { source: "s".to_owned(), primary_file: None, file_name: None }),
        |_f: &str, _n: &str| Ok(()),
        |_f: &str, _j: &str| Ok(()),
    )
    .unwrap_err();
    assert_eq!(message(error), "db seed artifact produced no primary file: a");
}

#[test]
fn builtin_seed_task_refuses_bad_metadata_and_missing_containers() {
    let env = vec![("EFFIGY_DB_SEEDS_JSON".to_owned(), "not json".to_owned())];
    let declared = vec!["app".to_owned()];
    let registry = SeedContainerRegistry { present: true, default: Some("web".to_owned()), default_defined: true };
    let no_step = |_s: usize, _t: usize, _st: SeedStep| -> Result<SeedStepOutput, RunnerError> { panic!("no step") };
    let invalid = run_builtin_db_seed_task(&env, |_t: &str| Err("expected value".to_owned()), "/m", &registry, &declared, no_step);
    assert_eq!(message(invalid.unwrap_err()), "invalid database seed metadata: expected value");
    let ok_parse = |_t: &str| Ok(vec![(None, "a.sql".to_owned())]);
    let absent = SeedContainerRegistry { present: false, default: None, default_defined: false };
    assert_eq!(
        message(run_builtin_db_seed_task(&env, ok_parse, "/m", &absent, &declared, no_step).unwrap_err()),
        "manifest does not define a `[containers]` registry"
    );
    let no_default = SeedContainerRegistry { present: true, default: None, default_defined: false };
    assert_eq!(
        message(run_builtin_db_seed_task(&env, ok_parse, "/m", &no_default, &declared, no_step).unwrap_err()),
        "manifest does not declare a default container"
    );
    let two = vec!["app".to_owned(), "ops".to_owned()];
    assert_eq!(
        message(run_builtin_db_seed_task(&env, ok_parse, "/m", &registry, &two, no_step).unwrap_err()),
        "database seed entry `a.sql` is missing a target and the manifest declares multiple database targets"
    );
}
