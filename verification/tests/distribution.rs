use std::cmp::Ordering;

use effigy_runner::distribution::{
    closeout_output_path, collect_glibc_versions, compare_glibc_versions,
    first_publish_crate_version, glibc_floor_text, metadata_output, MetadataReport, run_check_glibc_floor, run_preflight, run_validate_metadata, CargoPackageFields,
    DistributionPolicy,
};
use effigy_runner::cargo_manifest::cargo_package_tables;
use effigy_runner::error::RunnerError;

fn policy() -> DistributionPolicy {
    DistributionPolicy {
        package_name: "effigy".to_owned(),
        required_docs: vec!["README.md".to_owned()],
        required_files: Vec::new(),
        manifest_adopted: true,
        docs_task: "docs:check".to_owned(),
        smoke_task: "smoke".to_owned(),
    }
}

#[test]
fn glibc_versions_compare_by_major_then_minor() {
    assert_eq!(compare_glibc_versions("2.17", "2.28"), Some(Ordering::Less));
    assert_eq!(compare_glibc_versions("2.28", "2.17"), Some(Ordering::Greater));
    assert_eq!(compare_glibc_versions("2.5", "2.5.1"), Some(Ordering::Equal));
    assert_eq!(compare_glibc_versions("3.0", "2.99"), Some(Ordering::Greater));
    assert_eq!(compare_glibc_versions("two", "2.5"), None);
}

#[test]
fn glibc_versions_are_collected_sorted_and_deduplicated() {
    let run = |tool: &str, _args: &Vec<String>| -> Option<Result<String, RunnerError>> {
        if tool == "readelf" {
            Some(Ok("GLIBC_2.28 GLIBC_2.17 GLIBC_2.3.4 GLIBC_2.17 GLIBC_PRIVATE".to_owned()))
        } else {
            None
        }
    };
    let versions = collect_glibc_versions("/bin/effigy", &run).unwrap();
    assert_eq!(versions, vec!["2.3".to_owned(), "2.17".to_owned(), "2.28".to_owned()]);
}

#[test]
fn first_publish_version_defaults_from_the_tag() {
    assert_eq!(first_publish_crate_version("v0.2.5", None).unwrap(), "0.2.5");
    assert_eq!(first_publish_crate_version("v0.2.5", Some("0.3.0")).unwrap(), "0.3.0");
}

#[test]
fn closeout_output_is_named_relative_to_the_repository() {
    assert_eq!(closeout_output_path("/repo/out/closeout.md", "/repo"), "out/closeout.md");
    assert_eq!(closeout_output_path("/abs/closeout.md", "/repo"), "/abs/closeout.md");
}

#[test]
fn validate_metadata_skips_effigy_defaults_when_manifest_is_adopted() {
    let (package, workspace_package) = cargo_package_tables(
        "[package]\nname = \"example-tool\"\nversion = \"0.2.5\"\nedition = \"2021\"\n",
    )
    .expect("Cargo.toml parses");
    let mut policy = policy();
    policy.manifest_adopted = true;
    policy.package_name = "example-tool".to_owned();
    policy.required_docs = Vec::new();
    policy.required_files = Vec::new();
    let report = run_validate_metadata(
        "/tmp/effigy-distribution-metadata-manifest-adopted",
        &policy,
        package.as_ref(),
        workspace_package.as_ref(),
        Some("v0.2.5"),
        &|_p: &str| false,
        |p: &str| Err(RunnerError::task_invocation(&format!("failed to read {p}"))),
    )
    .expect("metadata validation should pass");
    assert!(report.ok, "errors: {:?}", report.errors);
}

#[test]
fn cargo_package_tables_read_package_and_workspace_tables() {
    let (package, workspace) = cargo_package_tables(
        "[workspace.package]\nversion = \"1.0.0\"\nlicense = \"MIT\"\n\n[package]\nname = \"tool\"\nversion = 3\n",
    )
    .unwrap();
    let package = package.unwrap();
    assert_eq!(package.name.as_deref(), Some("tool"));
    assert!(package.version.is_none());
    let workspace = workspace.unwrap();
    assert_eq!(workspace.version.as_deref(), Some("1.0.0"));
    assert_eq!(workspace.license.as_deref(), Some("MIT"));
    assert!(cargo_package_tables("[package").is_err());
    let (none, no_ws) = cargo_package_tables("[dependencies]\nx = \"1\"\n").unwrap();
    assert!(none.is_none() && no_ws.is_none());
}

#[test]
fn validate_metadata_rejects_bad_versions_and_tags() {
    let fields = CargoPackageFields {
        name: Some("effigy".to_owned()),
        version: Some("latest".to_owned()),
        license: Some("MIT".to_owned()),
        description: Some("runner".to_owned()),
    };
    let report = run_validate_metadata(
        "/repo",
        &policy(),
        Some(&fields),
        None,
        Some("release-1"),
        &|_p: &str| true,
        |_p: &str| Ok(String::new()),
    )
    .unwrap();
    assert!(!report.ok);
    assert!(report.errors.contains(&"package version is not semver-like: `latest`".to_owned()));
    assert!(report.errors.contains(&"tag must match vX.Y.Z format: `release-1`".to_owned()));
    let missing = run_validate_metadata(
        "/repo",
        &policy(),
        None,
        None,
        None,
        &|_p: &str| true,
        |_p: &str| Ok(String::new()),
    );
    assert!(matches!(missing, Err(RunnerError::TaskInvocation { message })
        if message == "Cargo.toml is missing [package] or [workspace.package] metadata"));
}

#[test]
fn preflight_recommends_native_first_publish_command() {
    let report = run_preflight(
        &policy(),
        Some("v0.2.13"),
        true,
        true,
        None,
        &|_task: &str| Ok(()),
        || Ok(()),
        |_p: &str, _c: &str| Ok(()),
    )
    .expect("preflight should render");

    assert!(report.text.contains("effigy distribution first-publish --tag v0.2.13"));
    assert!(!report.text.contains("check-distribution-first-publish.sh"));
    assert_eq!(report.docs_status, "skipped");
    assert_eq!(report.smoke_status, "skipped");
    assert_eq!(
        report.next_command,
        "effigy distribution first-publish --tag v0.2.13 --artifacts-dir ./artifacts/distribution-v0.2.13"
    );
}

#[test]
fn glibc_floor_takes_the_newest_required_version_from_the_first_available_tool() {
    let run = |tool: &str, _: &Vec<String>| -> Option<Result<String, RunnerError>> {
        match tool {
            "readelf" => None,
            "objdump" => Some(Ok("GLIBC_2.17 x\nGLIBC_2.28 y\nGLIBC_2.2.5 z\n".to_owned())),
            _ => panic!("later tools are not consulted"),
        }
    };
    let within = run_check_glibc_floor("target/app", "2.31", true, &run).unwrap();
    assert!(within.ok && within.dynamic_symbols_found);
    assert_eq!(within.required_glibc.as_deref(), Some("2.28"));
    assert_eq!(
        glibc_floor_text(&within).unwrap(),
        "[ok] target/app GLIBC floor is compatible (requires GLIBC_2.28, max GLIBC_2.31)"
    );

    let above = run_check_glibc_floor("target/app", "2.17", true, &run).unwrap();
    assert!(!above.ok);
    match glibc_floor_text(&above) {
        Err(RunnerError::TaskInvocation { message }) => {
            assert_eq!(message, "target/app requires GLIBC_2.28 but the release floor is GLIBC_2.17")
        }
        other => panic!("unexpected {other:?}"),
    }

    let static_binary = run_check_glibc_floor("target/app", "2.17", true, &|_: &str, _: &Vec<String>| {
        Some(Ok("no versions here".to_owned()))
    })
    .unwrap();
    assert!(static_binary.ok && static_binary.required_glibc.is_none());
    assert_eq!(
        glibc_floor_text(&static_binary).unwrap(),
        "[ok] no dynamic GLIBC symbol requirements found: target/app"
    );

    assert!(run_check_glibc_floor("missing", "2.17", false, &run).is_err());
}

fn metadata_report(errors: Vec<String>) -> MetadataReport {
    MetadataReport {
        ok: errors.is_empty(),
        name: "tool".to_owned(),
        version: "1.0.0".to_owned(),
        license: String::new(),
        description: String::new(),
        tag: None,
        required_docs: vec![],
        required_files: vec![],
        errors,
    }
}

#[test]
fn metadata_output_answers_text_or_json_by_outcome() {
    let passing = metadata_report(vec![]);
    assert_eq!(metadata_output(&passing, false, "{}").unwrap(), "[ok] distribution metadata checks passed");
    assert_eq!(metadata_output(&passing, true, "{\"ok\":true}").unwrap(), "{\"ok\":true}");
    let failing = metadata_report(vec!["a".to_owned(), "b".to_owned()]);
    match metadata_output(&failing, false, "{}") {
        Err(RunnerError::TaskInvocation { message }) => assert_eq!(message, "a\nb"),
        other => panic!("unexpected {other:?}"),
    }
    match metadata_output(&failing, true, "{\"ok\":false}") {
        Err(RunnerError::TaskInvocation { message }) => assert_eq!(message, "{\"ok\":false}"),
        other => panic!("unexpected {other:?}"),
    }
}
