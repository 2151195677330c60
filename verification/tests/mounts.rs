use effigy_runner::compose::compose_file_from_yaml;
use effigy_runner::mounts::{
    candidate_host_mount_paths, parse_bind_mount_host_path, service_depends_on_primary, DependsOn,
};

#[test]
fn parse_bind_mount_host_path_accepts_bind_mounts_only() {
    assert_eq!(parse_bind_mount_host_path("/tmp/data:/var/lib/mysql"), Some("/tmp/data"));
    assert_eq!(
        parse_bind_mount_host_path("./runtime/mysql:/var/lib/mysql"),
        Some("./runtime/mysql")
    );
    assert_eq!(
        parse_bind_mount_host_path("~/runtime/mysql:/var/lib/mysql"),
        Some("~/runtime/mysql")
    );
    assert_eq!(parse_bind_mount_host_path("named-volume:/var/lib/mysql"), None);
}

#[test]
fn parse_bind_mount_host_path_reads_the_part_before_the_first_colon() {
    assert_eq!(parse_bind_mount_host_path("/tmp/data"), Some("/tmp/data"));
    assert_eq!(parse_bind_mount_host_path("./a:/b:ro"), Some("./a"));
    assert_eq!(parse_bind_mount_host_path(""), None);
}

#[test]
fn candidate_host_mount_paths_maps_named_volume_targets_through_repo_bind() {
    let repo_root = "/tmp/effigy-candidate-targets";
    let bind_roots = vec![(repo_root.to_owned(), "/workspace-root/demo".to_owned())];

    let candidates = candidate_host_mount_paths(
        repo_root,
        "named-api-target:/workspace-root/demo/acme-api/target",
        &bind_roots,
    );

    assert_eq!(candidates, vec![format!("{repo_root}/acme-api/target")]);
}

#[test]
fn service_dependency_check_supports_mapping_and_sequence_forms() {
    let mapping = DependsOn::Mapping(vec![Some("app".to_owned())]);
    let sequence = DependsOn::Sequence(vec![Some("app".to_owned()), Some("redis".to_owned())]);

    assert!(service_depends_on_primary(&mapping, "app"));
    assert!(service_depends_on_primary(&sequence, "app"));
    assert!(!service_depends_on_primary(&sequence, "db"));
    assert!(!service_depends_on_primary(&DependsOn::Absent, "app"));
}

#[test]
fn compose_text_reads_services_depends_on_and_volumes_in_order() {
    let file = compose_file_from_yaml(
        "services:\n  db:\n    image: postgres\n    volumes:\n      - ./.effigy/runtime/data/db:/var/lib/postgresql/data\n      - 5\n  app:\n    depends_on:\n      db:\n        condition: service_started\n  worker:\n    depends_on: [db, app]\n    volumes: none\n",
    );
    assert_eq!(file.services.len(), 3);
    assert_eq!(file.services[0].name.as_deref(), Some("db"));
    assert!(matches!(file.services[0].depends_on, DependsOn::Absent));
    assert_eq!(
        file.services[0].volumes,
        Some(vec![Some("./.effigy/runtime/data/db:/var/lib/postgresql/data".to_owned()), None])
    );
    match &file.services[1].depends_on {
        DependsOn::Mapping(keys) => assert_eq!(keys, &vec![Some("db".to_owned())]),
        other => panic!("unexpected {other:?}"),
    }
    match &file.services[2].depends_on {
        DependsOn::Sequence(names) => {
            assert_eq!(names, &vec![Some("db".to_owned()), Some("app".to_owned())])
        }
        other => panic!("unexpected {other:?}"),
    }
    assert!(file.services[2].volumes.is_none());
    assert!(compose_file_from_yaml("services: [").services.is_empty());
    assert!(compose_file_from_yaml("version: '3'\n").services.is_empty());
}
