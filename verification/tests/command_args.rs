//! Tests for the container-engine argument builder.

use oci_run::command::build_command;
use oci_run::command::entrypoint_script_path;
use oci_run::command::expand_volumes;
use oci_run::config::Profile;
use oci_run::errors::RunError;
use oci_run::text::join_colon;
use oci_run::text::u32_string;

fn strings(parts: &[&str]) -> Vec<String> {
    parts.iter().map(|p| p.to_string()).collect()
}

fn full_profile() -> Profile {
    Profile {
        entrypoint: true,
        env: vec![
            ("FOO".to_string(), Some("bar".to_string())),
            ("BAZ".to_string(), None),
        ],
        image: "example:latest".to_string(),
        path_append: strings(&["/opt/a", "/opt/b"]),
        path_prepend: strings(&["/pre"]),
        setpriv: true,
        user: Some("dev".to_string()),
        user_gid: Some(1000),
        user_uid: Some(1001),
        volumes: strings(&["/v1:/v1"]),
        workdir: Some("/w".to_string()),
    }
}

#[test]
fn full_profile_argument_order() {
    let profile = full_profile();
    let command = strings(&["make", "test"]);
    let volumes = strings(&["/v1:/v1"]);
    let script = "/cache/oci-run/oci-entrypoint".to_string();
    let args = build_command(&profile, &command, true, 5, 6, &volumes, &script);
    let expected = strings(&[
        "docker",
        "container",
        "run",
        "--init",
        "--interactive",
        "--rm",
        "--tty",
        "--env=DISABLE_SETPRIV=",
        "--env=USER_NAME=dev",
        "--env=USER_GID=1000",
        "--env=USER_UID=1001",
        "--env=USER_PATH_POST=/opt/a:/opt/b",
        "--env=USER_PATH_PRE=/pre",
        "--env=FOO=bar",
        "--env=BAZ",
        "--workdir=/w",
        "--volume=/v1:/v1",
        "--volume=/cache/oci-run/oci-entrypoint:/usr/local/bin/oci-entrypoint:ro",
        "--entrypoint=/usr/local/bin/oci-entrypoint",
        "--",
        "example:latest",
        "make",
        "test",
    ]);
    assert_eq!(args, expected);
}

#[test]
fn minimal_profile_argument_order() {
    let profile = Profile {
        entrypoint: false,
        env: vec![],
        image: "img".to_string(),
        path_append: vec![],
        path_prepend: vec![],
        setpriv: false,
        user: None,
        user_gid: None,
        user_uid: None,
        volumes: vec![],
        workdir: None,
    };
    let args = build_command(&profile, &vec![], false, 7, 8, &vec![], &String::new());
    let expected = strings(&[
        "docker",
        "container",
        "run",
        "--init",
        "--interactive",
        "--rm",
        "--env=DISABLE_SETPRIV=1",
        "--env=USER_GID=8",
        "--env=USER_UID=7",
        "--",
        "img",
    ]);
    assert_eq!(args, expected);
}

#[test]
fn setpriv_flag_controls_disable_variable() {
    let mut profile = full_profile();
    profile.entrypoint = false;
    profile.volumes = vec![];

    profile.setpriv = true;
    let enabled = build_command(&profile, &vec![], false, 1, 2, &vec![], &String::new());
    assert!(enabled.contains(&"--env=DISABLE_SETPRIV=".to_string()));

    profile.setpriv = false;
    let disabled = build_command(&profile, &vec![], false, 1, 2, &vec![], &String::new());
    assert!(disabled.contains(&"--env=DISABLE_SETPRIV=1".to_string()));
}

#[test]
fn effective_ids_used_without_override() {
    let mut profile = full_profile();
    profile.user_gid = None;
    profile.user_uid = None;
    profile.entrypoint = false;
    profile.volumes = vec![];
    let args = build_command(&profile, &vec![], false, 4242, 99, &vec![], &String::new());
    assert!(args.contains(&"--env=USER_UID=4242".to_string()));
    assert!(args.contains(&"--env=USER_GID=99".to_string()));
}

#[test]
fn expand_volumes_without_markers_is_identity() {
    let volumes = strings(&["/a:/b", "/c:/d:ro"]);
    let expanded = expand_volumes(&volumes).unwrap();
    assert_eq!(expanded, volumes);
}

#[test]
fn expand_volumes_unknown_variable_fails() {
    let volumes = strings(&["$OCI_RUN_TEST_SURELY_UNSET_VARIABLE_20394/x:/x"]);
    let err = expand_volumes(&volumes).unwrap_err();
    assert!(matches!(err, RunError::Expand(_)));
    assert!(!err.message().is_empty());
}

#[test]
fn entrypoint_script_path_under_cache_dir() {
    let p = entrypoint_script_path(&"/home/u/.cache".to_string());
    assert_eq!(p, "/home/u/.cache/oci-run/oci-entrypoint");
}

#[test]
fn decimal_rendering() {
    assert_eq!(u32_string(0), "0");
    assert_eq!(u32_string(7), "7");
    assert_eq!(u32_string(1000), "1000");
    assert_eq!(u32_string(u32::MAX), "4294967295");
}

#[test]
fn join_colon_segments() {
    assert_eq!(join_colon(&vec![]), "");
    assert_eq!(join_colon(&strings(&["/only"])), "/only");
    assert_eq!(join_colon(&strings(&["/a", "/b", "/c"])), "/a:/b:/c");
}
