//! Tests for configuration assembly, profile lookup and error reporting.

use oci_run::Cli;
use oci_run::Config;
use oci_run::cli::LogLevel;
use oci_run::cli::log_level;
use oci_run::command::run_args;
use oci_run::config::Profile;
use oci_run::config::config_path_in;
use oci_run::config::resolve_profile_key;
use oci_run::errors::RunError;

fn empty_cli() -> Cli {
    Cli {
        command: vec![],
        config_file: None,
        debug: false,
        profile: None,
        quiet: 0,
        verbose: 0,
    }
}

fn plain_profile(image: &str) -> Profile {
    Profile {
        entrypoint: false,
        env: vec![],
        image: image.to_string(),
        path_append: vec![],
        path_prepend: vec![],
        setpriv: true,
        user: None,
        user_gid: None,
        user_uid: None,
        volumes: vec![],
        workdir: None,
    }
}

#[test]
fn missing_profile_reports_attempted_path() {
    let config = Config {
        command: vec![],
        profile: None,
        profiles: vec![],
    };
    let err = run_args(&config, &"/some/dir".to_string()).unwrap_err();
    match err {
        RunError::NoProfile(ref p) => assert_eq!(p, "/some/dir"),
        _ => panic!("expected a missing-profile error"),
    }
    assert_eq!(err.message(), "no profile: /some/dir");
}

#[test]
fn profile_override_is_the_attempted_path() {
    let config = Config {
        command: vec![],
        profile: Some("/chosen".to_string()),
        profiles: vec![("/elsewhere".to_string(), plain_profile("img"))],
    };
    let err = run_args(&config, &"/elsewhere".to_string()).unwrap_err();
    assert_eq!(err.message(), "no profile: /chosen");
}

#[test]
fn nonexistent_directory_is_usable_as_key() {
    let path = "/definitely/not/existing/dir/for-this-test".to_string();
    let mut cli = empty_cli();
    cli.profile = Some(path.clone());
    cli.command = vec!["true".to_string()];
    let config =
        Config::assemble(cli, vec![(path.clone(), plain_profile("fallback:img"))]).unwrap();

    // Canonicalization of the missing directory failed, so the raw path is
    // the registry key, by exact string match.
    let found = config.lookup(&path).expect("profile under the raw path");
    assert_eq!(found.image, "fallback:img");
    assert!(config.lookup(&"/definitely/not/existing".to_string()).is_none());

    let args = run_args(&config, &"/unrelated/cwd".to_string()).unwrap();
    assert!(args.contains(&"fallback:img".to_string()));
}

#[test]
fn later_file_entries_shadow_earlier_ones() {
    let path = "/definitely/not/existing/dir/for-shadowing".to_string();
    let config = Config::assemble(
        empty_cli(),
        vec![
            (path.clone(), plain_profile("one")),
            (path.clone(), plain_profile("two")),
        ],
    )
    .unwrap();
    assert_eq!(config.lookup(&path).unwrap().image, "two");
}

#[test]
fn assemble_takes_command_and_profile_from_cli() {
    let mut cli = empty_cli();
    cli.command = vec!["echo".to_string(), "hi".to_string()];
    cli.profile = Some("/p".to_string());
    let config = Config::assemble(cli, vec![]).unwrap();
    assert_eq!(config.command, vec!["echo".to_string(), "hi".to_string()]);
    assert_eq!(config.profile, Some("/p".to_string()));
    assert!(config.profiles.is_empty());
}

#[test]
fn assemble_expands_env_values_and_keeps_valueless_ones() {
    let path = "/definitely/not/existing/dir/for-env".to_string();
    let mut profile = plain_profile("img");
    profile.env = vec![
        ("PLAIN".to_string(), Some("plain-value".to_string())),
        ("UNSET".to_string(), None),
    ];
    let config = Config::assemble(empty_cli(), vec![(path.clone(), profile)]).unwrap();
    let found = config.lookup(&path).unwrap();
    assert_eq!(
        found.env,
        vec![
            ("PLAIN".to_string(), Some("plain-value".to_string())),
            ("UNSET".to_string(), None),
        ]
    );
}

#[test]
fn assemble_fails_on_unknown_variable() {
    let path = "/definitely/not/existing/dir/for-bad-env".to_string();
    let mut profile = plain_profile("img");
    profile.env = vec![(
        "BAD".to_string(),
        Some("$OCI_RUN_TEST_SURELY_UNSET_VARIABLE_77821".to_string()),
    )];
    let err = Config::assemble(empty_cli(), vec![(path, profile)]).unwrap_err();
    assert!(matches!(err, RunError::Expand(_)));
}

#[test]
fn privilege_drop_defaults_to_enabled() {
    assert!(Profile::default().setpriv);
    assert!(Profile::default().entrypoint);
    assert!(Profile::default_setpriv());
    assert!(Profile::default_entrypoint());

    let from_absent = Profile::from_parts(
        None,
        vec![],
        "img".to_string(),
        vec![],
        vec![],
        None,
        None,
        None,
        None,
        vec![],
        None,
    );
    assert!(from_absent.setpriv);
    assert!(from_absent.entrypoint);
}

#[test]
fn explicit_setpriv_false_disables_it() {
    let profile = Profile::from_parts(
        Some(true),
        vec![],
        "img".to_string(),
        vec![],
        vec![],
        Some(false),
        None,
        None,
        None,
        vec![],
        None,
    );
    assert!(!profile.setpriv);
    assert!(profile.entrypoint);
}

#[test]
fn resolve_key_prefers_canonical_form() {
    assert_eq!(
        resolve_profile_key("/raw".to_string(), Some("/canonical".to_string())),
        "/canonical"
    );
    assert_eq!(resolve_profile_key("/raw".to_string(), None), "/raw");
}

#[test]
fn config_file_path_inside_config_dir() {
    let p = config_path_in(&"/home/u/.config".to_string());
    assert_eq!(p, "/home/u/.config/oci-run/config.yaml");
}

#[test]
fn no_cache_dir_message() {
    assert_eq!(
        RunError::NoCacheDir.message(),
        "can't locate cache dir (do you need to define the HOME environment variable?)"
    );
}

#[test]
fn expand_error_message_is_the_description() {
    let err = RunError::Expand("boom".to_string());
    assert_eq!(err.message(), "boom");
}

#[test]
fn verbosity_counts() {
    let mut cli = empty_cli();
    assert_eq!(cli.verbosity(), 2);
    assert!(!cli.debug());

    cli.verbose = 3;
    cli.quiet = 1;
    assert_eq!(cli.verbosity(), 4);

    cli.verbose = 0;
    cli.quiet = 5;
    assert_eq!(cli.verbosity(), 0);

    cli.verbose = 255;
    cli.quiet = 0;
    assert_eq!(cli.verbosity(), 255);

    cli.debug = true;
    assert!(cli.debug());
}

#[test]
fn log_levels_by_verbosity() {
    assert_eq!(log_level(0), LogLevel::Off);
    assert_eq!(log_level(1), LogLevel::Error);
    assert_eq!(log_level(2), LogLevel::Warn);
    assert_eq!(log_level(3), LogLevel::Info);
    assert_eq!(log_level(4), LogLevel::Debug);
    assert_eq!(log_level(5), LogLevel::Trace);
    assert_eq!(log_level(200), LogLevel::Trace);
}

#[test]
fn default_config_is_empty() {
    let config = Config::default();
    assert!(config.command.is_empty());
    assert!(config.profile.is_none());
    assert!(config.profiles.is_empty());
}
