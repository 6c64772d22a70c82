use termint::config::{
    build_runtime_config, derive_app_mode, join_path, welcome_line, AppMode, CliOptions, EnvInfo,
    FatalError, PathProbe,
};

fn cli_defaults() -> CliOptions {
    CliOptions {
        app_id: None,
        config_dir: None,
        init_settings: false,
        execute: None,
        login_shell: None,
        working_dir: None,
        window_size: None,
    }
}

fn env_defaults() -> EnvInfo {
    EnvInfo {
        home: Some(String::from("/home/me")),
        shell: Some(String::from("/bin/sh")),
        user: Some(String::from("me")),
    }
}

fn probe_ok() -> PathProbe {
    PathProbe { login_shell_is_file: true, working_dir_is_dir: true }
}

#[test]
fn default_config_paths_come_from_home() {
    let c = build_runtime_config(&cli_defaults(), &env_defaults(), &probe_ok()).unwrap();
    assert_eq!(c.config_dir, "/home/me/.config/termint");
    assert_eq!(c.settings_file, "/home/me/.config/termint/termint.ini");
    assert_eq!(c.shell_path, "/bin/sh");
    assert!(c.working_dir.is_none());
    assert!(c.one_shot_command.is_none());
    assert!(c.window_size_override.is_none());
    assert!(c.app_identity.is_none());
}

#[test]
fn explicit_config_dir_wins_over_home() {
    let mut cli = cli_defaults();
    cli.config_dir = Some(String::from("/tmp/conf"));
    let mut env = env_defaults();
    env.home = None;
    let c = build_runtime_config(&cli, &env, &probe_ok()).unwrap();
    assert_eq!(c.config_dir, "/tmp/conf/termint");
    assert_eq!(c.settings_file, "/tmp/conf/termint/termint.ini");
}

#[test]
fn missing_home_is_fatal() {
    let mut env = env_defaults();
    env.home = None;
    let r = build_runtime_config(&cli_defaults(), &env, &probe_ok());
    assert_eq!(r.unwrap_err(), FatalError::MissingHome);
}

#[test]
fn missing_shell_is_fatal() {
    let mut env = env_defaults();
    env.shell = None;
    let r = build_runtime_config(&cli_defaults(), &env, &probe_ok());
    assert_eq!(r.unwrap_err(), FatalError::MissingShell);
}

#[test]
fn login_shell_that_is_no_file_is_fatal() {
    let mut cli = cli_defaults();
    cli.login_shell = Some(String::from("/no/such/shell"));
    let mut probe = probe_ok();
    probe.login_shell_is_file = false;
    let r = build_runtime_config(&cli, &env_defaults(), &probe);
    assert_eq!(
        r.unwrap_err(),
        FatalError::LoginShellNotAFile(String::from("/no/such/shell"))
    );
}

#[test]
fn valid_login_shell_override_is_used() {
    let mut cli = cli_defaults();
    cli.login_shell = Some(String::from("/bin/zsh"));
    let mut env = env_defaults();
    env.shell = None;
    let c = build_runtime_config(&cli, &env, &probe_ok()).unwrap();
    assert_eq!(c.shell_path, "/bin/zsh");
}

#[test]
fn working_dir_that_is_no_dir_is_fatal() {
    let mut cli = cli_defaults();
    cli.working_dir = Some(String::from("/no/such/dir"));
    let mut probe = probe_ok();
    probe.working_dir_is_dir = false;
    let r = build_runtime_config(&cli, &env_defaults(), &probe);
    assert_eq!(
        r.unwrap_err(),
        FatalError::WorkingDirNotADir(String::from("/no/such/dir"))
    );
}

#[test]
fn malformed_window_size_is_fatal() {
    let mut cli = cli_defaults();
    cli.window_size = Some(String::from("800"));
    let r = build_runtime_config(&cli, &env_defaults(), &probe_ok());
    assert_eq!(
        r.unwrap_err(),
        FatalError::MalformedWindowSize(String::from("800"))
    );
}

#[test]
fn two_separators_are_malformed() {
    let mut cli = cli_defaults();
    cli.window_size = Some(String::from("1x2x3"));
    let r = build_runtime_config(&cli, &env_defaults(), &probe_ok());
    assert_eq!(
        r.unwrap_err(),
        FatalError::MalformedWindowSize(String::from("1x2x3"))
    );
}

#[test]
fn well_formed_window_size_is_parsed() {
    let mut cli = cli_defaults();
    cli.window_size = Some(String::from("800x600"));
    let c = build_runtime_config(&cli, &env_defaults(), &probe_ok()).unwrap();
    assert_eq!(c.window_size_override, Some((800, 600)));
}

#[test]
fn size_token_with_a_non_numeric_side_is_fatal() {
    let mut cli = cli_defaults();
    cli.window_size = Some(String::from("abcx600"));
    let r = build_runtime_config(&cli, &env_defaults(), &probe_ok());
    assert_eq!(
        r.unwrap_err(),
        FatalError::MalformedWindowSize(String::from("abcx600"))
    );
}

#[test]
fn empty_app_id_means_no_identity() {
    let mut cli = cli_defaults();
    cli.app_id = Some(String::new());
    let c = build_runtime_config(&cli, &env_defaults(), &probe_ok()).unwrap();
    assert!(c.app_identity.is_none());
}

#[test]
fn empty_execute_means_interactive() {
    let mut cli = cli_defaults();
    cli.execute = Some(String::new());
    let c = build_runtime_config(&cli, &env_defaults(), &probe_ok()).unwrap();
    assert!(c.one_shot_command.is_none());
}

#[test]
fn execute_is_carried_through() {
    let mut cli = cli_defaults();
    cli.execute = Some(String::from("echo hi"));
    let c = build_runtime_config(&cli, &env_defaults(), &probe_ok()).unwrap();
    assert_eq!(c.one_shot_command.as_deref(), Some("echo hi"));
}

#[test]
fn absent_app_id_is_non_unique_mode() {
    assert!(matches!(derive_app_mode(&None), AppMode::NonUnique));
}

#[test]
fn empty_app_id_is_non_unique_mode() {
    assert!(matches!(
        derive_app_mode(&Some(String::new())),
        AppMode::NonUnique
    ));
}

#[test]
fn app_id_is_namespaced_deterministically() {
    let first = derive_app_mode(&Some(String::from("Termint")));
    match first {
        AppMode::Identified(id) => assert_eq!(id, "org.gtk_rs.Termint"),
        AppMode::NonUnique => panic!("expected an identified mode"),
    }
    let again = derive_app_mode(&Some(String::from("Termint")));
    match again {
        AppMode::Identified(id) => assert_eq!(id, "org.gtk_rs.Termint"),
        AppMode::NonUnique => panic!("expected an identified mode"),
    }
}

#[test]
fn welcome_names_the_user_for_interactive_sessions() {
    let line = welcome_line(&Some(String::from("me")), false);
    assert_eq!(line.as_deref(), Some("Welcome me!"));
}

#[test]
fn no_welcome_for_one_shot_commands_or_unknown_users() {
    assert!(welcome_line(&Some(String::from("me")), true).is_none());
    assert!(welcome_line(&None, false).is_none());
}

#[test]
fn join_path_inserts_one_separator() {
    assert_eq!(join_path("/a/b", "c"), "/a/b/c");
}

#[test]
fn fatal_errors_name_the_bad_input() {
    assert_eq!(
        FatalError::MissingHome.message(),
        "unable to get the home directory"
    );
    assert_eq!(
        FatalError::MissingShell.message(),
        "Unable to get the user's shell"
    );
    assert_eq!(
        FatalError::LoginShellNotAFile(String::from("/x")).message(),
        "The specified login shell does not exist: /x"
    );
    assert_eq!(
        FatalError::WorkingDirNotADir(String::from("/y")).message(),
        "The specified working directory does not exist: /y"
    );
    assert_eq!(
        FatalError::MalformedWindowSize(String::from("9")).message(),
        "Invalid window size: 9"
    );
}
