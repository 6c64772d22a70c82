use termint::activation::{plan_activation, StylesSource};
use termint::config::{build_runtime_config, CliOptions, EnvInfo, PathProbe};
use termint::settings::{
    build_initial_settings_doc, default_style, initial_settings_text, load_settings,
    plan_initialization, read_settings, styles_file_path, synthesized_defaults, DirProbe,
    InitPlan, SettingsOutcome,
};

fn plain_config() -> termint::config::RuntimeConfig {
    let cli = CliOptions {
        app_id: None,
        config_dir: Some(String::from("/tmp/conf")),
        init_settings: false,
        execute: None,
        login_shell: None,
        working_dir: None,
        window_size: None,
    };
    let env = EnvInfo { home: None, shell: Some(String::from("/bin/sh")), user: None };
    let probe = PathProbe { login_shell_is_file: true, working_dir_is_dir: true };
    build_runtime_config(&cli, &env, &probe).unwrap()
}

fn stored_of(loaded: termint::settings::LoadedSettings) -> termint::settings::StoredSettings {
    match loaded.outcome {
        SettingsOutcome::Available(s) => s,
        SettingsOutcome::MissingSection => panic!("expected settings to be available"),
    }
}

#[test]
fn missing_file_synthesizes_defaults() {
    let s = stored_of(load_settings(None));
    assert_eq!(s.default_width.as_deref(), Some("680"));
    assert_eq!(s.default_height.as_deref(), Some("364"));
    assert_eq!(s.icon_name.as_deref(), Some("computer"));
    assert!(s.styles_file.is_none());
}

#[test]
fn unparsable_file_synthesizes_defaults_with_a_diagnostic() {
    let loaded = load_settings(Some("[Settings\nno closing bracket"));
    assert!(loaded.parse_diagnostic.is_some());
    let s = stored_of(loaded);
    assert_eq!(s.default_width.as_deref(), Some("680"));
    assert_eq!(s.default_height.as_deref(), Some("364"));
    assert_eq!(s.icon_name.as_deref(), Some("computer"));
}

#[test]
fn readable_files_carry_no_diagnostic() {
    assert!(load_settings(None).parse_diagnostic.is_none());
    assert!(load_settings(Some("[Settings]\n")).parse_diagnostic.is_none());
}

#[test]
fn missing_or_unparsable_file_resolves_to_680_364_computer() {
    let config = plain_config();
    for loaded in [load_settings(None), load_settings(Some("[Settings\nbroken"))] {
        let plan = plan_activation(&config, loaded.outcome).unwrap();
        assert_eq!(plan.width, 680);
        assert_eq!(plan.height, 364);
        assert_eq!(plan.icon_name.as_deref(), Some("computer"));
    }
}

#[test]
fn parsed_file_without_settings_section_aborts_activation() {
    let loaded = load_settings(Some("encoding=utf-8\n"));
    assert!(matches!(loaded.outcome, SettingsOutcome::MissingSection));
    let config = plain_config();
    assert!(plan_activation(&config, loaded.outcome).is_none());
}

#[test]
fn stored_values_survive_a_parse() {
    let text = "encoding=utf-8\n\n[Settings]\ndefault_width=777\ndefault_height=555\nicon_name=utilities-terminal\nstyles_file=/tmp/conf/termint/styles.css\n";
    let s = stored_of(load_settings(Some(text)));
    assert_eq!(s.default_width.as_deref(), Some("777"));
    assert_eq!(s.default_height.as_deref(), Some("555"));
    assert_eq!(s.icon_name.as_deref(), Some("utilities-terminal"));
    assert_eq!(s.styles_file.as_deref(), Some("/tmp/conf/termint/styles.css"));
}

#[test]
fn unknown_keys_are_ignored_and_missing_keys_are_absent() {
    let text = "[Settings]\nsomething_else=1\ndefault_width=200\n";
    let s = stored_of(load_settings(Some(text)));
    assert_eq!(s.default_width.as_deref(), Some("200"));
    assert!(s.default_height.is_none());
    assert!(s.icon_name.is_none());
    assert!(s.styles_file.is_none());
}

#[test]
fn initial_settings_round_trip() {
    let styles = styles_file_path("/tmp/conf/termint");
    assert_eq!(styles, "/tmp/conf/termint/styles.css");
    let text = initial_settings_text(&styles);
    let s = stored_of(load_settings(Some(&text)));
    assert_eq!(s.default_width.as_deref(), Some("680"));
    assert_eq!(s.default_height.as_deref(), Some("364"));
    assert_eq!(s.icon_name.as_deref(), Some("computer"));
    assert_eq!(s.styles_file.as_deref(), Some("/tmp/conf/termint/styles.css"));
    assert!(text.contains("encoding=utf-8"));
    assert!(text.contains("[Settings]"));
}

#[test]
fn read_settings_sees_a_document_built_by_hand() {
    let mut doc = ini::Ini::new();
    doc.set_to(
        Some("Settings"),
        String::from("default_width"),
        String::from("123"),
    );
    let s = read_settings(&doc).unwrap();
    assert_eq!(s.default_width.as_deref(), Some("123"));
    assert!(s.icon_name.is_none());
}

#[test]
fn read_settings_refuses_a_document_without_the_section() {
    let doc = ini::Ini::new();
    assert!(read_settings(&doc).is_none());
}

#[test]
fn initial_document_holds_the_synthesized_values() {
    let doc = build_initial_settings_doc("/s/styles.css");
    let s = read_settings(&doc).unwrap();
    let d = synthesized_defaults();
    assert_eq!(s.default_width, d.default_width);
    assert_eq!(s.default_height, d.default_height);
    assert_eq!(s.icon_name, d.icon_name);
    assert_eq!(s.styles_file.as_deref(), Some("/s/styles.css"));
}

#[test]
fn default_style_is_the_expected_stylesheet() {
    let css = default_style();
    let expected = "
.scrolled-window {
    /* background-image: url(\\\".config/termint/background.jpg\\\"); */
    background-size: cover;
    background-repeat: no-repeat;
    background-position: center;
    background-color: rgba(255, 255, 255, 0);
}
.terminal {
    opacity: 0.92;
    font-size: 12px;
    font-family: monospace;
}";
    assert_eq!(css, expected);
}

#[test]
fn initialization_plans_what_is_missing() {
    let empty = DirProbe {
        dir_exists: false,
        settings_file_exists: false,
        styles_file_exists: false,
    };
    let p = plan_initialization(true, &empty);
    assert_eq!(
        p,
        InitPlan { create_dir: true, write_styles_file: true, write_settings_file: true }
    );
}

#[test]
fn initialization_not_requested_plans_nothing() {
    let empty = DirProbe {
        dir_exists: false,
        settings_file_exists: false,
        styles_file_exists: false,
    };
    let p = plan_initialization(false, &empty);
    assert_eq!(
        p,
        InitPlan { create_dir: false, write_styles_file: false, write_settings_file: false }
    );
}

#[test]
fn stylesheet_is_never_written_over_an_existing_settings_file() {
    let probe = DirProbe {
        dir_exists: true,
        settings_file_exists: true,
        styles_file_exists: false,
    };
    let p = plan_initialization(true, &probe);
    assert_eq!(
        p,
        InitPlan { create_dir: false, write_styles_file: false, write_settings_file: false }
    );
}

#[test]
fn initialization_twice_does_nothing_the_second_time() {
    let before = DirProbe {
        dir_exists: false,
        settings_file_exists: false,
        styles_file_exists: false,
    };
    let first = plan_initialization(true, &before);
    let after = DirProbe {
        dir_exists: before.dir_exists || first.create_dir,
        settings_file_exists: before.settings_file_exists || first.write_settings_file,
        styles_file_exists: before.styles_file_exists || first.write_styles_file,
    };
    assert_eq!(
        after,
        DirProbe { dir_exists: true, settings_file_exists: true, styles_file_exists: true }
    );
    let second = plan_initialization(true, &after);
    assert_eq!(
        second,
        InitPlan { create_dir: false, write_styles_file: false, write_settings_file: false }
    );
}

#[test]
fn activation_uses_the_stored_stylesheet_when_named() {
    let config = plain_config();
    let text = "[Settings]\ndefault_width=300\ndefault_height=200\nstyles_file=/tmp/own.css\n";
    let plan = plan_activation(&config, load_settings(Some(text)).outcome).unwrap();
    assert_eq!(plan.width, 300);
    assert_eq!(plan.height, 200);
    assert_eq!(plan.title, "Termint");
    match plan.styles {
        StylesSource::File(path) => assert_eq!(path, "/tmp/own.css"),
        StylesSource::BuiltIn(_) => panic!("expected the stored stylesheet path"),
    }
}

#[test]
fn activation_falls_back_to_the_built_in_stylesheet() {
    let config = plain_config();
    let plan = plan_activation(&config, load_settings(None).outcome).unwrap();
    match plan.styles {
        StylesSource::BuiltIn(css) => assert_eq!(css, default_style()),
        StylesSource::File(_) => panic!("expected the built-in stylesheet"),
    }
}

#[test]
fn activation_prefers_the_command_line_size() {
    let cli = CliOptions {
        app_id: None,
        config_dir: Some(String::from("/tmp/conf")),
        init_settings: false,
        execute: None,
        login_shell: None,
        working_dir: None,
        window_size: Some(String::from("750x420")),
    };
    let env = EnvInfo { home: None, shell: Some(String::from("/bin/sh")), user: None };
    let probe = PathProbe { login_shell_is_file: true, working_dir_is_dir: true };
    let config = build_runtime_config(&cli, &env, &probe).unwrap();
    let text = "[Settings]\ndefault_width=300\ndefault_height=200\n";
    let plan = plan_activation(&config, load_settings(Some(text)).outcome).unwrap();
    assert_eq!((plan.width, plan.height), (750, 420));
}
