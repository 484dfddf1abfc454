use hala_subpasses::config::{validate_app_config, AppConfig, ConfigError, WindowConfig};
use hala_subpasses::startup::{
    check_loaded_config, check_output_dir, default_log_file, output_dir, resolve_cli, CliArgs,
    DirectoryOutcome, LoadOutcome, StartupError, StartupOptions,
};

fn config(width: i32, height: i32, scene: &str) -> AppConfig {
    AppConfig {
        window: WindowConfig { width, height },
        scene_file: scene.to_string(),
        use_subpasses: true,
        use_transient: false,
        use_small_gbuffer: true,
    }
}

#[test]
fn valid_config_passes_validation() {
    assert_eq!(validate_app_config(&config(1280, 720, "assets/scene.yaml")), Ok(()));
    assert_eq!(validate_app_config(&config(1, 1, "s")), Ok(()));
    assert_eq!(validate_app_config(&config(i32::MAX, i32::MAX, "s")), Ok(()));
}

#[test]
fn zero_or_negative_width_is_rejected() {
    assert_eq!(
        validate_app_config(&config(0, 720, "scene")),
        Err(ConfigError::InvalidWindowWidth)
    );
    assert_eq!(
        validate_app_config(&config(-1, 720, "scene")),
        Err(ConfigError::InvalidWindowWidth)
    );
    assert_eq!(
        validate_app_config(&config(i32::MIN, 720, "scene")),
        Err(ConfigError::InvalidWindowWidth)
    );
}

#[test]
fn zero_or_negative_height_is_rejected() {
    assert_eq!(
        validate_app_config(&config(1280, 0, "scene")),
        Err(ConfigError::InvalidWindowHeight)
    );
    assert_eq!(
        validate_app_config(&config(1280, -720, "scene")),
        Err(ConfigError::InvalidWindowHeight)
    );
}

#[test]
fn missing_scene_file_is_rejected() {
    assert_eq!(validate_app_config(&config(1280, 720, "")), Err(ConfigError::MissingSceneFile));
}

#[test]
fn validation_reports_the_first_failing_rule() {
    assert_eq!(validate_app_config(&config(0, 0, "")), Err(ConfigError::InvalidWindowWidth));
    assert_eq!(validate_app_config(&config(10, 0, "")), Err(ConfigError::InvalidWindowHeight));
}

#[test]
fn validating_twice_gives_the_same_answer() {
    let good = config(1280, 720, "scene");
    assert_eq!(validate_app_config(&good), validate_app_config(&good));
    let bad = config(1280, 0, "scene");
    assert_eq!(validate_app_config(&bad), validate_app_config(&bad));
}

#[test]
fn config_error_messages() {
    assert_eq!(
        ConfigError::InvalidWindowWidth.message(),
        "The window width must be greater than zero."
    );
    assert_eq!(
        ConfigError::InvalidWindowHeight.message(),
        "The window height must be greater than zero."
    );
    assert_eq!(ConfigError::MissingSceneFile.message(), "The scene file path is missing.");
}

#[test]
fn log_file_defaults_when_not_given() {
    let options = resolve_cli(CliArgs { log: None, config: Some("conf/app.yaml".to_string()) });
    assert_eq!(
        options,
        Ok(StartupOptions {
            log_file: "./logs/renderer.log".to_string(),
            config_file: "conf/app.yaml".to_string(),
        })
    );
    assert_eq!(default_log_file(), "./logs/renderer.log");
}

#[test]
fn log_file_given_is_used() {
    let options = resolve_cli(CliArgs {
        log: Some("/tmp/my.log".to_string()),
        config: Some("c.yaml".to_string()),
    });
    assert_eq!(
        options,
        Ok(StartupOptions { log_file: "/tmp/my.log".to_string(), config_file: "c.yaml".to_string() })
    );
}

#[test]
fn missing_config_flag_stops_startup() {
    assert_eq!(
        resolve_cli(CliArgs { log: None, config: None }),
        Err(StartupError::MissingConfigPath)
    );
    assert_eq!(
        resolve_cli(CliArgs { log: Some("x.log".to_string()), config: None }),
        Err(StartupError::MissingConfigPath)
    );
    assert_eq!(StartupError::MissingConfigPath.exit_code(), 2);
    assert!(StartupError::MissingConfigPath.shows_usage());
}

#[test]
fn exit_codes_and_usage_of_every_error() {
    let others = [
        StartupError::ConfigFileUnreadable,
        StartupError::ConfigFileMalformed,
        StartupError::InvalidConfig(ConfigError::InvalidWindowWidth),
        StartupError::InvalidConfig(ConfigError::InvalidWindowHeight),
        StartupError::InvalidConfig(ConfigError::MissingSceneFile),
        StartupError::OutputDirectory,
    ];
    for e in others {
        assert_eq!(e.exit_code(), 1);
        assert!(!e.shows_usage());
    }
}

#[test]
fn startup_error_messages() {
    assert_eq!(StartupError::MissingConfigPath.message(), "Failed to get the config file path.");
    assert_eq!(StartupError::ConfigFileUnreadable.message(), "Failed to read the config file.");
    assert_eq!(StartupError::ConfigFileMalformed.message(), "Failed to parse the config file.");
    assert_eq!(
        StartupError::InvalidConfig(ConfigError::MissingSceneFile).message(),
        "The scene file path is missing."
    );
    assert_eq!(
        StartupError::OutputDirectory.message(),
        "Failed to create the output directory: ./out"
    );
}

#[test]
fn loaded_config_is_handed_on_when_valid() {
    let c = config(1280, 720, "scene");
    assert_eq!(check_loaded_config(LoadOutcome::Parsed(c.clone())), Ok(c));
}

#[test]
fn loading_the_same_outcome_twice_yields_equal_records() {
    let c = config(800, 600, "a/b.yaml");
    let first = check_loaded_config(LoadOutcome::Parsed(c.clone()));
    let second = check_loaded_config(LoadOutcome::Parsed(c));
    assert_eq!(first, second);
    assert!(first.is_ok());
}

#[test]
fn load_failures_are_errors() {
    assert_eq!(
        check_loaded_config(LoadOutcome::Unreadable),
        Err(StartupError::ConfigFileUnreadable)
    );
    assert_eq!(check_loaded_config(LoadOutcome::Malformed), Err(StartupError::ConfigFileMalformed));
    assert_eq!(
        check_loaded_config(LoadOutcome::Parsed(config(0, 720, "scene"))),
        Err(StartupError::InvalidConfig(ConfigError::InvalidWindowWidth))
    );
    assert_eq!(
        check_loaded_config(LoadOutcome::Parsed(config(1280, -5, "scene"))),
        Err(StartupError::InvalidConfig(ConfigError::InvalidWindowHeight))
    );
    assert_eq!(
        check_loaded_config(LoadOutcome::Parsed(config(1280, 720, ""))),
        Err(StartupError::InvalidConfig(ConfigError::MissingSceneFile))
    );
}

#[test]
fn existing_output_directory_is_not_an_error() {
    assert_eq!(check_output_dir(DirectoryOutcome::AlreadyExists), Ok(()));
    assert_eq!(check_output_dir(DirectoryOutcome::Created), Ok(()));
    assert_eq!(check_output_dir(DirectoryOutcome::Failed), Err(StartupError::OutputDirectory));
    assert_eq!(output_dir(), "./out");
}
