use music_config::config::{InitConfig, InitTheme};
use music_config::error::ConfigError;
use music_config::input::validate_music_database_path;
use music_config::resolve::{
    config_dir_for, config_file_for, creation_notice, prompt_message, resolve_start,
    resolve_step, ResolveEvent, ResolveState,
};

fn drive_to_check_file(home: &str) -> ResolveState {
    let s = resolve_start();
    let s = resolve_step(s, ResolveEvent::HomeFound(Some(home.to_string())));
    match &s {
        ResolveState::EnsureDir { dir, file } => {
            assert_eq!(dir, &format!("{}/.config/music_player", home));
            assert_eq!(file, &format!("{}/.config/music_player/config.yml", home));
        },
        other => panic!("unexpected state: {:?}", other),
    }
    resolve_step(s, ResolveEvent::DirEnsured(true))
}

#[test]
fn fresh_run_creates_default_config() {
    let s = drive_to_check_file("/home/u");
    let s = resolve_step(s, ResolveEvent::FileFound(false));
    match &s {
        ResolveState::AwaitInput { file } => {
            assert_eq!(file, "/home/u/.config/music_player/config.yml");
        },
        other => panic!("unexpected state: {:?}", other),
    }
    let s = resolve_step(s, ResolveEvent::LineRead(Some("/music\n".to_string())));
    let (file, text, config) = match s {
        ResolveState::WriteFile { file, text, config } => (file, text, config),
        other => panic!("unexpected state: {:?}", other),
    };
    assert_eq!(file, "/home/u/.config/music_player/config.yml");
    assert_eq!(config.music_database, "/music");
    assert_eq!(config.theme, InitTheme::default());
    assert_eq!(config.theme.list_title_color, "#ffaaff");
    assert_eq!(config.theme.usage_color_left, "#beb2ec");
    assert_eq!(config.theme.gauge_label_color, "#fa4d70");
    assert!(text.starts_with("music_database: '/music'\ntheme:\n  list_title_color: '#ffaaff'\n"));
    assert!(text.ends_with("  gauge_label_color: '#fa4d70'\n"));
    let expected = config.clone();
    let s = resolve_step(
        ResolveState::WriteFile { file, text, config },
        ResolveEvent::FileWritten(true),
    );
    match s {
        ResolveState::Done { config } => assert_eq!(config, expected),
        other => panic!("unexpected state: {:?}", other),
    }
}

#[test]
fn trimmed_input_is_kept() {
    let s = drive_to_check_file("/home/u");
    let s = resolve_step(s, ResolveEvent::FileFound(false));
    let s = resolve_step(s, ResolveEvent::LineRead(Some("   /tunes\t\n".to_string())));
    match s {
        ResolveState::WriteFile { config, .. } => assert_eq!(config.music_database, "/tunes"),
        other => panic!("unexpected state: {:?}", other),
    }
}

#[test]
fn empty_input_is_validation_error() {
    let s = drive_to_check_file("/home/u");
    let s = resolve_step(s, ResolveEvent::FileFound(false));
    let s = resolve_step(s, ResolveEvent::LineRead(Some(String::new())));
    assert!(matches!(s, ResolveState::Failed { error: ConfigError::ValidationError }));
}

#[test]
fn whitespace_input_is_validation_error() {
    let s = drive_to_check_file("/home/u");
    let s = resolve_step(s, ResolveEvent::FileFound(false));
    let s = resolve_step(s, ResolveEvent::LineRead(Some("   \n".to_string())));
    assert!(matches!(s, ResolveState::Failed { error: ConfigError::ValidationError }));
}

#[test]
fn stdin_read_failure_is_io_error() {
    let s = drive_to_check_file("/home/u");
    let s = resolve_step(s, ResolveEvent::FileFound(false));
    let s = resolve_step(s, ResolveEvent::LineRead(None));
    assert!(matches!(s, ResolveState::Failed { error: ConfigError::IOError }));
}

#[test]
fn multi_line_input_is_validation_error() {
    let s = drive_to_check_file("/home/u");
    let s = resolve_step(s, ResolveEvent::FileFound(false));
    let s = resolve_step(s, ResolveEvent::LineRead(Some("/a\n/b".to_string())));
    assert!(matches!(s, ResolveState::Failed { error: ConfigError::ValidationError }));
}

#[test]
fn missing_home_is_environment_error() {
    let s = resolve_start();
    let s = resolve_step(s, ResolveEvent::HomeFound(None));
    assert!(matches!(s, ResolveState::Failed { error: ConfigError::EnvironmentError }));
}

#[test]
fn dir_creation_failure_is_io_error() {
    let s = resolve_start();
    let s = resolve_step(s, ResolveEvent::HomeFound(Some("/home/u".to_string())));
    let s = resolve_step(s, ResolveEvent::DirEnsured(false));
    assert!(matches!(s, ResolveState::Failed { error: ConfigError::IOError }));
}

#[test]
fn write_failure_is_io_error() {
    let s = drive_to_check_file("/home/u");
    let s = resolve_step(s, ResolveEvent::FileFound(false));
    let s = resolve_step(s, ResolveEvent::LineRead(Some("/music".to_string())));
    let s = resolve_step(s, ResolveEvent::FileWritten(false));
    assert!(matches!(s, ResolveState::Failed { error: ConfigError::IOError }));
}

#[test]
fn unreadable_file_is_io_error() {
    let s = drive_to_check_file("/home/u");
    let s = resolve_step(s, ResolveEvent::FileFound(true));
    let s = resolve_step(s, ResolveEvent::FileRead(None));
    assert!(matches!(s, ResolveState::Failed { error: ConfigError::IOError }));
}

#[test]
fn existing_file_is_read_back() {
    let s = drive_to_check_file("/home/u");
    let s = resolve_step(s, ResolveEvent::FileFound(false));
    let s = resolve_step(s, ResolveEvent::LineRead(Some("/music".to_string())));
    let (text, written) = match s {
        ResolveState::WriteFile { text, config, .. } => (text, config),
        other => panic!("unexpected state: {:?}", other),
    };
    let s = drive_to_check_file("/home/u");
    let s = resolve_step(s, ResolveEvent::FileFound(true));
    let s = resolve_step(s, ResolveEvent::FileRead(Some(text)));
    match s {
        ResolveState::Done { config } => assert_eq!(config, written),
        other => panic!("unexpected state: {:?}", other),
    }
}

#[test]
fn resolving_twice_yields_equal_configs() {
    let config = InitConfig {
        music_database: "/music".to_string(),
        theme: InitTheme::default(),
    };
    let text = music_config::document::emit_config(&config);
    let mut results = Vec::new();
    for _ in 0..2 {
        let s = drive_to_check_file("/home/u");
        let s = resolve_step(s, ResolveEvent::FileFound(true));
        let s = resolve_step(s, ResolveEvent::FileRead(Some(text.clone())));
        match s {
            ResolveState::Done { config } => results.push(config),
            other => panic!("unexpected state: {:?}", other),
        }
    }
    assert_eq!(results[0], results[1]);
    assert_eq!(results[0], config);
}

#[test]
fn malformed_file_is_parse_error() {
    let s = drive_to_check_file("/home/u");
    let s = resolve_step(s, ResolveEvent::FileFound(true));
    let s = resolve_step(s, ResolveEvent::FileRead(Some("not a config".to_string())));
    assert!(matches!(s, ResolveState::Failed { error: ConfigError::ParseError }));
}

#[test]
fn path_helpers_build_the_expected_locations() {
    assert_eq!(config_dir_for("/home/u"), "/home/u/.config/music_player");
    assert_eq!(config_file_for("/home/u"), "/home/u/.config/music_player/config.yml");
}

#[test]
fn validate_rejects_blank_or_multi_line_entries() {
    assert_eq!(validate_music_database_path("  /m  "), Ok("/m".to_string()));
    assert_eq!(validate_music_database_path("/m"), Ok("/m".to_string()));
    assert_eq!(validate_music_database_path(""), Err(ConfigError::ValidationError));
    assert_eq!(validate_music_database_path(" \t\r\n"), Err(ConfigError::ValidationError));
    assert_eq!(validate_music_database_path("/a\n/b"), Err(ConfigError::ValidationError));
}

#[test]
fn messages_match_the_reported_failures() {
    assert_eq!(prompt_message(), "Please enter the path for the music folder");
    assert_eq!(creation_notice("/home/u/.config/music_player/config.yml"),
        "Default config file created at /home/u/.config/music_player/config.yml");
    assert_eq!(ConfigError::EnvironmentError.message(), "Home directory not found");
    assert_eq!(ConfigError::ValidationError.message(), "Music database path cannot be empty");
    assert_eq!(ConfigError::ParseError.message(), "Failed to parse config file");
    assert_eq!(ConfigError::IOError.message(), "Failed to create or open the config file");
    assert_eq!(ConfigError::SerializationError.message(), "Failed to write default config");
}
