use music_config::config::{InitConfig, InitTheme};
use music_config::document::{emit_config, parse_config};
use music_config::error::ConfigError;

fn sample(music_database: &str) -> InitConfig {
    InitConfig {
        music_database: music_database.to_string(),
        theme: InitTheme::default(),
    }
}

#[test]
fn round_trip_is_identity() {
    let config = sample("/music");
    let text = emit_config(&config);
    let parsed = parse_config(text.as_str()).unwrap();
    assert_eq!(parsed, config);
}

#[test]
fn round_trip_keeps_quotes_in_values() {
    let config = sample("/music/it's got 'quotes'");
    let text = emit_config(&config);
    let parsed = parse_config(text.as_str()).unwrap();
    assert_eq!(parsed, config);
}

#[test]
fn round_trip_keeps_hash_and_colon_values() {
    let mut config = sample("/a: b #c");
    config.theme.gauge_color = "#not a comment".to_string();
    let text = emit_config(&config);
    let parsed = parse_config(text.as_str()).unwrap();
    assert_eq!(parsed, config);
}

#[test]
fn rewriting_a_parsed_file_reproduces_it() {
    let text = emit_config(&sample("/music"));
    let parsed = parse_config(text.as_str()).unwrap();
    assert_eq!(emit_config(&parsed), text);
}

#[test]
fn parsing_twice_yields_equal_values() {
    let text = emit_config(&sample("/music"));
    let first = parse_config(text.as_str()).unwrap();
    let second = parse_config(text.as_str()).unwrap();
    assert_eq!(first, second);
}

#[test]
fn emitted_text_has_the_documented_shape() {
    let text = emit_config(&sample("/music"));
    assert!(text.starts_with("music_database: '/music'\ntheme:\n"));
    assert_eq!(text.lines().count(), 34);
    assert!(text.contains("\n  music_pic_color2: '#81a8fd'\n"));
    assert!(text.contains("\n  cut_off_rule_color: '#c3e88d'\n"));
    assert!(text.ends_with("  gauge_label_color: '#fa4d70'\n"));
}

#[test]
fn missing_theme_field_is_parse_error() {
    let text = emit_config(&sample("/music"));
    let without: String = text
        .lines()
        .filter(|l| !l.starts_with("  play_music_list_id_color: "))
        .map(|l| format!("{}\n", l))
        .collect::<Vec<_>>()
        .concat();
    assert_eq!(parse_config(without.as_str()), Err(ConfigError::ParseError));
}

#[test]
fn every_missing_theme_field_is_parse_error() {
    let text = emit_config(&sample("/music"));
    let lines: Vec<&str> = text.lines().collect();
    assert_eq!(lines.len(), 34);
    for dropped in 2..lines.len() {
        let without: String = lines
            .iter()
            .enumerate()
            .filter(|(n, _)| *n != dropped)
            .map(|(_, l)| format!("{}\n", l))
            .collect::<Vec<_>>()
            .concat();
        assert_eq!(parse_config(without.as_str()), Err(ConfigError::ParseError));
    }
}

#[test]
fn reordered_theme_fields_are_parse_error() {
    let text = emit_config(&sample("/music"));
    let mut lines: Vec<&str> = text.lines().collect();
    lines.swap(2, 3);
    let swapped: String = lines.iter().map(|l| format!("{}\n", l)).collect::<Vec<_>>().concat();
    assert_eq!(parse_config(swapped.as_str()), Err(ConfigError::ParseError));
}

#[test]
fn default_theme_constructor_fills_every_color() {
    let config = InitConfig::with_default_theme("/music".to_string());
    assert_eq!(config.music_database, "/music");
    assert_eq!(config.theme, InitTheme::default());
    assert_eq!(config.theme.command_border_color, "#c3eead");
    assert_eq!(config.theme.playing_music_name_color, "#d8ce2e");
}

#[test]
fn missing_theme_mapping_is_parse_error() {
    let text = emit_config(&sample("/music"));
    let without = text.replace("theme:\n", "");
    assert_eq!(parse_config(without.as_str()), Err(ConfigError::ParseError));
}

#[test]
fn missing_music_database_is_parse_error() {
    let text = emit_config(&sample("/music"));
    let without = text.replace("music_database: '/music'\n", "");
    assert_eq!(parse_config(without.as_str()), Err(ConfigError::ParseError));
}

#[test]
fn trailing_content_is_parse_error() {
    let mut text = emit_config(&sample("/music"));
    text.push_str("extra: 'field'\n");
    assert_eq!(parse_config(text.as_str()), Err(ConfigError::ParseError));
}

#[test]
fn plain_unquoted_values_are_accepted() {
    let text = emit_config(&sample("/music"));
    let plain = text.replace("music_database: '/music'", "music_database: /music");
    assert_eq!(parse_config(plain.as_str()), Ok(sample("/music")));
}

#[test]
fn plain_string_values_load_identically() {
    for good in ["/music", "./music", "it's", "a:b", "x#y", "C:/Music"] {
        let text = emit_config(&sample(good)).replace(
            &format!("music_database: '{}'", good),
            &format!("music_database: {}", good),
        );
        assert_eq!(parse_config(text.as_str()), Ok(sample(good)), "{}", good);
    }
}

#[test]
fn non_string_plain_values_are_parse_error() {
    for bad in ["[a, b]", "[", "{a: b", "true", "False", "NULL", "null", "~"] {
        let text = emit_config(&sample("/music")).replace(
            "music_database: '/music'",
            &format!("music_database: {}", bad),
        );
        assert_eq!(parse_config(text.as_str()), Err(ConfigError::ParseError), "{}", bad);
    }
    let text = emit_config(&sample("/music"))
        .replace("  gauge_color: '#cece68'", "  gauge_color: true");
    assert_eq!(parse_config(text.as_str()), Err(ConfigError::ParseError));
}

#[test]
fn unreadable_plain_values_are_parse_error() {
    for bad in ["/music # my library", " /m", "/m ", "a: b", "x:", "&a", "*a", "\"x", "%y", "`z"] {
        let text = emit_config(&sample("/music")).replace(
            "music_database: '/music'",
            &format!("music_database: {}", bad),
        );
        assert_eq!(parse_config(text.as_str()), Err(ConfigError::ParseError), "{}", bad);
    }
}

#[test]
fn empty_music_database_is_parse_error() {
    let text = emit_config(&sample("/music"));
    let empty = text.replace("music_database: '/music'", "music_database: ''");
    assert_eq!(parse_config(empty.as_str()), Err(ConfigError::ParseError));
    let plain_empty = text.replace("music_database: '/music'", "music_database: ");
    assert_eq!(parse_config(plain_empty.as_str()), Err(ConfigError::ParseError));
}

#[test]
fn empty_text_is_parse_error() {
    assert_eq!(parse_config(""), Err(ConfigError::ParseError));
}

#[test]
fn emitted_text_is_yaml_serde_reads_back() {
    let text = emit_config(&sample("/music"));
    let value: serde_yaml::Value = serde_yaml::from_str(&text).unwrap();
    assert_eq!(value.get("music_database").unwrap().as_str().unwrap(), "/music");
    let theme = value.get("theme").unwrap();
    assert_eq!(theme.get("list_title_color").unwrap().as_str().unwrap(), "#ffaaff");
    assert_eq!(theme.get("search_icon_color").unwrap().as_str().unwrap(), "#ec998b");
    assert_eq!(theme.get("gauge_label_color").unwrap().as_str().unwrap(), "#fa4d70");
    assert_eq!(theme.as_mapping().unwrap().len(), 32);
}

#[test]
fn accepted_plain_values_agree_with_a_yaml_reader() {
    for good in ["/music", "./music", "it's", "a:b", "x#y", "C:/Music"] {
        let text = emit_config(&sample(good)).replace(
            &format!("music_database: '{}'", good),
            &format!("music_database: {}", good),
        );
        let ours = parse_config(text.as_str()).unwrap();
        let value: serde_yaml::Value = serde_yaml::from_str(&text).unwrap();
        assert_eq!(value.get("music_database").unwrap().as_str().unwrap(), ours.music_database);
    }
}

#[test]
fn quoted_values_survive_a_serde_read() {
    let config = sample("/music/it's");
    let text = emit_config(&config);
    let value: serde_yaml::Value = serde_yaml::from_str(&text).unwrap();
    assert_eq!(value.get("music_database").unwrap().as_str().unwrap(), "/music/it's");
}
