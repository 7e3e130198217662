use cgip::config::AppConfig;
use cgip::config::ApplyOutcome;
use cgip::config::ConfigManager;
use cgip::config::merge_config;
use cgip::config::parse_bool;
use cgip::config::PartialConfig;

fn manager() -> ConfigManager {
    ConfigManager::with_config(AppConfig::default(), String::new())
}

#[test]
fn defaults_match_the_documented_configuration() {
    let config = AppConfig::default();
    assert_eq!(config.model, "gpt-4o");
    assert!(!config.show_progress);
    assert!(!config.show_context);
    assert!(!config.markdown);
    assert_eq!(config.stored_context_length, 20);
}

#[test]
fn partial_values_override_defaults_field_by_field() {
    let merged = merge_config(PartialConfig {
        model: None,
        show_progress: Some(true),
        show_context: None,
        markdown: None,
        stored_context_length: None,
    });
    assert_eq!(merged.model, "gpt-4o");
    assert!(merged.show_progress);
    assert_eq!(merged.stored_context_length, 20);

    let merged = merge_config(PartialConfig {
        model: Some("gpt-3.5-turbo".to_string()),
        show_progress: None,
        show_context: None,
        markdown: None,
        stored_context_length: Some(7),
    });
    assert_eq!(merged.model, "gpt-3.5-turbo");
    assert_eq!(merged.stored_context_length, 7);
}

#[test]
fn get_config_value_reads_each_key() {
    let m = manager();
    assert_eq!(m.get_config_value("model"), "gpt-4o");
    assert_eq!(m.get_config_value("show_progress"), "false");
    assert_eq!(m.get_config_value("show_context"), "false");
    assert_eq!(m.get_config_value("markdown"), "false");
    assert_eq!(m.get_config_value("stored_context_length"), "20");
    assert_eq!(m.get_config_value("no_such_key"), "Invalid configuration key");
}

#[test]
fn apply_value_sets_model_and_flags() {
    let mut config = AppConfig::default();
    assert!(matches!(
        config.apply_value("model", "gpt-4-turbo"),
        ApplyOutcome::Applied
    ));
    assert_eq!(config.model, "gpt-4-turbo");
    assert!(matches!(
        config.apply_value("markdown", "true"),
        ApplyOutcome::Applied
    ));
    assert!(config.markdown);
    assert!(matches!(
        config.apply_value("show_progress", "false"),
        ApplyOutcome::Applied
    ));
    assert!(!config.show_progress);
}

#[test]
fn apply_value_rejects_bad_flags_and_unknown_keys() {
    let mut config = AppConfig::default();
    assert!(matches!(
        config.apply_value("show_context", "maybe"),
        ApplyOutcome::InvalidValue
    ));
    assert!(!config.show_context);
    assert!(matches!(
        config.apply_value("stored_context_length", "5"),
        ApplyOutcome::UnknownKey
    ));
    assert_eq!(config.stored_context_length, 20);
}

#[test]
fn flags_parse_exactly_true_and_false() {
    assert_eq!(parse_bool("true"), Some(true));
    assert_eq!(parse_bool("false"), Some(false));
    assert_eq!(parse_bool("True"), None);
    assert_eq!(parse_bool("1"), None);
}
