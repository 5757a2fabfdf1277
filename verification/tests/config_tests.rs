use vrchat_x3d_start_fix::config::{
    AppConfig, ConfigError, ConfigStore, CpuCoverage, DisturbanceParams, Language, Profile,
};
use vrchat_x3d_start_fix::lifecycle::AppState;

#[test]
fn preset_values_match_the_plan() {
    assert_eq!(Profile::Gentle.params().duty_percent, 25);
    assert_eq!(Profile::Balanced.params().hard_stop_secs, 50);
    assert_eq!(
        Profile::Robust.params(),
        AppConfig::default().resolved_params()
    );
    assert_eq!(Profile::Maximum.params().success_after_secs, 60);
}

#[test]
fn advanced_changes_create_a_valid_custom_profile() {
    let mut config = AppConfig::default();
    config.set_hard_stop(30);
    config.set_duty(65);
    config.set_coverage(CpuCoverage::Unpinned);
    assert_eq!(config.profile, Profile::Custom);
    assert_eq!(config.resolved_params().success_after_secs, 30);
    assert!(config.validate().is_ok());
}

#[test]
fn state_payload_keeps_an_attempt_parameter_snapshot() {
    let state = AppState::Disturbing {
        attempt_id: 7,
        params: Profile::Robust.params(),
    };
    if let AppState::Disturbing { params, .. } = state {
        assert_eq!(params.duty_percent, 50);
    } else {
        panic!("wrong state");
    }
}

fn validation_message(result: Result<(), ConfigError>) -> Option<&'static str> {
    match result {
        Err(ConfigError::Validation(message)) => Some(message),
        _ => None,
    }
}

#[test]
fn every_preset_and_menu_option_validates() {
    for profile in Profile::PRESETS {
        assert!(profile.params().validate().is_ok());
    }
    assert!(Profile::Custom.params().validate().is_ok());
    for duty in DisturbanceParams::DUTY_OPTIONS {
        let mut config = AppConfig::default();
        config.set_duty(duty);
        assert!(config.validate().is_ok());
    }
    for duration in DisturbanceParams::DURATION_OPTIONS {
        let mut config = AppConfig::default();
        config.set_hard_stop(duration);
        assert!(config.validate().is_ok());
        assert_eq!(config.resolved_params().hard_stop_secs, duration);
    }
}

#[test]
fn validation_reports_the_first_broken_rule() {
    let base = Profile::Robust.params();
    let mut p = base;
    p.duty_percent = 9;
    assert_eq!(validation_message(p.validate()), Some("duty_percent must be between 10 and 80"));
    p = base;
    p.duty_percent = 81;
    assert_eq!(validation_message(p.validate()), Some("duty_percent must be between 10 and 80"));
    p = base;
    p.period_ms = 501;
    assert_eq!(validation_message(p.validate()), Some("period_ms must be between 50 and 500"));
    p = base;
    p.success_after_secs = 19;
    assert_eq!(validation_message(p.validate()), Some("success_after_secs must be between 20 and 90"));
    p = base;
    p.hard_stop_secs = 44;
    assert_eq!(
        validation_message(p.validate()),
        Some("hard_stop_secs must be >= success_after_secs and <= 120")
    );
    p = base;
    p.hard_stop_secs = 121;
    p.success_after_secs = 90;
    assert_eq!(
        validation_message(p.validate()),
        Some("hard_stop_secs must be >= success_after_secs and <= 120")
    );
    p = base;
    p.duty_percent = 0;
    p.period_ms = 0;
    assert_eq!(validation_message(p.validate()), Some("duty_percent must be between 10 and 80"));
}

#[test]
fn config_validation_errors() {
    let mut config = AppConfig::default();
    config.schema_version = 2;
    assert_eq!(validation_message(config.validate()), Some("unsupported config schema version"));
    let mut config = AppConfig::default();
    config.profile = Profile::Custom;
    assert_eq!(
        validation_message(config.validate()),
        Some("custom profile requires custom parameters")
    );
    let mut config = AppConfig::default();
    let mut bad = Profile::Gentle.params();
    bad.duty_percent = 90;
    config.custom = Some(bad);
    assert_eq!(validation_message(config.validate()), Some("duty_percent must be between 10 and 80"));
    assert!(AppConfig::default().validate().is_ok());
}

#[test]
fn custom_profile_without_parameters_resolves_to_robust() {
    let mut config = AppConfig::default();
    config.profile = Profile::Custom;
    assert_eq!(config.resolved_params(), Profile::Robust.params());
    config.set_duty(35);
    assert_eq!(config.resolved_params().duty_percent, 35);
    assert_eq!(config.resolved_params().hard_stop_secs, 60);
}

#[test]
fn hard_stop_caps_and_floors_success_threshold() {
    let mut config = AppConfig::default();
    config.set_hard_stop(90);
    assert_eq!(config.resolved_params().success_after_secs, 45);
    config.set_hard_stop(10);
    assert_eq!(config.resolved_params().success_after_secs, 20);
    assert_eq!(config.resolved_params().hard_stop_secs, 10);
    assert!(config.validate().is_err());
}

#[test]
fn selecting_a_preset_drops_custom_values_and_reset_restores_defaults() {
    let mut config = AppConfig::default();
    config.set_duty(25);
    config.language_override = Some(Language::ZhCn);
    config.select_profile(Profile::Maximum);
    assert_eq!(config.profile, Profile::Maximum);
    assert_eq!(config.custom, None);
    assert_eq!(config.language_override, Some(Language::ZhCn));
    assert_eq!(config.resolved_params(), Profile::Maximum.params());
    config.reset();
    assert_eq!(config, AppConfig::default());
}

#[test]
fn locale_keys_and_languages() {
    assert_eq!(Profile::Gentle.locale_key(), "profile.gentle");
    assert_eq!(Profile::Custom.locale_key(), "profile.custom");
    assert_eq!(CpuCoverage::PhysicalCores.locale_key(), "coverage.physical_cores");
    assert_eq!(Language::En.locale(), "en");
    assert_eq!(Language::ZhCn.locale(), "zh-CN");
}

#[test]
fn busy_ms_rounds_down_and_rest_saturates() {
    let mut p = Profile::Gentle.params();
    p.period_ms = 99;
    assert_eq!(p.busy_ms(), 24);
    assert_eq!(p.rest_ms(), 75);
    p.duty_percent = 200;
    assert_eq!(p.busy_ms(), 198);
    assert_eq!(p.rest_ms(), 0);
}

#[test]
fn store_paths_and_backup_name() {
    let store = ConfigStore::at("/tmp/app/config.toml".to_string());
    assert_eq!(store.path(), "/tmp/app/config.toml");
    assert_eq!(store.invalid_backup_path(1725029869), "/tmp/app/config.invalid.1725029869.toml");
    assert_eq!(store.invalid_backup_path(0), "/tmp/app/config.invalid.0.toml");
}

#[test]
fn loading_checks_and_recovers() {
    let mut config = AppConfig::default();
    config.select_profile(Profile::Maximum);
    let checked = ConfigStore::check_loaded(Ok(config));
    assert!(matches!(checked, Ok(c) if c == config));
    let mut broken = AppConfig::default();
    broken.schema_version = 7;
    let checked = ConfigStore::check_loaded(Ok(broken));
    assert!(checked.is_err());
    let result = ConfigStore::recovered(checked, "backup.toml".to_string());
    assert_eq!(result.config, AppConfig::default());
    assert_eq!(result.invalid_backup.as_deref(), Some("backup.toml"));
    let result = ConfigStore::recovered(Ok(config), "unused".to_string());
    assert_eq!(result.config, config);
    assert!(result.invalid_backup.is_none());
}

#[test]
fn unparsable_config_text_falls_back_to_defaults() {
    let error = toml::from_str::<toml::Value>("not valid = [").unwrap_err();
    let checked = ConfigStore::check_loaded(Err(ConfigError::Parse(error)));
    assert!(matches!(checked, Err(ConfigError::Parse(_))));
    let store = ConfigStore::at("/tmp/app/config.toml".to_string());
    let backup = store.invalid_backup_path(1725029869);
    let result = ConfigStore::recovered(checked, backup);
    assert_eq!(result.config, AppConfig::default());
    assert!(result.config.validate().is_ok());
    assert_eq!(
        result.invalid_backup.as_deref(),
        Some("/tmp/app/config.invalid.1725029869.toml")
    );
}
