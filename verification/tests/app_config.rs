use unilii::app_config::{
    app_config_from_core, validate_app_config, AppConfig, ApplicationSettings, CoreConfig,
    CoreModule, ModulePosition, ThemeSettings,
};

fn core_module(name: &str, position: &str, interval: Option<u64>) -> CoreModule {
    CoreModule { name: name.to_string(), position: position.to_string(), enabled: true, update_interval_ms: interval }
}

#[test]
fn test_default_app_config() {
    let config = AppConfig::default();

    assert!(config.module("clock").is_some());
    assert!(config.module("battery").is_some());

    let clock = config.module("clock").unwrap();
    assert!(clock.enabled);
    assert!(matches!(clock.position, ModulePosition::Right));
    assert_eq!(clock.update_interval_ms, Some(1000));

    let battery = config.module("battery").unwrap();
    assert!(battery.enabled);
    assert!(matches!(battery.position, ModulePosition::Right));
    assert_eq!(battery.update_interval_ms, Some(5000));

    assert_eq!(config.app.refresh_rate_ms, 50);
    assert!(!config.app.verbose);
    assert_eq!(config.app.theme.font_size, Some(14));
}

#[test]
fn default_theme_and_settings() {
    let theme = ThemeSettings::default();
    assert_eq!(theme.background_color.as_deref(), Some("#2c3e50"));
    assert_eq!(theme.text_color.as_deref(), Some("#ecf0f1"));
    let app = ApplicationSettings::default();
    assert_eq!(app.xrandr_presets_yaml, None);
    assert_eq!(app.theme, theme);
    let config = AppConfig::default();
    assert_eq!(config.module("battery").unwrap().theme_overrides.as_ref().unwrap().font_size, Some(12));
    assert!(config.module("missing").is_none());
}

#[test]
fn validation_reports_each_problem() {
    let mut config = AppConfig::default();
    assert_eq!(validate_app_config(&config), Ok(()));
    config.app.refresh_rate_ms = 0;
    assert_eq!(validate_app_config(&config), Err("Refresh rate cannot be zero".to_string()));
    config.app.refresh_rate_ms = 10001;
    assert_eq!(validate_app_config(&config), Err("Refresh rate too high (max 10000ms)".to_string()));
    config.app.refresh_rate_ms = 10000;
    config.modules[0].config.update_interval_ms = Some(0);
    assert_eq!(validate_app_config(&config), Err("Module 'clock' has zero update interval".to_string()));
    config.modules[0].config.update_interval_ms = None;
    config.modules[1].config.update_interval_ms = Some(3_600_001);
    assert_eq!(
        validate_app_config(&config),
        Err("Module 'battery' update interval too high (max 1 hour)".to_string())
    );
    config.modules[1].config.update_interval_ms = Some(3_600_000);
    assert_eq!(validate_app_config(&config), Ok(()));
}

#[test]
fn modules_from_shared_configuration() {
    let core = CoreConfig {
        modules: vec![
            core_module(" clock ", " Right ", Some(1000)),
            core_module("wifi", "LEFT", None),
            core_module("tmux", "center", Some(250)),
        ],
        xrandr_presets_yaml: Some("/etc/presets.yaml".to_string()),
    };
    let config = app_config_from_core(&core).unwrap();
    let names: Vec<&str> = config.modules.iter().map(|m| m.name.as_str()).collect();
    assert_eq!(names, vec!["clock", "wifi", "tmux"]);
    assert_eq!(config.module("clock").unwrap().position, ModulePosition::Right);
    assert_eq!(config.module("wifi").unwrap().position, ModulePosition::Left);
    assert_eq!(config.module("tmux").unwrap().position, ModulePosition::Center);
    assert_eq!(config.app.xrandr_presets_yaml.as_deref(), Some("/etc/presets.yaml"));
    assert_eq!(config.app.refresh_rate_ms, 50);
}

#[test]
fn shared_configuration_errors() {
    let bad_position = CoreConfig { modules: vec![core_module("clock", " Top ", None)], xrandr_presets_yaml: None };
    assert_eq!(
        app_config_from_core(&bad_position).unwrap_err(),
        "module 'clock' has unsupported position 'top'"
    );
    let blank = CoreConfig { modules: vec![core_module("  ", "left", None)], xrandr_presets_yaml: None };
    assert_eq!(app_config_from_core(&blank).unwrap_err(), "module names must not be empty");
    let duplicate = CoreConfig {
        modules: vec![core_module("clock", "left", None), core_module(" clock", "right", None)],
        xrandr_presets_yaml: None,
    };
    assert_eq!(app_config_from_core(&duplicate).unwrap_err(), "duplicate module name 'clock'");
    let invalid = CoreConfig { modules: vec![core_module("clock", "left", Some(0))], xrandr_presets_yaml: None };
    assert_eq!(app_config_from_core(&invalid).unwrap_err(), "Module 'clock' has zero update interval");
}

#[test]
fn invalid_configurations_fall_back_to_the_default() {
    let mut config = AppConfig::default();
    config.app.refresh_rate_ms = 0;
    let (kept, problem) = unilii::app_config::validated_or_default(config);
    assert_eq!(problem, Some("Refresh rate cannot be zero".to_string()));
    assert_eq!(kept.app.refresh_rate_ms, AppConfig::default().app.refresh_rate_ms);
    assert_eq!(kept.modules.len(), AppConfig::default().modules.len());

    let mut good = AppConfig::default();
    good.app.refresh_rate_ms = 250;
    let (kept, problem) = unilii::app_config::validated_or_default(good);
    assert_eq!(problem, None);
    assert_eq!(kept.app.refresh_rate_ms, 250);
}
