use kiduku::config::{default_env_filter, LogSettings};

#[test]
fn test_default_env_filter_dev_mode() {
    let _filter = default_env_filter(true);
}

#[test]
fn test_default_env_filter_production_mode() {
    let _filter = default_env_filter(false);
}

#[test]
fn default_env_filter_levels() {
    assert_eq!(default_env_filter(true), "debug");
    assert_eq!(default_env_filter(false), "info");
}

#[test]
fn log_settings_thread_dev_mode_explicitly() {
    let mut settings = LogSettings::new();
    assert!(!settings.dev_mode());
    settings.set_dev_mode(true);
    assert!(settings.dev_mode());
    settings.set_dev_mode(false);
    assert!(!settings.dev_mode());
}
