use termodoro::config::{AppConfig, ConfigOverrides};

#[test]
fn default_config_matches_documented_defaults() {
    let config = AppConfig::default();
    assert_eq!(config.work_minutes, 25);
    assert_eq!(config.short_break_minutes, 5);
    assert_eq!(config.long_break_minutes, 15);
    assert_eq!(config.long_break_every, 4);
    assert_eq!(config.validate(), Ok(()));
    assert!(config.durations_fit());
}

#[test]
fn overrides_replace_only_the_given_fields() {
    let base = AppConfig::default();
    let overrides = ConfigOverrides {
        work_minutes: Some(50),
        short_break_minutes: None,
        long_break_minutes: Some(20),
        long_break_every: None,
    };
    let updated = base.apply_overrides(&overrides);
    assert_eq!(
        updated,
        AppConfig { work_minutes: 50, short_break_minutes: 5, long_break_minutes: 20, long_break_every: 4 }
    );
    assert_eq!(updated.apply_overrides(&overrides), updated);
}

#[test]
fn empty_overrides_keep_the_config() {
    let base = AppConfig { work_minutes: 30, short_break_minutes: 6, long_break_minutes: 20, long_break_every: 5 };
    let none = ConfigOverrides::default();
    assert!(none.is_empty());
    assert_eq!(base.apply_overrides(&none), base);
}

#[test]
fn validate_names_the_first_zero_field() {
    let good = AppConfig::default();
    let mut c = good;
    c.work_minutes = 0;
    c.long_break_every = 0;
    assert_eq!(c.validate(), Err("work_minutes must be greater than 0".to_string()));
    let mut c = good;
    c.short_break_minutes = 0;
    assert_eq!(c.validate(), Err("short_break_minutes must be greater than 0".to_string()));
    let mut c = good;
    c.long_break_minutes = 0;
    assert_eq!(c.validate(), Err("long_break_minutes must be greater than 0".to_string()));
    let mut c = good;
    c.long_break_every = 0;
    assert_eq!(c.validate(), Err("long_break_every must be greater than 0".to_string()));
}

#[test]
fn huge_durations_do_not_fit_in_seconds() {
    let mut c = AppConfig::default();
    c.long_break_minutes = u64::MAX / 60 + 1;
    assert!(!c.durations_fit());
    c.long_break_minutes = u64::MAX / 60;
    assert!(c.durations_fit());
}
