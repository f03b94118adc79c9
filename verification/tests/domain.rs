use termodoro::config::AppConfig;
use termodoro::domain::{next_phase, Phase};

#[test]
fn uses_short_break_before_long_threshold() {
    assert_eq!(next_phase(Phase::Work, 1, 4), Phase::ShortBreak);
    assert_eq!(next_phase(Phase::Work, 2, 4), Phase::ShortBreak);
    assert_eq!(next_phase(Phase::Work, 3, 4), Phase::ShortBreak);
}

#[test]
fn uses_long_break_at_threshold() {
    assert_eq!(next_phase(Phase::Work, 4, 4), Phase::LongBreak);
    assert_eq!(next_phase(Phase::Work, 8, 4), Phase::LongBreak);
}

#[test]
fn breaks_are_followed_by_work() {
    assert_eq!(next_phase(Phase::ShortBreak, 3, 4), Phase::Work);
    assert_eq!(next_phase(Phase::LongBreak, 4, 4), Phase::Work);
}

#[test]
fn no_long_break_before_any_work_or_without_frequency() {
    assert_eq!(next_phase(Phase::Work, 0, 4), Phase::ShortBreak);
    assert_eq!(next_phase(Phase::Work, 4, 0), Phase::ShortBreak);
    assert_eq!(next_phase(Phase::Work, 0, 0), Phase::ShortBreak);
    assert_eq!(next_phase(Phase::Work, 3, 1), Phase::LongBreak);
}

#[test]
fn labels_name_each_phase() {
    assert_eq!(Phase::Work.label(), "Work");
    assert_eq!(Phase::ShortBreak.label(), "Short Break");
    assert_eq!(Phase::LongBreak.label(), "Long Break");
}

#[test]
fn durations_are_minutes_times_sixty() {
    let config = AppConfig::default();
    assert_eq!(Phase::Work.duration_seconds(&config), 1500);
    assert_eq!(Phase::ShortBreak.duration_seconds(&config), 300);
    assert_eq!(Phase::LongBreak.duration_seconds(&config), 900);
}
