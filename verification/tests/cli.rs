use termodoro::cli::{timer_lookup, TimerLookup};
use termodoro::cli::{completed_message, no_timer_message, stale_timer_message, stop_sent_message};
use termodoro::persistence::ClockError;
use termodoro::cli::{check_cycles, config_lines, config_request, effective_config, status_lines, ConfigRequest};
use termodoro::config::{AppConfig, ConfigOverrides};
use termodoro::domain::Phase;
use termodoro::persistence::{now_epoch_secs, process_exists_from_probe, RuntimeState, SignalProbe};

#[test]
fn zero_cycles_are_refused() {
    assert_eq!(check_cycles(Some(0)), Err("cycles must be greater than 0".to_string()));
    assert_eq!(check_cycles(Some(2)), Ok(()));
    assert_eq!(check_cycles(None), Ok(()));
}

#[test]
fn effective_config_applies_and_validates() {
    let base = AppConfig::default();
    let overrides = ConfigOverrides {
        work_minutes: Some(50),
        short_break_minutes: Some(10),
        long_break_minutes: Some(20),
        long_break_every: Some(4),
    };
    assert_eq!(
        effective_config(&base, &overrides),
        Ok(AppConfig { work_minutes: 50, short_break_minutes: 10, long_break_minutes: 20, long_break_every: 4 })
    );
    let bad = ConfigOverrides { long_break_every: Some(0), ..ConfigOverrides::default() };
    assert_eq!(effective_config(&base, &bad), Err("long_break_every must be greater than 0".to_string()));
}

#[test]
fn config_command_options_pick_the_request() {
    let none = ConfigOverrides::default();
    let some = ConfigOverrides { work_minutes: Some(30), ..ConfigOverrides::default() };
    assert_eq!(config_request(some, true), ConfigRequest::Reset);
    assert_eq!(config_request(none, false), ConfigRequest::Show);
    assert_eq!(config_request(some, false), ConfigRequest::Update(some));
}

#[test]
fn config_lines_show_each_field() {
    let lines = config_lines(&AppConfig::default());
    assert_eq!(
        lines,
        vec![
            "work_minutes = 25".to_string(),
            "short_break_minutes = 5".to_string(),
            "long_break_minutes = 15".to_string(),
            "long_break_every = 4".to_string(),
        ]
    );
}

#[test]
fn status_lines_describe_the_running_timer() {
    let state = RuntimeState {
        pid: 4242,
        phase: Phase::ShortBreak,
        phase_started_epoch_secs: 100,
        phase_duration_secs: 300,
        paused: true,
        pause_started_epoch_secs: Some(130),
        paused_accumulated_secs: 10,
        completed_work_sessions: 3,
        updated_epoch_secs: 140,
    };
    let lines = status_lines(&state, 500);
    assert_eq!(
        lines,
        vec![
            "Running: Short Break".to_string(),
            "Remaining: 04:40".to_string(),
            "Progress: 20 / 300".to_string(),
            "Completed work sessions: 3".to_string(),
            "Paused: yes".to_string(),
            "PID: 4242".to_string(),
        ]
    );
}

#[test]
fn signal_probe_outcomes_map_to_liveness() {
    assert_eq!(process_exists_from_probe(SignalProbe::Delivered), Ok(true));
    assert_eq!(process_exists_from_probe(SignalProbe::NoSuchProcess), Ok(false));
    assert_eq!(process_exists_from_probe(SignalProbe::PermissionDenied), Ok(true));
    assert_eq!(process_exists_from_probe(SignalProbe::Failed(22)), Err(22));
}

#[test]
fn the_clock_reads_after_the_epoch() {
    let now = now_epoch_secs().expect("clock after 1970");
    assert!(now > 1_600_000_000);
}

#[test]
fn timer_lookup_tells_missing_stale_and_running_apart() {
    let state = RuntimeState {
        pid: 7,
        phase: Phase::Work,
        phase_started_epoch_secs: 0,
        phase_duration_secs: 1500,
        paused: false,
        pause_started_epoch_secs: None,
        paused_accumulated_secs: 0,
        completed_work_sessions: 0,
        updated_epoch_secs: 0,
    };
    assert_eq!(timer_lookup(None, true), TimerLookup::NoTimer);
    assert_eq!(timer_lookup(None, false), TimerLookup::NoTimer);
    assert_eq!(timer_lookup(Some(state), false), TimerLookup::Stale);
    assert_eq!(timer_lookup(Some(state), true), TimerLookup::Running(state));
}

#[test]
fn command_messages_read_as_before() {
    assert_eq!(no_timer_message(), "No running pomodoro timer.");
    assert_eq!(stale_timer_message(), "No running pomodoro timer (stale state cleaned).");
    assert_eq!(stop_sent_message(1234), "Sent stop signal to timer process 1234.");
    assert_eq!(completed_message(2), "Completed 2 work session(s).");
    assert_eq!(ClockError::BeforeUnixEpoch.message(), "second time provided was later than self");
}
