use termodoro::cli::status_lines;
use termodoro::config::AppConfig;
use termodoro::domain::Phase;
use termodoro::engine::{
    build_runtime_state, compute_remaining_secs, countdown_line, format_remaining, key_command, key_press_command, Advance, KeyCommand, PhaseTimer,
    PomodoroSession, TickAction,
};

#[test]
fn remaining_reduces_without_pause() {
    let remaining = compute_remaining_secs(1500, 100, 0, None, 160);
    assert_eq!(remaining, 1440);
}

#[test]
fn remaining_freezes_during_pause() {
    let remaining = compute_remaining_secs(1500, 100, 0, Some(120), 150);
    assert_eq!(remaining, 1480);
}

#[test]
fn remaining_saturates_at_both_ends() {
    assert_eq!(compute_remaining_secs(60, 100, 0, None, 90), 60);
    assert_eq!(compute_remaining_secs(60, 100, 0, None, 1000), 0);
    assert_eq!(compute_remaining_secs(60, 100, 500, None, 200), 60);
    assert_eq!(compute_remaining_secs(60, 100, 10, Some(300), 200), 0);
}

#[test]
fn format_remaining_pads_minutes_and_seconds() {
    assert_eq!(format_remaining(0), "00:00");
    assert_eq!(format_remaining(65), "01:05");
    assert_eq!(format_remaining(1500), "25:00");
    assert_eq!(format_remaining(599), "09:59");
    assert_eq!(format_remaining(6000), "100:00");
}

#[test]
fn countdown_line_shows_phase_time_bar_and_state() {
    assert_eq!(
        countdown_line(Phase::Work, 65, false, 5),
        "\rWork 01:05 [#####---------------] running  (p=pause r=resume q=quit)"
    );
    assert_eq!(
        countdown_line(Phase::LongBreak, 0, true, 99),
        "\rLong Break 00:00 [####################] paused  (p=pause r=resume q=quit)"
    );
}

#[test]
fn keys_map_to_commands_in_either_case() {
    assert_eq!(key_command('q'), KeyCommand::Quit);
    assert_eq!(key_command('Q'), KeyCommand::Quit);
    assert_eq!(key_command('p'), KeyCommand::Pause);
    assert_eq!(key_command('P'), KeyCommand::Pause);
    assert_eq!(key_command('r'), KeyCommand::Resume);
    assert_eq!(key_command('R'), KeyCommand::Resume);
    assert_eq!(key_command('x'), KeyCommand::Ignore);
}

#[test]
fn pause_then_resume_does_not_count_the_pause() {
    let mut timer = PhaseTimer::started_at(Phase::Work, 1500, 100);
    assert_eq!(timer.remaining_secs(160), 1440);
    timer.pause(160);
    assert!(timer.is_paused());
    timer.pause(170);
    assert_eq!(timer.pause_started_epoch_secs, Some(160));
    assert_eq!(timer.remaining_secs(200), 1440);
    assert_eq!(timer.remaining_secs(900), 1440);
    timer.resume(200);
    assert!(!timer.is_paused());
    assert_eq!(timer.paused_accumulated_secs, 40);
    assert_eq!(timer.remaining_secs(200), 1440);
    assert_eq!(timer.remaining_secs(210), 1430);
    timer.resume(300);
    assert_eq!(timer.paused_accumulated_secs, 40);
    assert_eq!(timer.remaining_secs(100 + 40 + 1500), 0);
}

#[test]
fn timer_from_the_clock_starts_full() {
    let timer = PhaseTimer::new(Phase::ShortBreak, 300).expect("clock");
    assert_eq!(timer.phase, Phase::ShortBreak);
    assert_eq!(timer.remaining_secs(timer.phase_started_epoch_secs), 300);
    assert!(!timer.is_paused());
    let entry = timer.history_entry(true).expect("clock");
    assert_eq!(entry.phase, Phase::ShortBreak);
    assert!(entry.interrupted);
    assert!(entry.ended_epoch_secs >= entry.started_epoch_secs);
}

#[test]
fn history_entry_records_the_phase_span() {
    let timer = PhaseTimer::started_at(Phase::Work, 1500, 100);
    let entry = timer.history_entry_at(false, 1600);
    assert_eq!(entry.phase, Phase::Work);
    assert_eq!(entry.started_epoch_secs, 100);
    assert_eq!(entry.ended_epoch_secs, 1600);
    assert!(!entry.interrupted);
}

fn short_config() -> AppConfig {
    AppConfig { work_minutes: 1, short_break_minutes: 1, long_break_minutes: 2, long_break_every: 2 }
}

#[test]
fn session_ticks_report_remaining_and_redraw_once_per_second() {
    let mut s = PomodoroSession::new(short_config(), None, 1000);
    assert_eq!(s.timer.phase, Phase::Work);
    assert_eq!(s.timer.phase_duration_secs, 60);
    assert_eq!(s.tick(1010), TickAction::Run { redraw: true, remaining: 50, phase_over: false });
    assert_eq!(s.tick(1010), TickAction::Run { redraw: false, remaining: 50, phase_over: false });
    assert_eq!(s.tick(1060), TickAction::Run { redraw: true, remaining: 0, phase_over: true });
}

#[test]
fn session_keys_pause_resume_and_quit() {
    let mut s = PomodoroSession::new(short_config(), None, 1000);
    assert!(s.handle_key(KeyCommand::Pause, 1010));
    assert!(!s.handle_key(KeyCommand::Pause, 1020));
    assert_eq!(s.tick(1050), TickAction::Run { redraw: true, remaining: 50, phase_over: false });
    assert!(s.handle_key(KeyCommand::Resume, 1050));
    assert!(!s.handle_key(KeyCommand::Resume, 1055));
    assert_eq!(s.tick(1060), TickAction::Run { redraw: true, remaining: 40, phase_over: false });
    assert!(!s.handle_key(KeyCommand::Ignore, 1060));
    assert!(!s.handle_key(KeyCommand::Quit, 1061));
    assert_eq!(s.tick(1062), TickAction::Stop);
}

#[test]
fn session_requested_stop_stops() {
    let mut s = PomodoroSession::new(short_config(), Some(3), 0);
    s.request_stop();
    assert_eq!(s.tick(5), TickAction::Stop);
}

#[test]
fn session_alternates_and_takes_long_breaks() {
    let mut s = PomodoroSession::new(short_config(), None, 0);
    assert_eq!(s.advance(60), Advance::Started);
    assert_eq!(s.timer.phase, Phase::ShortBreak);
    assert_eq!(s.completed_work_sessions, 1);
    assert_eq!(s.timer.phase_started_epoch_secs, 60);
    assert_eq!(s.advance(120), Advance::Started);
    assert_eq!(s.timer.phase, Phase::Work);
    assert_eq!(s.completed_work_sessions, 1);
    assert_eq!(s.advance(180), Advance::Started);
    assert_eq!(s.timer.phase, Phase::LongBreak);
    assert_eq!(s.timer.phase_duration_secs, 120);
    assert_eq!(s.completed_work_sessions, 2);
    assert!(s.advance_allowed());
}

#[test]
fn session_finishes_after_requested_work_sessions() {
    let mut s = PomodoroSession::new(short_config(), Some(2), 0);
    assert_eq!(s.advance(60), Advance::Started);
    assert_eq!(s.advance(120), Advance::Started);
    assert_eq!(s.advance(180), Advance::Finished { completed: 2 });
}

#[test]
fn session_runtime_state_copies_the_timer() {
    let mut s = PomodoroSession::new(short_config(), None, 1000);
    s.handle_key(KeyCommand::Pause, 1010);
    let state = s.runtime_state_at(42, 1020);
    assert_eq!(state.pid, 42);
    assert_eq!(state.phase, Phase::Work);
    assert_eq!(state.phase_started_epoch_secs, 1000);
    assert_eq!(state.phase_duration_secs, 60);
    assert!(state.paused);
    assert_eq!(state.pause_started_epoch_secs, Some(1010));
    assert_eq!(state.paused_accumulated_secs, 0);
    assert_eq!(state.completed_work_sessions, 0);
    assert_eq!(state.updated_epoch_secs, 1020);
}

#[test]
fn runtime_state_from_the_clock_copies_the_timer() {
    let timer = PhaseTimer::started_at(Phase::LongBreak, 900, 10);
    let state = build_runtime_state(&timer, 7, 99).expect("clock");
    assert_eq!(state.pid, 99);
    assert_eq!(state.phase, Phase::LongBreak);
    assert_eq!(state.phase_duration_secs, 900);
    assert_eq!(state.completed_work_sessions, 7);
    assert!(!state.paused);
    assert!(state.updated_epoch_secs > 1_600_000_000);
}

#[test]
fn status_of_a_saved_session_shows_the_timer_countdown() {
    let mut s = PomodoroSession::new(short_config(), None, 1000);
    s.handle_key(KeyCommand::Pause, 1020);
    let state = s.runtime_state_at(1, 1030);
    let lines = status_lines(&state, 1045);
    let expected = format!("Remaining: {}", format_remaining(s.timer.remaining_secs(1045)));
    assert_eq!(lines[1], expected);
    assert_eq!(lines[1], "Remaining: 00:40");
}

#[test]
fn control_c_quits_like_the_interrupt() {
    assert_eq!(key_press_command('c', true), KeyCommand::Quit);
    assert_eq!(key_press_command('C', true), KeyCommand::Quit);
    assert_eq!(key_press_command('c', false), KeyCommand::Ignore);
    assert_eq!(key_press_command('p', true), KeyCommand::Pause);
    assert_eq!(key_press_command('r', false), KeyCommand::Resume);
}

#[test]
fn a_new_phase_is_drawn_at_once() {
    let mut s = PomodoroSession::new(short_config(), None, 0);
    assert_eq!(s.tick(60), TickAction::Run { redraw: true, remaining: 0, phase_over: true });
    assert_eq!(s.advance(60), Advance::Started);
    assert_eq!(s.last_draw_epoch, 0);
    assert_eq!(s.tick(60), TickAction::Run { redraw: true, remaining: 60, phase_over: false });
}
