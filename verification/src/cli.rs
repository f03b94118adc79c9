use vstd::prelude::*;

use crate::config::{apply_overrides_spec, no_overrides, validation_message, AppConfig, ConfigOverrides};
use crate::domain::phase_label;
use crate::engine::{compute_remaining_secs, format_remaining, format_remaining_spec, pause_total_fits, remaining_spec, sat_sub};
use crate::persistence::RuntimeState;
use crate::text::{decimal, decimal_string, decimal_value, lemma_decimal_reads_back};

verus! {

/// The message for a request of zero work sessions.
pub open spec fn zero_cycles_message() -> Seq<char> {
    "cycles must be greater than 0"@
}

/// Checks the number of work sessions asked of `start`: zero is refused.
pub fn check_cycles(cycles: Option<u32>) -> (result: Result<(), String>)
    ensures
        result is Err <==> cycles == Some(0u32),
        result matches Err(message) ==> message@ == zero_cycles_message(),
{
    if cycles == Some(0u32) {
        return Err(String::from_str("cycles must be greater than 0"));
    }
    Ok(())
}

/// The configuration a command runs with: `base` with `overrides` applied,
/// provided that the result is valid.
pub fn effective_config(base: &AppConfig, overrides: &ConfigOverrides) -> (result: Result<AppConfig, String>)
    ensures
        result is Ok <==> validation_message(apply_overrides_spec(*base, *overrides)) is None,
        result matches Ok(config) ==> config == apply_overrides_spec(*base, *overrides),
        result matches Err(message) ==> Some(message@) == validation_message(
            apply_overrides_spec(*base, *overrides),
        ),
{
    let config = base.apply_overrides(overrides);
    match config.validate() {
        Ok(()) => Ok(config),
        Err(message) => Err(message),
    }
}

/// What the `config` command is asked to do.
#[derive(Debug, Clone, Copy, PartialEq, Eq, Structural)]
pub enum ConfigRequest {
    /// Save and show the default configuration.
    Reset,
    /// Show the saved configuration.
    Show,
    /// Apply these overrides to the saved configuration, then save and show it.
    Update(ConfigOverrides),
}

/// What the `config` command does with its options: `--reset` wins; with no
/// value given it shows the configuration; otherwise it updates it.
pub open spec fn config_request_spec(overrides: ConfigOverrides, reset: bool) -> ConfigRequest {
    if reset {
        ConfigRequest::Reset
    } else if overrides == no_overrides() {
        ConfigRequest::Show
    } else {
        ConfigRequest::Update(overrides)
    }
}

/// Decides what the `config` command does with its options.
pub fn config_request(overrides: ConfigOverrides, reset: bool) -> (request: ConfigRequest)
    ensures
        request == config_request_spec(overrides, reset),
        reset ==> request == ConfigRequest::Reset,
        !reset && overrides.work_minutes is None && overrides.short_break_minutes is None
            && overrides.long_break_minutes is None && overrides.long_break_every is None ==> request
            == ConfigRequest::Show,
        !reset && (overrides.work_minutes is Some || overrides.short_break_minutes is Some
            || overrides.long_break_minutes is Some || overrides.long_break_every is Some) ==> request
            == ConfigRequest::Update(overrides),
{
    if reset {
        ConfigRequest::Reset
    } else if overrides.is_empty() {
        ConfigRequest::Show
    } else {
        ConfigRequest::Update(overrides)
    }
}

/// The lines that show a configuration.
pub open spec fn config_lines_spec(config: AppConfig) -> Seq<Seq<char>> {
    seq![
        "work_minutes = "@ + decimal(config.work_minutes as nat),
        "short_break_minutes = "@ + decimal(config.short_break_minutes as nat),
        "long_break_minutes = "@ + decimal(config.long_break_minutes as nat),
        "long_break_every = "@ + decimal(config.long_break_every as nat),
    ]
}

/// The views of a list of strings.
pub open spec fn texts(lines: Seq<String>) -> Seq<Seq<char>> {
    lines.map_values(|line: String| line@)
}

fn labelled(label: &str, value: u64) -> (line: String)
    ensures
        line@ == label@ + decimal(value as nat),
{
    let digits = decimal_string(value);
    let mut out = String::from_str(label);
    out.append(digits.as_str());
    out
}

/// The lines that show a configuration, one per field.
pub fn config_lines(config: &AppConfig) -> (lines: Vec<String>)
    ensures
        texts(lines@) == config_lines_spec(*config),
{
    let mut lines: Vec<String> = Vec::new();
    lines.push(labelled("work_minutes = ", config.work_minutes));
    lines.push(labelled("short_break_minutes = ", config.short_break_minutes));
    lines.push(labelled("long_break_minutes = ", config.long_break_minutes));
    lines.push(labelled("long_break_every = ", config.long_break_every as u64));
    assert(texts(lines@) =~= config_lines_spec(*config));
    lines
}

/// The lines that `status` prints for a running timer at `now`.
pub open spec fn status_lines_spec(state: RuntimeState, now_epoch_secs: u64) -> Seq<Seq<char>> {
    let remaining = remaining_spec(
        state.phase_duration_secs,
        state.phase_started_epoch_secs,
        state.paused_accumulated_secs,
        state.pause_started_epoch_secs,
        now_epoch_secs,
    );
    seq![
        "Running: "@ + phase_label(state.phase),
        "Remaining: "@ + format_remaining_spec(remaining as u64),
        "Progress: "@ + decimal(sat_sub(state.phase_duration_secs as int, remaining) as nat) + " / "@
            + decimal(state.phase_duration_secs as nat),
        "Completed work sessions: "@ + decimal(state.completed_work_sessions as nat),
        "Paused: "@ + (if state.paused { "yes"@ } else { "no"@ }),
        "PID: "@ + decimal(state.pid as nat),
    ]
}

/// The lines that `status` prints for a running timer at `now`.
pub fn status_lines(state: &RuntimeState, now_epoch_secs: u64) -> (lines: Vec<String>)
    requires
        pause_total_fits(state.paused_accumulated_secs, state.pause_started_epoch_secs, now_epoch_secs),
    ensures
        texts(lines@) == status_lines_spec(*state, now_epoch_secs),
        lines@.len() == 6,
        state.paused ==> lines@[4]@ == "Paused: yes"@,
        !state.paused ==> lines@[4]@ == "Paused: no"@,
{
    let remaining: u64 = compute_remaining_secs(
        state.phase_duration_secs,
        state.phase_started_epoch_secs,
        state.paused_accumulated_secs,
        state.pause_started_epoch_secs,
        now_epoch_secs,
    );
    let mut lines: Vec<String> = Vec::new();

    let mut running = String::from_str("Running: ");
    running.append(state.phase.label());
    lines.push(running);

    let mut left = String::from_str("Remaining: ");
    let time = format_remaining(remaining);
    left.append(time.as_str());
    lines.push(left);

    let mut progress = labelled("Progress: ", state.phase_duration_secs.saturating_sub(remaining));
    progress.append(" / ");
    let total = decimal_string(state.phase_duration_secs);
    progress.append(total.as_str());
    lines.push(progress);

    lines.push(labelled("Completed work sessions: ", state.completed_work_sessions as u64));

    let mut paused = String::from_str("Paused: ");
    if state.paused {
        paused.append("yes");
    } else {
        paused.append("no");
    }
    lines.push(paused);

    lines.push(labelled("PID: ", state.pid as u64));
    assert(texts(lines@) =~= status_lines_spec(*state, now_epoch_secs));
    assert(texts(lines@)[4] == lines@[4]@);
    proof {
        reveal_strlit("Paused: ");
        reveal_strlit("yes");
        reveal_strlit("no");
        reveal_strlit("Paused: yes");
        reveal_strlit("Paused: no");
        assert("Paused: "@ + "yes"@ =~= "Paused: yes"@);
        assert("Paused: "@ + "no"@ =~= "Paused: no"@);
    }
    lines
}


/// What `status` and `stop` find of the timer process.
#[derive(Debug, Clone, Copy, PartialEq, Eq, Structural)]
pub enum TimerLookup {
    /// No state is saved.
    NoTimer,
    /// State is saved, but its process is gone: the state is to be removed.
    Stale,
    /// The saved state belongs to a live process.
    Running(RuntimeState),
}

/// What the saved state, and whether its process is alive, say of the timer.
pub open spec fn timer_lookup_spec(state: Option<RuntimeState>, alive: bool) -> TimerLookup {
    match state {
        None => TimerLookup::NoTimer,
        Some(s) => if alive {
            TimerLookup::Running(s)
        } else {
            TimerLookup::Stale
        },
    }
}

/// Decides what the saved state, and whether its process is alive, say of
/// the timer; `alive` is not looked at when no state is saved.
pub fn timer_lookup(state: Option<RuntimeState>, alive: bool) -> (lookup: TimerLookup)
    ensures
        lookup == timer_lookup_spec(state, alive),
        state is None ==> lookup == TimerLookup::NoTimer,
        state matches Some(s) ==> (alive ==> lookup == TimerLookup::Running(s)),
        state is Some && !alive ==> lookup == TimerLookup::Stale,
{
    match state {
        None => TimerLookup::NoTimer,
        Some(s) => if alive {
            TimerLookup::Running(s)
        } else {
            TimerLookup::Stale
        },
    }
}

/// The message for a missing timer.
pub fn no_timer_message() -> (text: String)
    ensures
        text@ == "No running pomodoro timer."@,
{
    String::from_str("No running pomodoro timer.")
}

/// The message for a timer whose process is gone.
pub fn stale_timer_message() -> (text: String)
    ensures
        text@ == "No running pomodoro timer (stale state cleaned)."@,
{
    String::from_str("No running pomodoro timer (stale state cleaned).")
}

/// The message after the stop signal was sent to process `pid`.
pub fn stop_sent_message(pid: u32) -> (text: String)
    ensures
        text@ == "Sent stop signal to timer process "@ + decimal(pid as nat) + "."@,
{
    let mut text = labelled("Sent stop signal to timer process ", pid as u64);
    text.append(".");
    text
}

/// The message after a session finished its requested work sessions.
pub fn completed_message(completed: u32) -> (text: String)
    ensures
        text@ == "Completed "@ + decimal(completed as nat) + " work session(s)."@,
{
    let mut text = labelled("Completed ", completed as u64);
    text.append(" work session(s).");
    text
}


/// `--reset` resets whatever values come with it; without it, a command
/// with no value shows the configuration and one with any value updates it
/// with exactly those values.
pub proof fn lemma_config_request_follows_options(overrides: ConfigOverrides, reset: bool)
    ensures
        reset ==> config_request_spec(overrides, reset) == ConfigRequest::Reset,
        !reset && overrides.work_minutes is None && overrides.short_break_minutes is None
            && overrides.long_break_minutes is None && overrides.long_break_every is None
            ==> config_request_spec(overrides, reset) == ConfigRequest::Show,
        !reset && (overrides.work_minutes is Some || overrides.short_break_minutes is Some
            || overrides.long_break_minutes is Some || overrides.long_break_every is Some)
            ==> config_request_spec(overrides, reset) == ConfigRequest::Update(overrides),
{
}

/// A line made of `label` and then the decimal text of `value` starts with
/// the label, and what follows it reads back as the value.
pub proof fn lemma_labelled_reads_back(label: Seq<char>, value: nat)
    ensures
        (label + decimal(value)).take(label.len() as int) == label,
        decimal_value((label + decimal(value)).skip(label.len() as int)) == value,
{
    assert((label + decimal(value)).take(label.len() as int) =~= label);
    assert((label + decimal(value)).skip(label.len() as int) =~= decimal(value));
    lemma_decimal_reads_back(value);
}

/// The configuration lines give each field, in declaration order, after
/// its name, as a number that reads back as the field's value.
pub proof fn lemma_config_lines_read_back(config: AppConfig)
    ensures
        ({
            let lines = config_lines_spec(config);
            &&& lines.len() == 4
            &&& lines[0].take("work_minutes = "@.len() as int) == "work_minutes = "@
            &&& decimal_value(lines[0].skip("work_minutes = "@.len() as int)) == config.work_minutes
            &&& lines[1].take("short_break_minutes = "@.len() as int) == "short_break_minutes = "@
            &&& decimal_value(lines[1].skip("short_break_minutes = "@.len() as int))
                == config.short_break_minutes
            &&& lines[2].take("long_break_minutes = "@.len() as int) == "long_break_minutes = "@
            &&& decimal_value(lines[2].skip("long_break_minutes = "@.len() as int))
                == config.long_break_minutes
            &&& lines[3].take("long_break_every = "@.len() as int) == "long_break_every = "@
            &&& decimal_value(lines[3].skip("long_break_every = "@.len() as int)) == config.long_break_every
        }),
{
    lemma_labelled_reads_back("work_minutes = "@, config.work_minutes as nat);
    lemma_labelled_reads_back("short_break_minutes = "@, config.short_break_minutes as nat);
    lemma_labelled_reads_back("long_break_minutes = "@, config.long_break_minutes as nat);
    lemma_labelled_reads_back("long_break_every = "@, config.long_break_every as nat);
}

/// The status lines report the saved state: "Paused: yes" exactly for a
/// paused timer and "Paused: no" otherwise, and the completed work sessions
/// and the process id as numbers that read back as the saved ones.
pub proof fn lemma_status_lines_report_state(state: RuntimeState, now_epoch_secs: u64)
    ensures
        ({
            let lines = status_lines_spec(state, now_epoch_secs);
            &&& lines.len() == 6
            &&& state.paused ==> lines[4] == "Paused: yes"@
            &&& !state.paused ==> lines[4] == "Paused: no"@
            &&& lines[3].take("Completed work sessions: "@.len() as int) == "Completed work sessions: "@
            &&& decimal_value(lines[3].skip("Completed work sessions: "@.len() as int))
                == state.completed_work_sessions
            &&& lines[5].take("PID: "@.len() as int) == "PID: "@
            &&& decimal_value(lines[5].skip("PID: "@.len() as int)) == state.pid
        }),
{
    reveal_strlit("Paused: ");
    reveal_strlit("yes");
    reveal_strlit("no");
    reveal_strlit("Paused: yes");
    reveal_strlit("Paused: no");
    assert("Paused: "@ + "yes"@ =~= "Paused: yes"@);
    assert("Paused: "@ + "no"@ =~= "Paused: no"@);
    lemma_labelled_reads_back("Completed work sessions: "@, state.completed_work_sessions as nat);
    lemma_labelled_reads_back("PID: "@, state.pid as nat);
}

} // verus!
