use vstd::prelude::*;

use crate::config::AppConfig;

verus! {

/// One kind of Pomodoro interval.
#[derive(Debug, Clone, Copy, PartialEq, Eq, Structural)]
pub enum Phase {
    Work,
    ShortBreak,
    LongBreak,
}

/// The text shown for a phase.
pub open spec fn phase_label(phase: Phase) -> Seq<char> {
    match phase {
        Phase::Work => "Work"@,
        Phase::ShortBreak => "Short Break"@,
        Phase::LongBreak => "Long Break"@,
    }
}

/// The configured length of a phase, in minutes.
pub open spec fn phase_minutes(phase: Phase, config: AppConfig) -> u64 {
    match phase {
        Phase::Work => config.work_minutes,
        Phase::ShortBreak => config.short_break_minutes,
        Phase::LongBreak => config.long_break_minutes,
    }
}

/// The configured length of a phase, in seconds.
pub open spec fn phase_seconds(phase: Phase, config: AppConfig) -> int {
    phase_minutes(phase, config) * 60
}

impl Phase {
    /// The text shown for this phase.
    pub fn label(self) -> (text: &'static str)
        ensures
            text@ == phase_label(self),
            self == Phase::Work ==> text@ == "Work"@,
            self == Phase::ShortBreak ==> text@ == "Short Break"@,
            self == Phase::LongBreak ==> text@ == "Long Break"@,
    {
        match self {
            Phase::Work => "Work",
            Phase::ShortBreak => "Short Break",
            Phase::LongBreak => "Long Break",
        }
    }

    /// The length of this phase under `config`, in seconds.
    pub fn duration_seconds(self, config: &AppConfig) -> (seconds: u64)
        requires
            phase_seconds(self, *config) <= u64::MAX,
        ensures
            seconds == phase_seconds(self, *config),
            self == Phase::Work ==> seconds == config.work_minutes * 60,
            self == Phase::ShortBreak ==> seconds == config.short_break_minutes * 60,
            self == Phase::LongBreak ==> seconds == config.long_break_minutes * 60,
    {
        match self {
            Phase::Work => config.work_minutes * 60,
            Phase::ShortBreak => config.short_break_minutes * 60,
            Phase::LongBreak => config.long_break_minutes * 60,
        }
    }
}

/// The phase that follows `current` once `completed_work_sessions` work
/// sessions have been completed, with a long break after every
/// `long_break_every` of them.
pub open spec fn next_phase_spec(current: Phase, completed_work_sessions: u32, long_break_every: u32) -> Phase {
    match current {
        Phase::Work => if completed_work_sessions > 0 && long_break_every > 0
            && completed_work_sessions % long_break_every == 0 {
            Phase::LongBreak
        } else {
            Phase::ShortBreak
        },
        _ => Phase::Work,
    }
}

pub fn next_phase(current: Phase, completed_work_sessions: u32, long_break_every: u32) -> (next: Phase)
    ensures
        next == next_phase_spec(current, completed_work_sessions, long_break_every),
{
    match current {
        Phase::Work => {
            if completed_work_sessions > 0 && completed_work_sessions.is_multiple_of(long_break_every) {
                Phase::LongBreak
            } else {
                Phase::ShortBreak
            }
        },
        Phase::ShortBreak | Phase::LongBreak => Phase::Work,
    }
}


/// Work and breaks alternate: a work phase is followed by a break, and a
/// break by a work phase.
pub proof fn lemma_work_alternates_with_breaks(current: Phase, completed_work_sessions: u32, long_break_every: u32)
    ensures
        (current == Phase::Work) <==> (next_phase_spec(current, completed_work_sessions, long_break_every)
            != Phase::Work),
{
}

/// A work session is followed by a long break exactly when the number of
/// completed work sessions is a positive multiple of the long-break
/// frequency; with a frequency of zero there is never a long break.
pub proof fn lemma_long_break_after_every_nth_session(completed_work_sessions: u32, long_break_every: u32)
    ensures
        (next_phase_spec(Phase::Work, completed_work_sessions, long_break_every) == Phase::LongBreak) <==> (
        completed_work_sessions > 0 && long_break_every > 0 && completed_work_sessions % long_break_every
            == 0),
        long_break_every == 0 ==> next_phase_spec(Phase::Work, completed_work_sessions, long_break_every)
            == Phase::ShortBreak,
{
}


/// Each phase lasts its configured number of minutes, times sixty seconds.
pub proof fn lemma_phase_length_is_configured_minutes(config: AppConfig)
    ensures
        phase_seconds(Phase::Work, config) == config.work_minutes * 60,
        phase_seconds(Phase::ShortBreak, config) == config.short_break_minutes * 60,
        phase_seconds(Phase::LongBreak, config) == config.long_break_minutes * 60,
{
}

} // verus!
