use vstd::prelude::*;

use crate::config::{durations_fit, AppConfig};
use crate::domain::{next_phase, next_phase_spec, phase_label, phase_seconds, Phase};
use crate::persistence::{now_epoch_secs, ClockError, HistoryEntry, RuntimeState};
use crate::text::{decimal_value, is_digit, lemma_zero_padded2_reads_back, push_zero_padded2, zero_padded2};

verus! {

/// `a - b`, or 0 where that would be negative.
pub open spec fn sat_sub(a: int, b: int) -> int {
    if a >= b {
        a - b
    } else {
        0
    }
}

/// Seconds spent in the pause that is still going on at `now`.
pub open spec fn current_pause(pause_started_epoch_secs: Option<u64>, now_epoch_secs: u64) -> int {
    match pause_started_epoch_secs {
        Some(paused_at) => sat_sub(now_epoch_secs as int, paused_at as int),
        None => 0,
    }
}

/// The paused time at `now`, finished pauses and the current one together,
/// fits in a `u64`.
pub open spec fn pause_total_fits(
    paused_accumulated_secs: u64,
    pause_started_epoch_secs: Option<u64>,
    now_epoch_secs: u64,
) -> bool {
    paused_accumulated_secs + current_pause(pause_started_epoch_secs, now_epoch_secs) <= u64::MAX
}

/// Seconds left of a phase of `duration_secs` at `now`: the time since the
/// phase started, less every second spent paused, is taken from the
/// duration, and neither difference goes below zero.
pub open spec fn remaining_spec(
    duration_secs: u64,
    phase_started_epoch_secs: u64,
    paused_accumulated_secs: u64,
    pause_started_epoch_secs: Option<u64>,
    now_epoch_secs: u64,
) -> int {
    let elapsed_total = sat_sub(now_epoch_secs as int, phase_started_epoch_secs as int);
    let paused = paused_accumulated_secs + current_pause(pause_started_epoch_secs, now_epoch_secs);
    sat_sub(duration_secs as int, sat_sub(elapsed_total, paused))
}

/// Computes the seconds left of a phase; see [`remaining_spec`].
pub fn compute_remaining_secs(
    duration_secs: u64,
    phase_started_epoch_secs: u64,
    paused_accumulated_secs: u64,
    pause_started_epoch_secs: Option<u64>,
    now_epoch_secs: u64,
) -> (remaining: u64)
    requires
        pause_total_fits(paused_accumulated_secs, pause_started_epoch_secs, now_epoch_secs),
    ensures
        remaining == remaining_spec(
            duration_secs,
            phase_started_epoch_secs,
            paused_accumulated_secs,
            pause_started_epoch_secs,
            now_epoch_secs,
        ),
{
    let elapsed_total: u64 = now_epoch_secs.saturating_sub(phase_started_epoch_secs);
    let current_pause: u64 = match pause_started_epoch_secs {
        Some(paused_at) => now_epoch_secs.saturating_sub(paused_at),
        None => 0,
    };
    let active_elapsed: u64 = elapsed_total.saturating_sub(paused_accumulated_secs + current_pause);
    duration_secs.saturating_sub(active_elapsed)
}

/// The `MM:SS` text of a number of seconds: whole minutes, then the
/// seconds left over, each padded with a leading zero to two digits.
pub open spec fn format_remaining_spec(remaining_secs: u64) -> Seq<char> {
    zero_padded2((remaining_secs / 60) as nat) + seq![':'] + zero_padded2((remaining_secs % 60) as nat)
}

/// Formats a number of seconds as `MM:SS`; see [`format_remaining_spec`].
pub fn format_remaining(remaining_secs: u64) -> (text: String)
    ensures
        text@ == format_remaining_spec(remaining_secs),
{
    let mins: u64 = remaining_secs / 60;
    let secs: u64 = remaining_secs % 60;
    let mut out = String::new();
    push_zero_padded2(&mut out, mins);
    out.append(":");
    proof { reveal_strlit(":"); }
    push_zero_padded2(&mut out, secs);
    assert(out@ =~= format_remaining_spec(remaining_secs));
    out
}

/// The timer of the phase that is running.
#[derive(Debug, Clone, Copy, PartialEq, Eq, Structural)]
pub struct PhaseTimer {
    pub phase: Phase,
    pub phase_started_epoch_secs: u64,
    pub phase_duration_secs: u64,
    pub paused_accumulated_secs: u64,
    pub pause_started_epoch_secs: Option<u64>,
}

/// A fresh, running timer of `phase` that started at `now`.
pub open spec fn fresh_timer(phase: Phase, phase_duration_secs: u64, now_epoch_secs: u64) -> PhaseTimer {
    PhaseTimer {
        phase,
        phase_started_epoch_secs: now_epoch_secs,
        phase_duration_secs,
        paused_accumulated_secs: 0,
        pause_started_epoch_secs: None,
    }
}

/// The timer after a pause request at `now`: a running timer is paused from
/// `now` on; a paused one stays as it is.
pub open spec fn paused_timer(timer: PhaseTimer, now_epoch_secs: u64) -> PhaseTimer {
    if timer.pause_started_epoch_secs is None {
        PhaseTimer { pause_started_epoch_secs: Some(now_epoch_secs), ..timer }
    } else {
        timer
    }
}

/// The timer after a resume request at `now`: a paused timer runs again and
/// adds the seconds of the pause to its paused total; a running one stays
/// as it is.
pub open spec fn resumed_timer(timer: PhaseTimer, now_epoch_secs: u64) -> PhaseTimer {
    match timer.pause_started_epoch_secs {
        Some(paused_at) => PhaseTimer {
            pause_started_epoch_secs: None,
            paused_accumulated_secs: (timer.paused_accumulated_secs + sat_sub(
                now_epoch_secs as int,
                paused_at as int,
            )) as u64,
            ..timer
        },
        None => timer,
    }
}

impl PhaseTimer {
    /// The seconds left of this timer at `now`.
    pub open spec fn remaining_at(self, now_epoch_secs: u64) -> int {
        remaining_spec(
            self.phase_duration_secs,
            self.phase_started_epoch_secs,
            self.paused_accumulated_secs,
            self.pause_started_epoch_secs,
            now_epoch_secs,
        )
    }

    /// The paused time of this timer at `now` fits in a `u64`.
    pub open spec fn measurable_at(self, now_epoch_secs: u64) -> bool {
        pause_total_fits(self.paused_accumulated_secs, self.pause_started_epoch_secs, now_epoch_secs)
    }

    /// A timer of `phase` that starts at `now`, running, with nothing paused yet.
    pub fn started_at(phase: Phase, phase_duration_secs: u64, now_epoch_secs: u64) -> (timer: Self)
        ensures
            timer == fresh_timer(phase, phase_duration_secs, now_epoch_secs),
    {
        PhaseTimer {
            phase,
            phase_started_epoch_secs: now_epoch_secs,
            phase_duration_secs,
            paused_accumulated_secs: 0,
            pause_started_epoch_secs: None,
        }
    }

    /// A timer of `phase` that starts now, by the wall clock.
    pub fn new(phase: Phase, phase_duration_secs: u64) -> (result: Result<Self, ClockError>)
        ensures
            result matches Ok(timer) ==> exists|now: u64|
                timer == fresh_timer(phase, phase_duration_secs, now),
    {
        let now: u64 = now_epoch_secs()?;
        Ok(Self::started_at(phase, phase_duration_secs, now))
    }

    /// Whether the timer is paused.
    pub fn is_paused(&self) -> (paused: bool)
        ensures
            paused == (self.pause_started_epoch_secs is Some),
    {
        self.pause_started_epoch_secs.is_some()
    }

    /// Pauses the timer at `now`, unless it is paused already.
    pub fn pause(&mut self, now_epoch_secs: u64)
        ensures
            *final(self) == paused_timer(*old(self), now_epoch_secs),
            old(self).pause_started_epoch_secs is None ==> final(self).pause_started_epoch_secs == Some(
                now_epoch_secs,
            ),
            old(self).pause_started_epoch_secs is Some ==> *final(self) == *old(self),
            final(self).phase == old(self).phase,
            final(self).phase_started_epoch_secs == old(self).phase_started_epoch_secs,
            final(self).phase_duration_secs == old(self).phase_duration_secs,
            final(self).paused_accumulated_secs == old(self).paused_accumulated_secs,
    {
        if self.pause_started_epoch_secs.is_none() {
            self.pause_started_epoch_secs = Some(now_epoch_secs);
        }
    }

    /// Resumes the timer at `now`, unless it is running already.
    pub fn resume(&mut self, now_epoch_secs: u64)
        requires
            old(self).measurable_at(now_epoch_secs),
        ensures
            *final(self) == resumed_timer(*old(self), now_epoch_secs),
            old(self).pause_started_epoch_secs matches Some(paused_at) ==> {
                &&& final(self).pause_started_epoch_secs is None
                &&& now_epoch_secs >= paused_at ==> final(self).paused_accumulated_secs
                    == old(self).paused_accumulated_secs + (now_epoch_secs - paused_at)
                &&& now_epoch_secs < paused_at ==> final(self).paused_accumulated_secs
                    == old(self).paused_accumulated_secs
            },
            old(self).pause_started_epoch_secs is None ==> *final(self) == *old(self),
            final(self).phase == old(self).phase,
            final(self).phase_started_epoch_secs == old(self).phase_started_epoch_secs,
            final(self).phase_duration_secs == old(self).phase_duration_secs,
    {
        if let Some(paused_at) = self.pause_started_epoch_secs {
            self.pause_started_epoch_secs = None;
            self.paused_accumulated_secs = self.paused_accumulated_secs + now_epoch_secs.saturating_sub(
                paused_at,
            );
        }
    }

    /// The seconds left of this timer at `now`.
    pub fn remaining_secs(&self, now_epoch_secs: u64) -> (remaining: u64)
        requires
            self.measurable_at(now_epoch_secs),
        ensures
            remaining == self.remaining_at(now_epoch_secs),
    {
        compute_remaining_secs(
            self.phase_duration_secs,
            self.phase_started_epoch_secs,
            self.paused_accumulated_secs,
            self.pause_started_epoch_secs,
            now_epoch_secs,
        )
    }

    /// True when the paused time of this timer at `now` fits in a `u64`.
    pub fn is_measurable_at(&self, now_epoch_secs: u64) -> (fits: bool)
        ensures
            fits == self.measurable_at(now_epoch_secs),
    {
        match self.pause_started_epoch_secs {
            Some(paused_at) => self.paused_accumulated_secs <= u64::MAX - now_epoch_secs.saturating_sub(
                paused_at,
            ),
            None => true,
        }
    }

    /// The history record of this timer's phase, ended at `ended`.
    pub fn history_entry_at(&self, interrupted: bool, ended_epoch_secs: u64) -> (entry: HistoryEntry)
        ensures
            entry == (HistoryEntry {
                phase: self.phase,
                started_epoch_secs: self.phase_started_epoch_secs,
                ended_epoch_secs,
                interrupted,
            }),
    {
        HistoryEntry {
            phase: self.phase,
            started_epoch_secs: self.phase_started_epoch_secs,
            ended_epoch_secs,
            interrupted,
        }
    }

    /// The history record of this timer's phase, ended now by the wall clock.
    pub fn history_entry(&self, interrupted: bool) -> (result: Result<HistoryEntry, ClockError>)
        ensures
            result matches Ok(entry) ==> exists|now: u64|
                entry == (HistoryEntry {
                    phase: self.phase,
                    started_epoch_secs: self.phase_started_epoch_secs,
                    ended_epoch_secs: now,
                    interrupted,
                }),
    {
        let now: u64 = now_epoch_secs()?;
        Ok(self.history_entry_at(interrupted, now))
    }
}


/// The record of the running timer that is persisted for `status` and `stop`.
pub open spec fn runtime_state_spec(
    timer: PhaseTimer,
    completed_work_sessions: u32,
    pid: u32,
    updated_epoch_secs: u64,
) -> RuntimeState {
    RuntimeState {
        pid,
        phase: timer.phase,
        phase_started_epoch_secs: timer.phase_started_epoch_secs,
        phase_duration_secs: timer.phase_duration_secs,
        paused: timer.pause_started_epoch_secs is Some,
        pause_started_epoch_secs: timer.pause_started_epoch_secs,
        paused_accumulated_secs: timer.paused_accumulated_secs,
        completed_work_sessions,
        updated_epoch_secs,
    }
}

/// The persisted record of `timer` in process `pid`, updated at `now`.
pub fn runtime_state_at(
    timer: &PhaseTimer,
    completed_work_sessions: u32,
    pid: u32,
    updated_epoch_secs: u64,
) -> (state: RuntimeState)
    ensures
        state == runtime_state_spec(*timer, completed_work_sessions, pid, updated_epoch_secs),
{
    RuntimeState {
        pid,
        phase: timer.phase,
        phase_started_epoch_secs: timer.phase_started_epoch_secs,
        phase_duration_secs: timer.phase_duration_secs,
        paused: timer.is_paused(),
        pause_started_epoch_secs: timer.pause_started_epoch_secs,
        paused_accumulated_secs: timer.paused_accumulated_secs,
        completed_work_sessions,
        updated_epoch_secs,
    }
}

/// The persisted record of `timer` in process `pid`, updated now by the wall clock.
pub fn build_runtime_state(timer: &PhaseTimer, completed_work_sessions: u32, pid: u32) -> (result:
    Result<RuntimeState, ClockError>)
    ensures
        result matches Ok(state) ==> exists|now: u64|
            state == runtime_state_spec(*timer, completed_work_sessions, pid, now),
{
    let now: u64 = now_epoch_secs()?;
    Ok(runtime_state_at(timer, completed_work_sessions, pid, now))
}

/// Width of the progress bar, in cells.
pub const BAR_CELLS: usize = 20;

/// A bar of twenty cells whose first `filled` cells are full.
pub open spec fn progress_bar(filled: int) -> Seq<char> {
    Seq::new(20, |i: int| if i < filled { '#' } else { '-' })
}

/// The word that says whether the timer runs.
pub open spec fn run_state_word(paused: bool) -> Seq<char> {
    if paused {
        "paused"@
    } else {
        "running"@
    }
}

/// The countdown line: phase, time left, bar and state, after a carriage return.
pub open spec fn countdown_line_spec(phase: Phase, remaining_secs: u64, paused: bool, filled: usize) -> Seq<char> {
    let cells = if filled < 20 { filled as int } else { 20 };
    "\r"@ + phase_label(phase) + " "@ + format_remaining_spec(remaining_secs) + " ["@
        + progress_bar(cells) + "] "@ + run_state_word(paused) + "  (p=pause r=resume q=quit)"@
}

/// The countdown line shown while a phase runs; `filled` is the number of
/// full cells of the progress bar, of which at most twenty are shown.
pub fn countdown_line(phase: Phase, remaining_secs: u64, paused: bool, filled: usize) -> (line: String)
    ensures
        line@ == countdown_line_spec(phase, remaining_secs, paused, filled),
{
    let cells: usize = if filled < BAR_CELLS {
        filled
    } else {
        BAR_CELLS
    };
    let mut out = String::from_str("\r");
    out.append(phase.label());
    out.append(" ");
    let time = format_remaining(remaining_secs);
    out.append(time.as_str());
    out.append(" [");
    let ghost head = out@;
    let mut i: usize = 0;
    while i < BAR_CELLS
        invariant
            i <= BAR_CELLS,
            cells <= BAR_CELLS,
            out@ == head + progress_bar(cells as int).take(i as int),
        decreases BAR_CELLS - i,
    {
        if i < cells {
            proof { reveal_strlit("#"); }
            out.append("#");
        } else {
            proof { reveal_strlit("-"); }
            out.append("-");
        }
        assert(progress_bar(cells as int).take(i + 1) =~= progress_bar(cells as int).take(i as int)
            + seq![progress_bar(cells as int)[i as int]]);
        i = i + 1;
    }
    assert(progress_bar(cells as int).take(20) =~= progress_bar(cells as int));
    out.append("] ");
    if paused {
        out.append("paused");
    } else {
        out.append("running");
    }
    out.append("  (p=pause r=resume q=quit)");
    out
}

/// What a key press asks of the timer.
#[derive(Debug, Clone, Copy, PartialEq, Eq, Structural)]
pub enum KeyCommand {
    Quit,
    Pause,
    Resume,
    Ignore,
}

/// The command a typed character stands for: `q`, `p` and `r`, in either case.
pub open spec fn key_command_spec(c: char) -> KeyCommand {
    if c == 'q' || c == 'Q' {
        KeyCommand::Quit
    } else if c == 'p' || c == 'P' {
        KeyCommand::Pause
    } else if c == 'r' || c == 'R' {
        KeyCommand::Resume
    } else {
        KeyCommand::Ignore
    }
}

/// The command a typed character stands for.
pub fn key_command(c: char) -> (command: KeyCommand)
    ensures
        command == key_command_spec(c),
        (command == KeyCommand::Quit) <==> (c == 'q' || c == 'Q'),
        (command == KeyCommand::Pause) <==> (c == 'p' || c == 'P'),
        (command == KeyCommand::Resume) <==> (c == 'r' || c == 'R'),
{
    if c == 'q' || c == 'Q' {
        KeyCommand::Quit
    } else if c == 'p' || c == 'P' {
        KeyCommand::Pause
    } else if c == 'r' || c == 'R' {
        KeyCommand::Resume
    } else {
        KeyCommand::Ignore
    }
}

/// The command a key press stands for: Ctrl+C asks to quit, as the
/// interrupt does; any other press stands for its character.
pub open spec fn key_press_command_spec(c: char, control: bool) -> KeyCommand {
    if control && (c == 'c' || c == 'C') {
        KeyCommand::Quit
    } else {
        key_command_spec(c)
    }
}

/// The command a key press stands for, given whether Control was held.
pub fn key_press_command(c: char, control: bool) -> (command: KeyCommand)
    ensures
        command == key_press_command_spec(c, control),
        control && (c == 'c' || c == 'C') ==> command == KeyCommand::Quit,
        (command == KeyCommand::Quit) <==> (c == 'q' || c == 'Q' || (control && (c == 'c' || c == 'C'))),
        (command == KeyCommand::Pause) <==> (c == 'p' || c == 'P'),
        (command == KeyCommand::Resume) <==> (c == 'r' || c == 'R'),
{
    if control && (c == 'c' || c == 'C') {
        KeyCommand::Quit
    } else {
        key_command(c)
    }
}

/// What the loop that drives a session does after one look at the clock.
#[derive(Debug, Clone, Copy, PartialEq, Eq, Structural)]
pub enum TickAction {
    /// A stop was requested: record the phase as interrupted and end.
    Stop,
    /// The phase goes on. Redraw the countdown (and save the state) when
    /// `redraw` is set; the phase is over when `phase_over` is set.
    Run { redraw: bool, remaining: u64, phase_over: bool },
}

/// What follows a finished phase.
#[derive(Debug, Clone, Copy, PartialEq, Eq, Structural)]
pub enum Advance {
    /// The requested number of work sessions is done.
    Finished { completed: u32 },
    /// The next phase has started.
    Started,
}

/// The number of work phases in a sequence of phases.
pub open spec fn work_count(phases: Seq<Phase>) -> nat
    decreases phases.len(),
{
    if phases.len() == 0 {
        0
    } else {
        work_count(phases.drop_last()) + if phases.last() == Phase::Work {
            1nat
        } else {
            0nat
        }
    }
}

/// Phase `j` of a run is the phase that `next_phase` gives after phase
/// `j - 1`, counting the work phases up to and including that one.
pub open spec fn scheduled_step(phases: Seq<Phase>, j: int, long_break_every: u32) -> bool {
    phases[j] == next_phase_spec(phases[j - 1], work_count(phases.take(j)) as u32, long_break_every)
}

/// A run's phases, in order, follow the schedule: the first is a work phase,
/// and each later one is the phase that `next_phase` gives after the one
/// before it.
pub open spec fn follows_schedule(phases: Seq<Phase>, long_break_every: u32) -> bool {
    &&& phases.len() > 0
    &&& phases[0] == Phase::Work
    &&& forall|j: int| 0 < j < phases.len() ==> #[trigger] scheduled_step(phases, j, long_break_every)
}

/// Adding a phase to a sequence adds one to its work count exactly when the
/// new phase is a work phase.
pub proof fn lemma_work_count_push(phases: Seq<Phase>, phase: Phase)
    ensures
        work_count(phases.push(phase)) == work_count(phases) + if phase == Phase::Work {
            1nat
        } else {
            0nat
        },
{
    assert(phases.push(phase).drop_last() =~= phases);
}

/// A run that follows the schedule still does after the phase that
/// `next_phase` gives is added to it.
pub proof fn lemma_schedule_extends(phases: Seq<Phase>, next: Phase, long_break_every: u32)
    requires
        follows_schedule(phases, long_break_every),
        next == next_phase_spec(phases.last(), work_count(phases) as u32, long_break_every),
    ensures
        follows_schedule(phases.push(next), long_break_every),
{
    let extended = phases.push(next);
    assert forall|j: int| 0 < j < extended.len() implies #[trigger] scheduled_step(extended, j, long_break_every) by {
        if j < phases.len() {
            assert(extended.take(j) =~= phases.take(j));
            assert(scheduled_step(phases, j, long_break_every));
        } else {
            assert(extended.take(j) =~= phases);
        }
    }
}

/// A run of Pomodoro phases, driven by the clock readings and key presses
/// that the caller hands in.
#[derive(Clone, Copy)]
pub struct PomodoroSession {
    pub config: AppConfig,
    /// Stop after this many work sessions.
    pub cycles: Option<u32>,
    pub timer: PhaseTimer,
    pub completed_work_sessions: u32,
    pub completed_work_for_target: u32,
    pub stop_requested: bool,
    pub last_draw_epoch: u64,
    /// The phases that have run to their end, in order; each is recorded in
    /// the history as not interrupted before the session moves on.
    pub finished: Ghost<Seq<Phase>>,
}

/// The work sessions counted once the current phase is over.
pub open spec fn completed_after(session: PomodoroSession) -> int {
    if session.timer.phase == Phase::Work {
        session.completed_work_sessions + 1
    } else {
        session.completed_work_sessions as int
    }
}

/// Whether finishing the current phase ends the session.
pub open spec fn target_reached(session: PomodoroSession) -> bool {
    &&& session.timer.phase == Phase::Work
    &&& session.cycles matches Some(target)
    &&& session.completed_work_for_target + 1 >= target
}

impl PomodoroSession {
    /// Every phase of the run so far, the finished ones and the current one.
    pub open spec fn phases(self) -> Seq<Phase> {
        self.finished@.push(self.timer.phase)
    }

    /// The session invariant: the phase lengths fit in seconds, the timer
    /// runs for its phase's configured length, the phases so far follow the
    /// schedule, both work counters count the finished work phases, and a
    /// positive target has not been reached yet.
    pub open spec fn wf(self) -> bool {
        &&& durations_fit(self.config)
        &&& self.timer.phase_duration_secs == phase_seconds(self.timer.phase, self.config)
        &&& follows_schedule(self.phases(), self.config.long_break_every)
        &&& self.completed_work_sessions == work_count(self.finished@)
        &&& self.completed_work_for_target == self.completed_work_sessions
        &&& (self.cycles matches Some(target) ==> (target > 0 ==> self.completed_work_for_target < target))
    }

    /// Finishing the current phase does not overflow the work counters.
    pub open spec fn can_advance(self) -> bool {
        self.timer.phase == Phase::Work ==> self.completed_work_sessions < u32::MAX
    }

    /// A session that starts with a work phase at `now`.
    pub fn new(config: AppConfig, cycles: Option<u32>, now_epoch_secs: u64) -> (session: Self)
        requires
            durations_fit(config),
        ensures
            session.wf(),
            session.config == config,
            session.cycles == cycles,
            session.timer == fresh_timer(Phase::Work, phase_seconds(Phase::Work, config) as u64, now_epoch_secs),
            session.completed_work_sessions == 0,
            session.completed_work_for_target == 0,
            !session.stop_requested,
            session.last_draw_epoch == 0,
            session.finished@ == Seq::<Phase>::empty(),
    {
        let duration: u64 = Phase::Work.duration_seconds(&config);
        let session = PomodoroSession {
            config,
            cycles,
            timer: PhaseTimer::started_at(Phase::Work, duration, now_epoch_secs),
            completed_work_sessions: 0,
            completed_work_for_target: 0,
            stop_requested: false,
            last_draw_epoch: 0,
            finished: Ghost(Seq::empty()),
        };
        assert(session.phases() =~= seq![Phase::Work]);
        session
    }

    /// Asks the session to stop at its next tick.
    pub fn request_stop(&mut self)
        ensures
            *final(self) == (PomodoroSession { stop_requested: true, ..*old(self) }),
    {
        self.stop_requested = true;
    }

    /// Applies a key command at `now`. Returns whether the timer changed, in
    /// which case the caller saves the state.
    pub fn handle_key(&mut self, command: KeyCommand, now_epoch_secs: u64) -> (changed: bool)
        requires
            old(self).wf(),
            command == KeyCommand::Resume ==> old(self).timer.measurable_at(now_epoch_secs),
        ensures
            final(self).wf(),
            changed == ((command == KeyCommand::Pause && old(self).timer.pause_started_epoch_secs is None)
                || (command == KeyCommand::Resume && old(self).timer.pause_started_epoch_secs is Some)),
            *final(self) == match command {
                KeyCommand::Quit => PomodoroSession { stop_requested: true, ..*old(self) },
                KeyCommand::Pause => PomodoroSession {
                    timer: paused_timer(old(self).timer, now_epoch_secs),
                    ..*old(self)
                },
                KeyCommand::Resume => PomodoroSession {
                    timer: resumed_timer(old(self).timer, now_epoch_secs),
                    ..*old(self)
                },
                KeyCommand::Ignore => *old(self),
            },
    {
        match command {
            KeyCommand::Quit => {
                self.stop_requested = true;
                false
            },
            KeyCommand::Pause => {
                if !self.timer.is_paused() {
                    self.timer.pause(now_epoch_secs);
                    true
                } else {
                    false
                }
            },
            KeyCommand::Resume => {
                if self.timer.is_paused() {
                    self.timer.resume(now_epoch_secs);
                    true
                } else {
                    false
                }
            },
            KeyCommand::Ignore => false,
        }
    }

    /// One look at the clock at `now`: stop if asked to, otherwise report
    /// the seconds left, whether to redraw (once per new second) and whether
    /// the phase is over.
    pub fn tick(&mut self, now_epoch_secs: u64) -> (action: TickAction)
        requires
            old(self).wf(),
            !old(self).stop_requested ==> old(self).timer.measurable_at(now_epoch_secs),
        ensures
            final(self).wf(),
            old(self).stop_requested ==> action == TickAction::Stop && *final(self) == *old(self),
            !old(self).stop_requested ==> {
                &&& action == TickAction::Run {
                    redraw: now_epoch_secs != old(self).last_draw_epoch,
                    remaining: old(self).timer.remaining_at(now_epoch_secs) as u64,
                    phase_over: old(self).timer.remaining_at(now_epoch_secs) == 0,
                }
                &&& *final(self) == PomodoroSession { last_draw_epoch: now_epoch_secs, ..*old(self) }
            },
    {
        if self.stop_requested {
            return TickAction::Stop;
        }
        let remaining: u64 = self.timer.remaining_secs(now_epoch_secs);
        let redraw = now_epoch_secs != self.last_draw_epoch;
        if redraw {
            self.last_draw_epoch = now_epoch_secs;
        }
        TickAction::Run { redraw, remaining, phase_over: remaining == 0 }
    }

    /// True when finishing the current phase does not overflow the work counters.
    pub fn advance_allowed(&self) -> (allowed: bool)
        ensures
            allowed == self.can_advance(),
    {
        match self.timer.phase {
            Phase::Work => self.completed_work_sessions < u32::MAX,
            _ => true,
        }
    }

    /// Ends the current phase. A finished work phase is counted; the session
    /// is finished once the requested number of work sessions is done, and
    /// otherwise the next phase starts at `now`, to be drawn at once.
    pub fn advance(&mut self, now_epoch_secs: u64) -> (outcome: Advance)
        requires
            old(self).wf(),
            old(self).can_advance(),
        ensures
            final(self).completed_work_sessions == completed_after(*old(self)),
            final(self).completed_work_for_target == completed_after(*old(self)),
            final(self).finished@ == old(self).phases(),
            outcome is Finished <==> target_reached(*old(self)),
            outcome matches Advance::Finished { completed } ==> {
                &&& completed == completed_after(*old(self))
                &&& old(self).cycles matches Some(target) && (target > 0 ==> completed == target)
                &&& final(self).config == old(self).config
                &&& final(self).cycles == old(self).cycles
                &&& final(self).timer == old(self).timer
                &&& final(self).stop_requested == old(self).stop_requested
                &&& final(self).last_draw_epoch == old(self).last_draw_epoch
            },
            outcome is Started ==> {
                let next = next_phase_spec(
                    old(self).timer.phase,
                    completed_after(*old(self)) as u32,
                    old(self).config.long_break_every,
                );
                &&& final(self).wf()
                &&& final(self).config == old(self).config
                &&& final(self).cycles == old(self).cycles
                &&& final(self).timer == fresh_timer(next, phase_seconds(next, old(self).config) as u64, now_epoch_secs)
                &&& final(self).stop_requested == old(self).stop_requested
                &&& final(self).last_draw_epoch == 0
            },
    {
        let phase = self.timer.phase;
        proof {
            lemma_work_count_push(self.finished@, phase);
        }
        self.finished = Ghost(self.finished@.push(phase));
        if phase == Phase::Work {
            self.completed_work_sessions = self.completed_work_sessions + 1;
            self.completed_work_for_target = self.completed_work_for_target + 1;
            if let Some(target) = self.cycles {
                if self.completed_work_for_target >= target {
                    return Advance::Finished { completed: self.completed_work_for_target };
                }
            }
        }
        let next = next_phase(phase, self.completed_work_sessions, self.config.long_break_every);
        let duration: u64 = next.duration_seconds(&self.config);
        proof {
            lemma_schedule_extends(self.finished@, next, self.config.long_break_every);
        }
        self.timer = PhaseTimer::started_at(next, duration, now_epoch_secs);
        self.last_draw_epoch = 0;
        Advance::Started
    }

    /// The persisted record of this session in process `pid`, updated at `now`.
    pub fn runtime_state_at(&self, pid: u32, updated_epoch_secs: u64) -> (state: RuntimeState)
        ensures
            state == runtime_state_spec(self.timer, self.completed_work_sessions, pid, updated_epoch_secs),
    {
        runtime_state_at(&self.timer, self.completed_work_sessions, pid, updated_epoch_secs)
    }
}

/// The seconds left never exceed the phase length.
pub proof fn lemma_remaining_at_most_duration(timer: PhaseTimer, now_epoch_secs: u64)
    ensures
        0 <= timer.remaining_at(now_epoch_secs) <= timer.phase_duration_secs,
{
}

/// A fresh timer has its whole length left when it starts, and loses one
/// second per second while it runs, down to zero.
pub proof fn lemma_fresh_timer_counts_down(phase: Phase, duration_secs: u64, started: u64, now_epoch_secs: u64)
    requires
        started <= now_epoch_secs,
    ensures
        fresh_timer(phase, duration_secs, started).remaining_at(started) == duration_secs,
        fresh_timer(phase, duration_secs, started).remaining_at(now_epoch_secs) == sat_sub(
            duration_secs as int,
            now_epoch_secs - started,
        ),
{
}

/// While a timer is paused, the seconds left do not change.
pub proof fn lemma_remaining_frozen_while_paused(timer: PhaseTimer, now1: u64, now2: u64)
    requires
        timer.pause_started_epoch_secs matches Some(paused_at) && paused_at <= now1 && paused_at <= now2,
    ensures
        timer.remaining_at(now1) == timer.remaining_at(now2),
{
}

/// While a timer runs, the seconds left never grow.
pub proof fn lemma_running_remaining_nonincreasing(timer: PhaseTimer, now1: u64, now2: u64)
    requires
        timer.pause_started_epoch_secs is None,
        now1 <= now2,
    ensures
        timer.remaining_at(now2) <= timer.remaining_at(now1),
{
}

/// Pausing a running timer and resuming it later leaves as many seconds as
/// were left when it was paused: the pause does not count.
pub proof fn lemma_pause_then_resume_keeps_remaining(timer: PhaseTimer, paused_at: u64, resumed_at: u64)
    requires
        timer.pause_started_epoch_secs is None,
        paused_at <= resumed_at,
        timer.paused_accumulated_secs + (resumed_at - paused_at) <= u64::MAX,
    ensures
        resumed_timer(paused_timer(timer, paused_at), resumed_at).remaining_at(resumed_at)
            == timer.remaining_at(paused_at),
        resumed_timer(paused_timer(timer, paused_at), resumed_at).pause_started_epoch_secs is None,
{
}

/// A pause request on a paused timer, and a resume request on a running
/// one, change nothing.
pub proof fn lemma_repeated_requests_change_nothing(timer: PhaseTimer, first: u64, second: u64)
    ensures
        paused_timer(paused_timer(timer, first), second) == paused_timer(timer, first),
        timer.pause_started_epoch_secs is None ==> resumed_timer(timer, second) == timer,
{
}

/// A running timer's phase is over once its length has passed, not counting
/// the time spent paused.
pub proof fn lemma_phase_ends_after_duration(timer: PhaseTimer, now_epoch_secs: u64)
    requires
        timer.pause_started_epoch_secs is None,
        now_epoch_secs >= timer.phase_started_epoch_secs + timer.paused_accumulated_secs
            + timer.phase_duration_secs,
    ensures
        timer.remaining_at(now_epoch_secs) == 0,
{
}

/// After a finished work phase a session that goes on starts a break, and
/// after a break it starts a work phase; the break is long exactly when the
/// count of completed work sessions is a positive multiple of the
/// long-break frequency.
pub proof fn lemma_session_alternates(session: PomodoroSession, next: Phase)
    requires
        next == next_phase_spec(
            session.timer.phase,
            completed_after(session) as u32,
            session.config.long_break_every,
        ),
        session.can_advance(),
    ensures
        (session.timer.phase == Phase::Work) <==> (next != Phase::Work),
        session.timer.phase == Phase::Work ==> ((next == Phase::LongBreak) <==> (
        session.config.long_break_every > 0 && (session.completed_work_sessions + 1)
            % (session.config.long_break_every as int) == 0)),
{
}


/// What `status` computes from the persisted record of a timer is what the
/// timer itself has left: saving the state loses nothing that the countdown
/// depends on.
pub proof fn lemma_persisted_state_keeps_remaining(
    timer: PhaseTimer,
    completed_work_sessions: u32,
    pid: u32,
    updated_epoch_secs: u64,
    now_epoch_secs: u64,
)
    ensures
        ({
            let state = runtime_state_spec(timer, completed_work_sessions, pid, updated_epoch_secs);
            &&& remaining_spec(
                state.phase_duration_secs,
                state.phase_started_epoch_secs,
                state.paused_accumulated_secs,
                state.pause_started_epoch_secs,
                now_epoch_secs,
            ) == timer.remaining_at(now_epoch_secs)
            &&& state.paused == (timer.pause_started_epoch_secs is Some)
            &&& state.phase == timer.phase
        }),
{
}


/// Over a whole run, the phases so far are those of the schedule: the run
/// starts with a work phase, each finished phase is followed by the phase
/// that `next_phase` gives after it with the work phases counted up to it,
/// every phase runs for its configured length, and the work counters count
/// the finished work phases.
pub proof fn lemma_session_follows_schedule(session: PomodoroSession)
    requires
        session.wf(),
    ensures
        session.phases()[0] == Phase::Work,
        forall|j: int|
            0 < j < session.phases().len() ==> #[trigger] session.phases()[j] == next_phase_spec(
                session.phases()[j - 1],
                work_count(session.phases().take(j)) as u32,
                session.config.long_break_every,
            ),
        session.timer.phase == session.phases().last(),
        session.timer.phase_duration_secs == phase_seconds(session.timer.phase, session.config),
        session.completed_work_sessions == work_count(session.finished@),
        session.completed_work_for_target == work_count(session.finished@),
{
    assert forall|j: int| 0 < j < session.phases().len() implies #[trigger] session.phases()[j] == next_phase_spec(
        session.phases()[j - 1],
        work_count(session.phases().take(j)) as u32,
        session.config.long_break_every,
    ) by {
        assert(scheduled_step(session.phases(), j, session.config.long_break_every));
    }
}

/// Every state that a session saves describes it: the process id given,
/// the current phase and its configured length, whether it is paused, and
/// the number of work phases it has finished.
pub proof fn lemma_saved_state_describes_session(session: PomodoroSession, pid: u32, updated_epoch_secs: u64)
    requires
        session.wf(),
    ensures
        ({
            let state = runtime_state_spec(session.timer, session.completed_work_sessions, pid, updated_epoch_secs);
            &&& state.pid == pid
            &&& state.phase == session.timer.phase
            &&& state.phase_duration_secs == phase_seconds(state.phase, session.config)
            &&& state.paused == (state.pause_started_epoch_secs is Some)
            &&& state.completed_work_sessions == work_count(session.finished@)
        }),
{
}


/// The `MM:SS` text reads back as the number it shows: the digits before
/// the colon are the whole minutes, and the two digits after it are the
/// seconds left over.
pub proof fn lemma_format_remaining_reads_back(remaining_secs: u64)
    ensures
        ({
            let text = format_remaining_spec(remaining_secs);
            let colon = text.len() - 3;
            &&& text.len() >= 5
            &&& text[colon] == ':'
            &&& forall|i: int| 0 <= i < colon ==> is_digit(#[trigger] text[i])
            &&& forall|i: int| colon < i < text.len() ==> is_digit(#[trigger] text[i])
            &&& decimal_value(text.take(colon)) == remaining_secs / 60
            &&& decimal_value(text.skip(colon + 1)) == remaining_secs % 60
        }),
{
    let mins = zero_padded2((remaining_secs / 60) as nat);
    let secs = zero_padded2((remaining_secs % 60) as nat);
    lemma_zero_padded2_reads_back((remaining_secs / 60) as nat);
    lemma_zero_padded2_reads_back((remaining_secs % 60) as nat);
    let text = format_remaining_spec(remaining_secs);
    let colon = text.len() - 3;
    assert(colon == mins.len());
    assert(text.take(colon) =~= mins);
    assert(text.skip(colon + 1) =~= secs);
    assert forall|i: int| 0 <= i < colon implies is_digit(#[trigger] text[i]) by {
        assert(text[i] == mins[i]);
    }
    assert forall|i: int| colon < i < text.len() implies is_digit(#[trigger] text[i]) by {
        assert(text[i] == secs[i - colon - 1]);
    }
}


/// The progress bar has twenty cells, and cell `i` is full exactly when
/// fewer than `filled` cells come before it.
pub proof fn lemma_progress_bar_cells(filled: int)
    ensures
        progress_bar(filled).len() == 20,
        forall|i: int| 0 <= i < 20 ==> (#[trigger] progress_bar(filled)[i] == '#') == (i < filled),
        forall|i: int| 0 <= i < 20 ==> (#[trigger] progress_bar(filled)[i] == '#' || progress_bar(filled)[i] == '-'),
{
}

} // verus!
