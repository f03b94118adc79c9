use vstd::prelude::*;

use std::time::{Duration, SystemTime, SystemTimeError, UNIX_EPOCH};

use crate::domain::Phase;

verus! {

#[verifier::external_type_specification]
#[verifier::external_body]
pub struct ExSystemTime(SystemTime);

#[verifier::external_type_specification]
#[verifier::external_body]
pub struct ExSystemTimeError(SystemTimeError);

/// What a running timer records about itself so that `status` and `stop`
/// can find it.
#[derive(Debug, Clone, Copy, PartialEq, Eq, Structural)]
pub struct RuntimeState {
    pub pid: u32,
    pub phase: Phase,
    pub phase_started_epoch_secs: u64,
    pub phase_duration_secs: u64,
    pub paused: bool,
    pub pause_started_epoch_secs: Option<u64>,
    pub paused_accumulated_secs: u64,
    pub completed_work_sessions: u32,
    pub updated_epoch_secs: u64,
}

/// One finished or interrupted phase, as appended to the history.
#[derive(Debug, Clone, Copy, PartialEq, Eq, Structural)]
pub struct HistoryEntry {
    pub phase: Phase,
    pub started_epoch_secs: u64,
    pub ended_epoch_secs: u64,
    pub interrupted: bool,
}

/// Why the wall clock could not be read as seconds since the Unix epoch.
#[derive(Debug, Clone, Copy, PartialEq, Eq, Structural)]
pub enum ClockError {
    /// The system clock reads a time before 1970-01-01T00:00:00Z.
    BeforeUnixEpoch,
}

impl ClockError {
    /// A user-facing description of the error, in the words of
    /// `std::time::SystemTimeError`.
    pub fn message(&self) -> (text: String)
        ensures
            text@ == "second time provided was later than self"@,
    {
        String::from_str("second time provided was later than self")
    }
}

/// Reads the wall clock through `std::time::SystemTime::now`. The reading
/// depends on the machine and the moment, so nothing is stated of it.
#[verifier::external_body]
fn system_time_now() -> SystemTime {
    SystemTime::now()
}

/// Calls `std::time::SystemTime::duration_since` with `UNIX_EPOCH`, which
/// fails when `time` lies before the epoch. `SystemTime` is opaque here, so
/// nothing is stated of which outcome comes back.
#[verifier::external_body]
fn since_unix_epoch(time: &SystemTime) -> Result<Duration, SystemTimeError> {
    time.duration_since(UNIX_EPOCH)
}

/// Calls `std::time::Duration::as_secs`: the number of whole seconds in the
/// duration. `Duration` is opaque here, so nothing is stated of the number.
#[verifier::external_body]
fn whole_seconds(duration: &Duration) -> u64 {
    duration.as_secs()
}

/// The wall clock in whole seconds since the Unix epoch.
fn unix_now_secs() -> (result: Result<u64, ClockError>)
    ensures
        result matches Err(e) ==> e == ClockError::BeforeUnixEpoch,
{
    let now = system_time_now();
    match since_unix_epoch(&now) {
        Ok(elapsed) => Ok(whole_seconds(&elapsed)),
        Err(_) => Err(ClockError::BeforeUnixEpoch),
    }
}

/// The current time in whole seconds since the Unix epoch.
pub fn now_epoch_secs() -> (result: Result<u64, ClockError>)
    ensures
        result matches Err(e) ==> e == ClockError::BeforeUnixEpoch,
{
    unix_now_secs()
}


/// The outcome of probing a process with signal 0.
#[derive(Debug, Clone, Copy, PartialEq, Eq, Structural)]
pub enum SignalProbe {
    /// The signal could be sent.
    Delivered,
    /// No process has that id (`ESRCH`).
    NoSuchProcess,
    /// The process exists but belongs to someone else (`EPERM`).
    PermissionDenied,
    /// Any other failure, with its `errno`.
    Failed(i32),
}

/// Whether a probed process exists: it does when the signal could be sent
/// or was refused for lack of permission, and does not when no process has
/// that id; any other failure is passed on as its `errno`.
pub fn process_exists_from_probe(probe: SignalProbe) -> (result: Result<bool, i32>)
    ensures
        result == match probe {
            SignalProbe::Delivered => Ok(true),
            SignalProbe::NoSuchProcess => Ok(false),
            SignalProbe::PermissionDenied => Ok(true),
            SignalProbe::Failed(errno) => Err::<bool, i32>(errno),
        },
{
    match probe {
        SignalProbe::Delivered => Ok(true),
        SignalProbe::NoSuchProcess => Ok(false),
        SignalProbe::PermissionDenied => Ok(true),
        SignalProbe::Failed(errno) => Err(errno),
    }
}

} // verus!
