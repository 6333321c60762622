//! The process that keeps the daemon running.
use crate::paths;
use crate::paths::{join_path, PathStyle};
use crate::text;
use crate::text::decimal_text;
use vstd::prelude::*;
use vstd::string::*;

verus! {

/// A daemon that ran for so many seconds was stable.
pub const STABLE_CHILD_SECS: u64 = 60;

/// How often a daemon of somebody else's is looked at, in milliseconds.
pub const EXISTING_OWNER_POLL_MS: u64 = 1000;

#[derive(Debug, Clone, Copy, PartialEq, Eq, Structural)]
pub struct SupervisorHeartbeat {
    pub pid: u32,
    pub started_unix: u64,
}

pub fn pid_path(data_dir: &str, style: PathStyle) -> (path: String)
    ensures
        path@ == paths::joined_path(data_dir@, "supervise.pid"@, style),
{
    join_path(data_dir, "supervise.pid", style)
}

pub fn lock_path(data_dir: &str, style: PathStyle) -> (path: String)
    ensures
        path@ == paths::joined_path(data_dir@, "supervise.lock"@, style),
{
    join_path(data_dir, "supervise.lock", style)
}

/// Whether the sign of life is this process's own.
pub fn is_ours(heartbeat: Option<SupervisorHeartbeat>, pid: u32) -> (ours: bool)
    ensures
        ours == (heartbeat matches Some(beat) && beat.pid == pid),
{
    match heartbeat {
        Some(beat) => beat.pid == pid,
        None => false,
    }
}

/// The seconds before the daemon is started again after so many failures in a
/// row.
pub open spec fn delay_after(failures: u32) -> u64 {
    if failures <= 1 {
        1
    } else if failures == 2 {
        2
    } else if failures == 3 {
        5
    } else if failures == 4 {
        10
    } else {
        30
    }
}

pub fn restart_delay(failures: u32) -> (seconds: u64)
    ensures
        seconds == delay_after(failures),
{
    match failures {
        0 | 1 => 1,
        2 => 2,
        3 => 5,
        4 => 10,
        _ => 30,
    }
}

/// What has happened to the daemon.
#[derive(Debug, Clone, Copy, PartialEq, Eq, Structural)]
pub enum SupervisorEvent {
    /// Somebody else's daemon runs. Its lock is the authority: a sign of life
    /// may outlast a daemon that was killed.
    OtherDaemon,
    /// No daemon runs.
    NoDaemon,
    /// The daemon exited after so many seconds.
    Exited(u64),
    /// The daemon could not be started.
    NotStarted,
}

/// What the supervisor does next.
#[derive(Debug, Clone, Copy, PartialEq, Eq, Structural)]
pub enum SupervisorAction {
    /// Waits for so many milliseconds, and then looks for a daemon.
    Wait(u64),
    /// Starts a daemon.
    Start,
}

/// The failures in a row after an event.
pub open spec fn failures_after(failures: u32, event: SupervisorEvent) -> u32 {
    let more = if failures < u32::MAX {
        (failures + 1) as u32
    } else {
        failures
    };
    match event {
        SupervisorEvent::OtherDaemon | SupervisorEvent::NoDaemon => failures,
        SupervisorEvent::Exited(seconds) => if seconds >= STABLE_CHILD_SECS {
            0
        } else {
            more
        },
        SupervisorEvent::NotStarted => more,
    }
}

pub open spec fn action_after(failures: u32, event: SupervisorEvent) -> SupervisorAction {
    match event {
        SupervisorEvent::OtherDaemon => SupervisorAction::Wait(EXISTING_OWNER_POLL_MS),
        SupervisorEvent::NoDaemon => SupervisorAction::Start,
        _ => SupervisorAction::Wait((delay_after(failures_after(failures, event)) * 1000) as u64),
    }
}

/// What the supervisor does after an event, and the failures in a row then.
pub fn supervise(failures: u32, event: SupervisorEvent) -> (next: (u32, SupervisorAction))
    ensures
        next.0 == failures_after(failures, event),
        next.1 == action_after(failures, event),
{
    let more: u32 = if failures < u32::MAX {
        failures + 1
    } else {
        failures
    };
    let after: u32 = match event {
        SupervisorEvent::OtherDaemon => return (
            failures,
            SupervisorAction::Wait(EXISTING_OWNER_POLL_MS),
        ),
        SupervisorEvent::NoDaemon => return (failures, SupervisorAction::Start),
        SupervisorEvent::Exited(seconds) => if seconds >= STABLE_CHILD_SECS {
            0
        } else {
            more
        },
        SupervisorEvent::NotStarted => more,
    };
    (after, SupervisorAction::Wait(restart_delay(after) * 1000))
}

/// Why a supervisor does not begin its work.
pub open spec fn supervise_refusal(interval_sec: u64, exe: Seq<char>, exe_is_file: bool) -> Option<
    Seq<char>,
> {
    if interval_sec < 1 || interval_sec > 3600 {
        Some("supervisor interval must be between 1 and 3600 seconds"@)
    } else if !exe_is_file {
        Some("runwatch executable is not a file: "@ + exe)
    } else {
        None
    }
}

pub fn check_supervise(interval_sec: u64, exe: &str, exe_is_file: bool) -> (result: Result<
    (),
    String,
>)
    ensures
        match result {
            Ok(_) => supervise_refusal(interval_sec, exe@, exe_is_file) is None,
            Err(reason) => supervise_refusal(interval_sec, exe@, exe_is_file) == Some(reason@),
        },
{
    if interval_sec < 1 || interval_sec > 3600 {
        return Err("supervisor interval must be between 1 and 3600 seconds".to_owned());
    }
    if !exe_is_file {
        let mut reason = "runwatch executable is not a file: ".to_owned();
        reason.append(exe);
        return Err(reason);
    }
    Ok(())
}

/// The arguments with which the daemon is started.
pub fn serve_args(interval_sec: u64) -> (args: Vec<String>)
    ensures
        args.deep_view() == seq!["serve"@, "--interval"@, text::decimal(interval_sec as nat)],
{
    let mut args: Vec<String> = Vec::new();
    args.push("serve".to_owned());
    args.push("--interval".to_owned());
    args.push(decimal_text(interval_sec));
    assert(args.deep_view() =~= seq![
        "serve"@,
        "--interval"@,
        text::decimal(interval_sec as nat),
    ]);
    args
}

// ---------------------------------------------------------------------------
// Laws
// ---------------------------------------------------------------------------

/// More failures never make the delay shorter, and it stays between one second
/// and half a minute.
pub proof fn delay_grows_and_is_bounded(fewer: u32, more: u32)
    requires
        fewer <= more,
    ensures
        1 <= delay_after(fewer) <= delay_after(more) <= 30,
{
}

/// While somebody else's daemon runs, none is started.
pub proof fn no_second_daemon(failures: u32, event: SupervisorEvent)
    ensures
        action_after(failures, event) == SupervisorAction::Start <==> event
            == SupervisorEvent::NoDaemon,
{
}

/// The daemon is started again after one second, and after two, five, ten and
/// thirty seconds where it failed again and again. A daemon that ran for a minute
/// starts the count anew; finding another daemon, or none, does not count.
pub proof fn failures_are_counted(failures: u32, seconds: u64)
    ensures
        delay_after(0) == 1 && delay_after(1) == 1 && delay_after(2) == 2 && delay_after(3) == 5
            && delay_after(4) == 10,
        failures >= 5 ==> delay_after(failures) == 30,
        seconds >= 60 ==> failures_after(failures, SupervisorEvent::Exited(seconds)) == 0,
        seconds < 60 && failures < u32::MAX ==> failures_after(
            failures,
            SupervisorEvent::Exited(seconds),
        ) == failures + 1,
        failures < u32::MAX ==> failures_after(failures, SupervisorEvent::NotStarted) == failures
            + 1,
        failures_after(failures, SupervisorEvent::OtherDaemon) == failures,
        failures_after(failures, SupervisorEvent::NoDaemon) == failures,
        action_after(failures, SupervisorEvent::OtherDaemon) == SupervisorAction::Wait(1000),
        action_after(failures, SupervisorEvent::NotStarted) == SupervisorAction::Wait(
            (delay_after(failures_after(failures, SupervisorEvent::NotStarted)) * 1000) as u64,
        ),
        action_after(failures, SupervisorEvent::Exited(seconds)) == SupervisorAction::Wait(
            (delay_after(failures_after(failures, SupervisorEvent::Exited(seconds))) * 1000) as u64,
        ),
{
}

/// A supervisor runs a program that is there, at an interval of one second to
/// one hour.
pub proof fn supervision_is_checked(interval_sec: u64, exe: Seq<char>, exe_is_file: bool)
    ensures
        supervise_refusal(interval_sec, exe, exe_is_file) is None <==> 1 <= interval_sec <= 3600
            && exe_is_file,
{
}

} // verus!
