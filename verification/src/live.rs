//! The sign of life that the daemon leaves.
use crate::paths;
use crate::paths::{join_path, PathStyle};
use vstd::prelude::*;

verus! {

/// For how many seconds a sign of life counts.
pub const ALIVE_SECONDS: u64 = 45;

#[derive(Debug, Clone, Copy, PartialEq, Eq, Structural)]
pub struct ServeHeartbeat {
    pub pid: u32,
    pub beat_unix: u64,
}

pub fn heartbeat_path(data_dir: &str, style: PathStyle) -> (path: String)
    ensures
        path@ == paths::joined_path(data_dir@, "serve.pid"@, style),
{
    join_path(data_dir, "serve.pid", style)
}

pub fn lock_path(data_dir: &str, style: PathStyle) -> (path: String)
    ensures
        path@ == paths::joined_path(data_dir@, "serve.lock"@, style),
{
    join_path(data_dir, "serve.lock", style)
}

/// The seconds since the start of 1970 by a clock that may stand before it.
pub fn now_unix(since_1970: Option<u64>) -> (seconds: u64)
    ensures
        seconds == (match since_1970 {
            Some(seconds) => seconds,
            None => 0,
        }),
{
    match since_1970 {
        Some(seconds) => seconds,
        None => 0,
    }
}

/// The seconds since a sign of life; none where the clock was set back.
pub open spec fn seconds_since(beat_unix: u64, now_unix: u64) -> int {
    if now_unix > beat_unix {
        now_unix - beat_unix
    } else {
        0
    }
}

pub fn beat_age(beat_unix: u64, now_unix: u64) -> (seconds: u64)
    ensures
        seconds == seconds_since(beat_unix, now_unix),
{
    if now_unix > beat_unix {
        now_unix - beat_unix
    } else {
        0
    }
}

/// Whether the daemon has shown a sign of life lately.
pub fn is_alive(heartbeat: Option<ServeHeartbeat>, now_unix: u64) -> (alive: bool)
    ensures
        alive == (heartbeat matches Some(beat) && seconds_since(beat.beat_unix, now_unix)
            < ALIVE_SECONDS),
        alive <==> heartbeat is Some && (now_unix < heartbeat->0.beat_unix + 45),
{
    match heartbeat {
        Some(beat) => beat_age(beat.beat_unix, now_unix) < ALIVE_SECONDS,
        None => false,
    }
}

/// Whether the sign of life is this process's own, which it may then remove.
pub fn is_ours(heartbeat: Option<ServeHeartbeat>, pid: u32) -> (ours: bool)
    ensures
        ours == (heartbeat matches Some(beat) && beat.pid == pid),
{
    match heartbeat {
        Some(beat) => beat.pid == pid,
        None => false,
    }
}

/// The age of a sign of life is the time since it, and nothing where it lies in
/// the future.
pub proof fn age_is_the_time_since(beat_unix: u64, later: u64)
    ensures
        beat_unix <= later ==> seconds_since(beat_unix, later) == later - beat_unix,
        later <= beat_unix ==> seconds_since(beat_unix, later) == 0,
{
}

} // verus!
