//! The command line: what its arguments mean, and the lines it prints.
use crate::config::HostWatch;
use crate::live;
use crate::live::{beat_age, is_alive, ServeHeartbeat};
use crate::text;
use crate::text::{decimal_text, same, to_ascii_lowercase};
use crate::time::Timestamp;
use crate::types::{RunRecord, RunRecordView, RunStatus, RunnerKind};
use vstd::prelude::*;
use vstd::string::*;

verus! {

pub open spec fn runner_of(name: Seq<char>) -> Option<RunnerKind> {
    if name == "slurm"@ {
        Some(RunnerKind::Slurm)
    } else if name == "lsf"@ {
        Some(RunnerKind::Lsf)
    } else if name == "process"@ {
        Some(RunnerKind::Process)
    } else if name == "file"@ {
        Some(RunnerKind::File)
    } else if name == "powershell"@ {
        Some(RunnerKind::Powershell)
    } else {
        None
    }
}

pub fn parse_runner(name: &str) -> (result: Result<RunnerKind, String>)
    ensures
        match result {
            Ok(runner) => runner_of(name@) == Some(runner),
            Err(reason) => runner_of(name@) is None && reason@ == "unknown runner "@ + name@,
        },
{
    if same(name, "slurm") {
        Ok(RunnerKind::Slurm)
    } else if same(name, "lsf") {
        Ok(RunnerKind::Lsf)
    } else if same(name, "process") {
        Ok(RunnerKind::Process)
    } else if same(name, "file") {
        Ok(RunnerKind::File)
    } else if same(name, "powershell") {
        Ok(RunnerKind::Powershell)
    } else {
        let mut reason = "unknown runner ".to_owned();
        reason.append(name);
        Err(reason)
    }
}

pub const RETIRED_CALLBACKS: &'static str =
    "--on-success/--on-failure shell callbacks were retired; use durable continuation Delivery instead";

/// What the arguments say of a run that is taken over.
pub struct Adoption {
    pub run_id: String,
    pub host: String,
    pub job_id: Option<String>,
    pub runner: String,
    pub terminal: Option<String>,
    pub has_callbacks: bool,
    pub session_id: Option<String>,
    pub project: Option<String>,
    pub agent: Option<String>,
}

/// The run that is taken over, or why it cannot be.
pub fn adopted_run(arguments: Adoption, now: Timestamp) -> (result: Result<RunRecord, String>)
    ensures
        match runner_of(arguments.runner@) {
            None => result matches Err(reason) && reason@ == "unknown runner "@
                + arguments.runner@,
            Some(runner) => if arguments.has_callbacks {
                result matches Err(reason) && reason@ == RETIRED_CALLBACKS@
            } else {
                result matches Ok(run) && run@ == (RunRecordView {
                    run_id: arguments.run_id@,
                    name: None,
                    host: arguments.host@,
                    job_id: text::text_opt(arguments.job_id),
                    runner,
                    remote_terminal: text::text_opt(arguments.terminal),
                    status: RunStatus::Queued,
                    workspace: None,
                    attempt_no: None,
                    session_id: text::text_opt(arguments.session_id),
                    project_root: text::text_opt(arguments.project),
                    agent: text::text_opt(arguments.agent),
                    updated_at: now,
                    note: None,
                })
            },
        },
{
    let runner = match parse_runner(arguments.runner.as_str()) {
        Ok(runner) => runner,
        Err(reason) => return Err(reason),
    };
    if arguments.has_callbacks {
        return Err(RETIRED_CALLBACKS.to_owned());
    }
    let mut run = RunRecord::new(arguments.run_id, arguments.host, runner, now);
    run.job_id = arguments.job_id;
    run.remote_terminal = arguments.terminal;
    run.session_id = arguments.session_id;
    run.project_root = arguments.project;
    run.agent = arguments.agent;
    Ok(run)
}

/// A text filled up with spaces to a width.
pub open spec fn padded(value: Seq<char>, width: nat) -> Seq<char> {
    if value.len() >= width {
        value
    } else {
        value + Seq::new((width - value.len()) as nat, |i: int| ' ')
    }
}

pub fn pad_right(value: &str, width: usize) -> (text: String)
    ensures
        text@ == padded(value@, width as nat),
{
    let len = value.unicode_len();
    let mut text = value.to_owned();
    let mut i: usize = len;
    assert(text@ =~= value@ + Seq::new(0, |j: int| ' '));
    while i < width
        invariant
            len == value@.len(),
            len <= i,
            i <= width || i == len,
            text@ =~= value@ + Seq::new((i - len) as nat, |j: int| ' '),
        decreases width - i,
    {
        text.push(' ');
        i += 1;
    }
    assert(text@ =~= padded(value@, width as nat));
    text
}

pub open spec fn or_dash(value: Option<Seq<char>>) -> Seq<char> {
    match value {
        Some(value) => value,
        None => "-"@,
    }
}

/// A run in the list.
pub open spec fn listed(run: RunRecordView) -> Seq<char> {
    run.run_id + "  "@ + padded(text::ascii_lower(run.status.name()), 10) + "  host="@ + run.host
        + " job="@ + or_dash(run.job_id)
}

pub fn list_line(run: &RunRecord) -> (line: String)
    ensures
        line@ == listed(run@),
{
    let mut line = run.run_id.clone();
    line.append("  ");
    let status = to_ascii_lowercase(run.status.as_text().as_str());
    line.append(pad_right(status.as_str(), 10).as_str());
    line.append("  host=");
    line.append(run.host.as_str());
    line.append(" job=");
    match &run.job_id {
        Some(job) => line.append(job.as_str()),
        None => line.append("-"),
    }
    line
}

/// How the daemon stands, in one line.
pub open spec fn daemon_line(heartbeat: Option<ServeHeartbeat>, now_unix: u64) -> Seq<char> {
    match heartbeat {
        Some(beat) if live::seconds_since(beat.beat_unix, now_unix) < live::ALIVE_SECONDS => {
            "serve pid="@ + text::decimal(beat.pid as nat) + " beat="@ + text::decimal(
                live::seconds_since(beat.beat_unix, now_unix) as nat,
            ) + "s ago"@
        },
        _ => "serve not running"@,
    }
}

pub fn show_daemon(heartbeat: Option<ServeHeartbeat>, now_unix: u64) -> (line: String)
    ensures
        line@ == daemon_line(heartbeat, now_unix),
{
    if let Some(beat) = heartbeat {
        if is_alive(Some(beat), now_unix) {
            let mut line = "serve pid=".to_owned();
            line.append(decimal_text(beat.pid as u64).as_str());
            line.append(" beat=");
            line.append(decimal_text(beat_age(beat.beat_unix, now_unix)).as_str());
            line.append("s ago");
            return line;
        }
    }
    "serve not running".to_owned()
}

/// A watched host in one line.
pub fn show_host(host: &HostWatch) -> (line: String)
    ensures
        line@ == "  "@ + host@.alias + " enabled="@ + (if host@.enabled {
            "true"@
        } else {
            "false"@
        }) + " poll="@ + text::decimal(host@.poll_sec as nat) + "s"@,
{
    let mut line = "  ".to_owned();
    line.append(host.alias.as_str());
    line.append(" enabled=");
    if host.enabled {
        line.append("true");
    } else {
        line.append("false");
    }
    line.append(" poll=");
    line.append(decimal_text(host.poll_sec).as_str());
    line.append("s");
    line
}

/// A runner is known by its name, each by one, and by no other name.
#[verifier::rlimit(40)]
pub proof fn runners_have_names(name: Seq<char>)
    ensures
        runner_of(name) == Some(RunnerKind::Slurm) <==> name == "slurm"@,
        runner_of(name) == Some(RunnerKind::Lsf) <==> name == "lsf"@,
        runner_of(name) == Some(RunnerKind::Process) <==> name == "process"@,
        runner_of(name) == Some(RunnerKind::File) <==> name == "file"@,
        runner_of(name) == Some(RunnerKind::Powershell) <==> name == "powershell"@,
{
    reveal_strlit("slurm");
    reveal_strlit("lsf");
    reveal_strlit("process");
    reveal_strlit("file");
    reveal_strlit("powershell");
    assert("slurm"@.len() == 5 && "lsf"@.len() == 3 && "process"@.len() == 7 && "file"@.len() == 4
        && "powershell"@.len() == 10);
}

/// A line of the list names the run, then its status, its host and its job.
pub proof fn line_names_the_run(run: RunRecordView)
    ensures
        text::has_prefix(
            listed(run),
            run.run_id + "  "@ + text::ascii_lower(run.status.name()),
        ),
        exists|head: Seq<char>| listed(run) == #[trigger] (head + place_of(run)),
{
    let name = text::ascii_lower(run.status.name());
    let head = run.run_id + "  "@ + name;
    assert(padded(name, 10).take(name.len() as int) =~= name);
    assert(listed(run).take(head.len() as int) =~= head);
    let front = run.run_id + "  "@ + padded(name, 10);
    assert(listed(run) =~= front + place_of(run));
}

/// Where a run is: its host and its job, a dash where it has none.
pub open spec fn place_of(run: RunRecordView) -> Seq<char> {
    "  host="@ + run.host + " job="@ + (match run.job_id {
        Some(job) => job,
        None => "-"@,
    })
}

/// A text is filled up with blanks to the width and never cut.
pub proof fn padding_adds_blanks(value: Seq<char>, width: nat, i: int)
    ensures
        text::has_prefix(padded(value, width), value),
        padded(value, width).len() == if value.len() >= width {
            value.len()
        } else {
            width
        },
        value.len() <= i < padded(value, width).len() ==> padded(value, width)[i] == ' ',
{
    assert(padded(value, width).take(value.len() as int) =~= value);
}

/// The daemon is told to run, with its number and the age of its last sign of
/// life, where that sign is younger than forty-five seconds, and otherwise not.
pub proof fn daemon_line_tells_the_sign(beat: ServeHeartbeat, now_unix: u64)
    ensures
        beat.beat_unix <= now_unix < beat.beat_unix + 45 ==> daemon_line(Some(beat), now_unix)
            == "serve pid="@ + text::decimal(beat.pid as nat) + " beat="@ + text::decimal(
            (now_unix - beat.beat_unix) as nat,
        ) + "s ago"@,
        now_unix >= beat.beat_unix + 45 ==> daemon_line(Some(beat), now_unix)
            == "serve not running"@,
        daemon_line(None, now_unix) == "serve not running"@,
{
}

} // verus!
