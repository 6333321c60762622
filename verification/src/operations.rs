//! What can be asked of a run besides its status: its files, the ends of its
//! logs, and that it stop.
pub mod laws;

use crate::local_process;
use crate::local_process::{find_cancel_target, LocalProcessHandle};
use crate::paths::PathStyle;
use crate::seqs;
use crate::seqs::copy_rows;
use crate::store::runs;
use crate::store::{RunStore, StoreView};
use crate::submission;
use crate::submission::{report_exit, show_runner, ExecOutput};
use crate::text;
use crate::text::{decimal_text, join, lines, shell_quote};
use crate::time::Timestamp;
use crate::types::{
    RunAttemptRecord, RunAttemptRecordView, RunRecord, RunRecordView, RunStatus, RunnerKind,
};
use vstd::prelude::*;
use vstd::string::*;

verus! {

pub const DEFAULT_LOG_TAIL_LINES: usize = 80;

pub const MAX_LOG_TAIL_LINES: usize = 500;

/// How much of a log is looked at, in bytes.
pub const MAX_LOG_BYTES_PER_STREAM: usize = 65536;

/// The ends of the logs of an attempt.
#[derive(Debug)]
pub struct RunLogs {
    pub run_id: String,
    pub status: RunStatus,
    pub attempt_no: u32,
    pub stdout: String,
    pub stderr: String,
    pub tail_lines: usize,
    pub byte_limit_per_stream: usize,
}

/// What a `RunLogs` says.
pub struct RunLogsView {
    pub run_id: Seq<char>,
    pub status: RunStatus,
    pub attempt_no: u32,
    pub stdout: Seq<char>,
    pub stderr: Seq<char>,
    pub tail_lines: usize,
    pub byte_limit_per_stream: usize,
}

impl View for RunLogs {
    type V = RunLogsView;

    open spec fn view(&self) -> RunLogsView {
        RunLogsView {
            run_id: self.run_id@,
            status: self.status,
            attempt_no: self.attempt_no,
            stdout: self.stdout@,
            stderr: self.stderr@,
            tail_lines: self.tail_lines,
            byte_limit_per_stream: self.byte_limit_per_stream,
        }
    }
}

impl DeepView for RunLogs {
    type V = RunLogsView;

    open spec fn deep_view(&self) -> RunLogsView {
        self.view()
    }
}

impl Clone for RunLogs {
    fn clone(&self) -> (copy: Self)
        ensures
            copy@ == self@,
    {
        RunLogs {
            run_id: self.run_id.clone(),
            status: self.status,
            attempt_no: self.attempt_no,
            stdout: self.stdout.clone(),
            stderr: self.stderr.clone(),
            tail_lines: self.tail_lines,
            byte_limit_per_stream: self.byte_limit_per_stream,
        }
    }
}

/// A file that belongs to an attempt.
#[derive(Debug, PartialEq, Eq)]
pub struct RunArtifact {
    pub kind: &'static str,
    pub path: String,
}

/// What a `RunArtifact` says.
pub struct RunArtifactView {
    pub kind: Seq<char>,
    pub path: Seq<char>,
}

impl View for RunArtifact {
    type V = RunArtifactView;

    open spec fn view(&self) -> RunArtifactView {
        RunArtifactView {
            kind: self.kind@,
            path: self.path@,
        }
    }
}

impl DeepView for RunArtifact {
    type V = RunArtifactView;

    open spec fn deep_view(&self) -> RunArtifactView {
        self.view()
    }
}

impl Clone for RunArtifact {
    fn clone(&self) -> (copy: Self)
        ensures
            copy@ == self@,
    {
        RunArtifact {
            kind: self.kind,
            path: self.path.clone(),
        }
    }
}

/// The files of an attempt.
#[derive(Debug, PartialEq, Eq)]
pub struct RunArtifacts {
    pub run_id: String,
    pub status: RunStatus,
    pub attempt_no: u32,
    pub artifacts: Vec<RunArtifact>,
}

/// What a `RunArtifacts` says.
pub struct RunArtifactsView {
    pub run_id: Seq<char>,
    pub status: RunStatus,
    pub attempt_no: u32,
    pub artifacts: Seq<RunArtifactView>,
}

impl View for RunArtifacts {
    type V = RunArtifactsView;

    open spec fn view(&self) -> RunArtifactsView {
        RunArtifactsView {
            run_id: self.run_id@,
            status: self.status,
            attempt_no: self.attempt_no,
            artifacts: self.artifacts.deep_view(),
        }
    }
}

impl DeepView for RunArtifacts {
    type V = RunArtifactsView;

    open spec fn deep_view(&self) -> RunArtifactsView {
        self.view()
    }
}

impl Clone for RunArtifacts {
    fn clone(&self) -> (copy: Self)
        ensures
            copy@ == self@,
    {
        RunArtifacts {
            run_id: self.run_id.clone(),
            status: self.status,
            attempt_no: self.attempt_no,
            artifacts: copy_rows(&self.artifacts),
        }
    }
}

// ---------------------------------------------------------------------------
// Files
// ---------------------------------------------------------------------------

pub open spec fn files_of(attempt: RunAttemptRecordView) -> Seq<RunArtifactView> {
    seq![
        RunArtifactView { kind: "script"@, path: attempt.script_path },
        RunArtifactView { kind: "stdout"@, path: attempt.stdout_path },
        RunArtifactView { kind: "stderr"@, path: attempt.stderr_path },
        RunArtifactView { kind: "terminal"@, path: attempt.terminal_path },
        RunArtifactView { kind: "receipt"@, path: attempt.receipt_path },
    ]
}

pub fn attempt_artifacts(attempt: &RunAttemptRecord) -> (artifacts: Vec<RunArtifact>)
    ensures
        artifacts.deep_view() == files_of(attempt@),
{
    let mut artifacts: Vec<RunArtifact> = Vec::new();
    artifacts.push(RunArtifact { kind: "script", path: attempt.script_path.clone() });
    artifacts.push(RunArtifact { kind: "stdout", path: attempt.stdout_path.clone() });
    artifacts.push(RunArtifact { kind: "stderr", path: attempt.stderr_path.clone() });
    artifacts.push(RunArtifact { kind: "terminal", path: attempt.terminal_path.clone() });
    artifacts.push(RunArtifact { kind: "receipt", path: attempt.receipt_path.clone() });
    assert(artifacts.deep_view() =~= files_of(attempt@));
    artifacts
}

/// The attempt that is asked about, or the latest one of the run.
pub open spec fn asked_attempt(
    s: StoreView,
    run_id: Seq<char>,
    requested_attempt_no: Option<u32>,
) -> Result<RunAttemptRecordView, Seq<char>> {
    match s.run(run_id) {
        None => Err("unknown run "@ + run_id),
        Some(run) => match (requested_attempt_no, run.attempt_no) {
            (None, None) => Err("Run has no durable attempt metadata yet"@),
            (Some(number), _) => found_attempt(s, run_id, number),
            (None, Some(number)) => found_attempt(s, run_id, number),
        },
    }
}

pub open spec fn found_attempt(s: StoreView, run_id: Seq<char>, attempt_no: u32) -> Result<
    RunAttemptRecordView,
    Seq<char>,
> {
    match s.attempt(run_id, attempt_no) {
        None => Err("Run attempt "@ + text::decimal(attempt_no as nat) + " metadata is missing"@),
        Some(attempt) => Ok(attempt),
    }
}

fn find_asked_attempt(
    store: &RunStore,
    run_id: &str,
    requested_attempt_no: Option<u32>,
) -> (result: Result<(RunRecord, u32, RunAttemptRecord), String>)
    ensures
        match result {
            Ok((run, attempt_no, attempt)) => {
                &&& asked_attempt(store@, run_id@, requested_attempt_no) == Ok::<
                    RunAttemptRecordView,
                    Seq<char>,
                >(attempt@)
                &&& store@.run(run_id@) == Some(run@)
                &&& run@.run_id == run_id@
                &&& attempt_no == attempt@.attempt_no
            },
            Err(reason) => asked_attempt(store@, run_id@, requested_attempt_no) == Err::<
                RunAttemptRecordView,
                Seq<char>,
            >(reason@),
        },
{
    let run = match store.get(run_id) {
        Some(run) => run,
        None => {
            let mut reason = "unknown run ".to_owned();
            reason.append(run_id);
            return Err(reason);
        },
    };
    let attempt_no = match requested_attempt_no {
        Some(number) => number,
        None => match run.attempt_no {
            Some(number) => number,
            None => return Err("Run has no durable attempt metadata yet".to_owned()),
        },
    };
    match store.get_attempt(run_id, attempt_no) {
        Some(attempt) => {
            proof {
                seqs::lemma_present(store@.runs, crate::store::by_run(run_id@));
                seqs::lemma_present(store@.attempts, crate::store::by_attempt(run_id@, attempt_no));
            }
            Ok((run, attempt_no, attempt))
        },
        None => {
            let mut reason = "Run attempt ".to_owned();
            reason.append(decimal_text(attempt_no as u64).as_str());
            reason.append(" metadata is missing");
            Err(reason)
        },
    }
}

pub fn artifacts_run(
    store: &RunStore,
    run_id: &str,
    requested_attempt_no: Option<u32>,
) -> (result: Result<RunArtifacts, String>)
    ensures
        match (asked_attempt(store@, run_id@, requested_attempt_no), result) {
            (Ok(attempt), Ok(files)) => files@ == (RunArtifactsView {
                run_id: run_id@,
                status: attempt.status,
                attempt_no: attempt.attempt_no,
                artifacts: files_of(attempt),
            }),
            (Err(why), Err(reason)) => reason@ == why,
            _ => false,
        },
{
    match find_asked_attempt(store, run_id, requested_attempt_no) {
        Ok((run, attempt_no, attempt)) => Ok(
            RunArtifacts {
                run_id: run.run_id,
                status: attempt.status,
                attempt_no,
                artifacts: attempt_artifacts(&attempt),
            },
        ),
        Err(reason) => Err(reason),
    }
}

// ---------------------------------------------------------------------------
// Logs
// ---------------------------------------------------------------------------

/// How many lines are shown where `tail` are asked for.
pub open spec fn shown_lines(tail: Option<usize>) -> usize {
    let asked = match tail {
        Some(count) => count,
        None => DEFAULT_LOG_TAIL_LINES,
    };
    if asked < 1 {
        1
    } else if asked > MAX_LOG_TAIL_LINES {
        MAX_LOG_TAIL_LINES
    } else {
        asked
    }
}

pub fn bounded_tail_lines(tail: Option<usize>) -> (count: usize)
    ensures
        count == shown_lines(tail),
        1 <= count <= MAX_LOG_TAIL_LINES,
{
    let asked: usize = match tail {
        Some(count) => count,
        None => DEFAULT_LOG_TAIL_LINES,
    };
    if asked < 1 {
        1
    } else if asked > MAX_LOG_TAIL_LINES {
        MAX_LOG_TAIL_LINES
    } else {
        asked
    }
}

/// The command that prints the end of a log, where there is one.
pub open spec fn tail_of(path: Seq<char>, tail_lines: nat) -> Seq<char> {
    "if [ -f "@
        + text::shell_word(path)
        + " ]; then tail -n "@
        + text::decimal(tail_lines)
        + " -- "@
        + text::shell_word(path)
        + " 2>/dev/null | tail -c "@
        + text::decimal(MAX_LOG_BYTES_PER_STREAM as nat)
        + "; fi"@
}

pub fn tail_command(path: &str, tail_lines: usize) -> (command: String)
    ensures
        command@ == tail_of(path@, tail_lines as nat),
        command@ == "if [ -f "@ + text::shell_word(path@) + " ]; then tail -n "@ + text::decimal(
            tail_lines as nat,
        ) + " -- "@ + text::shell_word(path@) + " 2>/dev/null | tail -c "@ + text::decimal(65536)
            + "; fi"@,
{
    let path = shell_quote(path);
    let mut command = "if [ -f ".to_owned();
    command.append(path.as_str());
    command.append(" ]; then tail -n ");
    command.append(decimal_text(tail_lines as u64).as_str());
    command.append(" -- ");
    command.append(path.as_str());
    command.append(" 2>/dev/null | tail -c ");
    command.append(decimal_text(MAX_LOG_BYTES_PER_STREAM as u64).as_str());
    command.append("; fi");
    command
}

/// The end of a log as the host printed it.
pub fn read_remote_tail(output: &ExecOutput) -> (result: Result<String, String>)
    ensures
        match result {
            Ok(tail) => output@.code == Some(0u32) && tail@ == output@.stdout,
            Err(reason) => output@.code != Some(0u32) && reason@ == submission::exit_report(
                "remote log tail failed"@,
                output@,
            ),
        },
{
    if output.code == Some(0u32) {
        Ok(output.stdout.clone())
    } else {
        Err(report_exit("remote log tail failed", output))
    }
}

/// The byte at which reading a log of `len` bytes starts.
pub fn tail_start(len: u64) -> (start: u64)
    ensures
        start == if len > MAX_LOG_BYTES_PER_STREAM {
            len - MAX_LOG_BYTES_PER_STREAM
        } else {
            0
        },
{
    if len > MAX_LOG_BYTES_PER_STREAM as u64 {
        len - MAX_LOG_BYTES_PER_STREAM as u64
    } else {
        0
    }
}

/// Holds of the byte that ends a line.
pub open spec fn is_line_end() -> spec_fn(u8) -> bool {
    |byte: u8| byte == 10u8
}

/// The bytes behind the first line end, or all of them where there is none.
pub open spec fn after_first_line(bytes: Seq<u8>) -> Seq<u8> {
    let end = seqs::until(bytes, is_line_end());
    if end < bytes.len() {
        bytes.skip((end + 1) as int)
    } else {
        bytes
    }
}

/// The last lines of a text, each with its line end.
pub open spec fn last_lines(body: Seq<char>, tail_lines: nat) -> Seq<char> {
    let shown = text::joined(seqs::last_items(text::lines_of(body), tail_lines), "\n"@);
    if shown.len() == 0 {
        shown
    } else {
        shown + "\n"@
    }
}

/// The text of bytes that were meant to be UTF-8, as `String::from_utf8_lossy`
/// reads them.
pub uninterp spec fn lossy_text(bytes: Seq<u8>) -> Seq<char>;

/// `String::from_utf8_lossy`: the text is a function of the bytes.
#[verifier::external_body]
fn read_lossy(bytes: &[u8]) -> (body: String)
    ensures
        body@ == lossy_text(bytes@),
{
    String::from_utf8_lossy(bytes).into_owned()
}

pub fn tail_lines_of(body: &str, tail_lines: usize) -> (tail: String)
    ensures
        tail@ == last_lines(body@, tail_lines as nat),
{
    let all = lines(body);
    let from: usize = if all.len() > tail_lines {
        all.len() - tail_lines
    } else {
        0
    };
    let mut kept: Vec<String> = Vec::new();
    let mut i: usize = from;
    assert(text::texts(all@).len() == all@.len());
    assert(text::texts(kept@) =~= text::texts(all@).subrange(from as int, from as int));
    while i < all.len()
        invariant
            from <= i <= all@.len(),
            text::texts(all@).len() == all@.len(),
            text::texts(kept@) == text::texts(all@).subrange(from as int, i as int),
        decreases all@.len() - i,
    {
        let line = all[i].clone();
        proof {
            text::lemma_texts_push(kept@, line);
            assert(text::texts(all@)[i as int] == line@);
            assert(text::texts(all@).subrange(from as int, i + 1) =~= text::texts(all@).subrange(
                from as int,
                i as int,
            ).push(line@));
        }
        kept.push(line);
        i += 1;
    }
    assert(text::texts(kept@) =~= seqs::last_items(text::lines_of(body@), tail_lines as nat));
    let mut tail = join(&kept, "\n");
    if !tail.as_str().is_empty() {
        tail.append("\n");
    }
    tail
}

/// The bytes of a log from which its end is taken: without the first line, which
/// is not whole, where the log was not read from its start.
pub open spec fn whole_lines(bytes: Seq<u8>, start: u64) -> Seq<u8> {
    if start > 0 {
        after_first_line(bytes)
    } else {
        bytes
    }
}

/// The end of a log that lies on this machine, by what was read of it from the
/// byte `start` on.
pub fn read_local_tail(bytes: &Vec<u8>, start: u64, tail_lines: usize) -> (tail: String)
    ensures
        tail@ == last_lines(lossy_text(whole_lines(bytes@, start)), tail_lines as nat),
{
    let mut from: usize = 0;
    if start > 0 {
        let mut end: usize = 0;
        while end < bytes.len() && bytes[end] != 10u8
            invariant
                end <= bytes@.len(),
                forall|j: int| 0 <= j < end ==> !is_line_end()(#[trigger] bytes@[j]),
            decreases bytes@.len() - end,
        {
            end += 1;
        }
        proof {
            seqs::lemma_until(bytes@, is_line_end(), end as nat);
        }
        if end < bytes.len() {
            from = end + 1;
        }
    }
    let whole = vstd::slice::slice_subrange(bytes.as_slice(), from, bytes.len());
    assert(whole@ =~= whole_lines(bytes@, start));
    let body = read_lossy(whole);
    tail_lines_of(body.as_str(), tail_lines)
}

/// Where the logs of an attempt are read.
pub enum LogSource {
    /// In files on this machine.
    Local { stdout_path: String, stderr_path: String },
    /// By commands on a host.
    Remote { host: String, stdout_command: String, stderr_command: String },
}

/// How the logs of an attempt are read.
pub struct LogRequest {
    pub run_id: String,
    pub status: RunStatus,
    pub attempt_no: u32,
    pub tail_lines: usize,
    pub source: LogSource,
}

/// Whether the logs are read where the attempt has them.
pub open spec fn reads_logs(
    source: LogSource,
    attempt: RunAttemptRecordView,
    tail_lines: nat,
) -> bool {
    match source {
        LogSource::Local { stdout_path, stderr_path } => {
            &&& attempt.runner == RunnerKind::Process
            &&& stdout_path@ == attempt.stdout_path
            &&& stderr_path@ == attempt.stderr_path
        },
        LogSource::Remote { host, stdout_command, stderr_command } => {
            &&& attempt.runner != RunnerKind::Process
            &&& host@ == attempt.host
            &&& stdout_command@ == tail_of(attempt.stdout_path, tail_lines)
            &&& stderr_command@ == tail_of(attempt.stderr_path, tail_lines)
        },
    }
}

/// How the logs of a run are to be read.
pub fn logs_run(
    store: &RunStore,
    run_id: &str,
    requested_attempt_no: Option<u32>,
    tail: Option<usize>,
) -> (result: Result<LogRequest, String>)
    ensures
        match (asked_attempt(store@, run_id@, requested_attempt_no), result) {
            (Ok(attempt), Ok(request)) => {
                &&& request.run_id@ == run_id@
                &&& request.status == attempt.status
                &&& request.attempt_no == attempt.attempt_no
                &&& request.tail_lines == shown_lines(tail)
                &&& reads_logs(request.source, attempt, request.tail_lines as nat)
                &&& request.source matches LogSource::Remote {
                    host,
                    stdout_command,
                    stderr_command,
                } ==> stdout_command@ == "if [ -f "@ + text::shell_word(attempt.stdout_path)
                    + " ]; then tail -n "@ + text::decimal(request.tail_lines as nat) + " -- "@
                    + text::shell_word(attempt.stdout_path) + " 2>/dev/null | tail -c "@
                    + text::decimal(65536) + "; fi"@ && stderr_command@ == "if [ -f "@
                    + text::shell_word(attempt.stderr_path) + " ]; then tail -n "@ + text::decimal(
                    request.tail_lines as nat,
                ) + " -- "@ + text::shell_word(attempt.stderr_path) + " 2>/dev/null | tail -c "@
                    + text::decimal(65536) + "; fi"@
            },
            (Err(why), Err(reason)) => reason@ == why,
            _ => false,
        },
{
    let (run, attempt_no, attempt) = match find_asked_attempt(store, run_id, requested_attempt_no) {
        Ok(found) => found,
        Err(reason) => return Err(reason),
    };
    let tail_lines = bounded_tail_lines(tail);
    let source = if attempt.runner == RunnerKind::Process {
        LogSource::Local { stdout_path: attempt.stdout_path, stderr_path: attempt.stderr_path }
    } else {
        LogSource::Remote {
            host: attempt.host,
            stdout_command: tail_command(attempt.stdout_path.as_str(), tail_lines),
            stderr_command: tail_command(attempt.stderr_path.as_str(), tail_lines),
        }
    };
    Ok(LogRequest { run_id: run.run_id, status: attempt.status, attempt_no, tail_lines, source })
}

impl LogRequest {
    /// The logs, once both of their ends are read.
    pub fn answer(self, stdout: String, stderr: String) -> (logs: RunLogs)
        ensures
            logs@ == (RunLogsView {
                run_id: self.run_id@,
                status: self.status,
                attempt_no: self.attempt_no,
                stdout: stdout@,
                stderr: stderr@,
                tail_lines: self.tail_lines,
                byte_limit_per_stream: MAX_LOG_BYTES_PER_STREAM,
            }),
    {
        RunLogs {
            run_id: self.run_id,
            status: self.status,
            attempt_no: self.attempt_no,
            stdout,
            stderr,
            tail_lines: self.tail_lines,
            byte_limit_per_stream: MAX_LOG_BYTES_PER_STREAM,
        }
    }
}

// ---------------------------------------------------------------------------
// Stopping
// ---------------------------------------------------------------------------

/// The command that takes a job from its scheduler.
pub open spec fn cancel_of(runner: RunnerKind, job_id: Seq<char>) -> Result<Seq<char>, Seq<char>> {
    match runner {
        RunnerKind::Slurm => Ok("scancel "@ + text::shell_word(job_id)),
        RunnerKind::Lsf => Ok("bkill "@ + text::shell_word(job_id)),
        other => Err("cancel is not implemented for runner "@ + submission::runner_name(other)),
    }
}

pub fn cancel_command(runner: RunnerKind, job_id: &str) -> (result: Result<String, String>)
    ensures
        submission::text_result(result) == cancel_of(runner, job_id@),
{
    let mut command = match runner {
        RunnerKind::Slurm => "scancel ".to_owned(),
        RunnerKind::Lsf => "bkill ".to_owned(),
        other => {
            let mut reason = "cancel is not implemented for runner ".to_owned();
            reason.append(show_runner(other).as_str());
            return Err(reason);
        },
    };
    command.append(shell_quote(job_id).as_str());
    Ok(command)
}

/// How a run is stopped.
pub enum CancelStep {
    /// It has ended: there is nothing to stop.
    Settled(RunRecord),
    /// Its process on this machine is to be looked at and stopped.
    Local(RunRecord, LocalProcessHandle),
    /// Its scheduler is to be told.
    Remote { run: RunRecord, job_id: String, command: String },
}

/// How a run is stopped, by what the ledger holds.
pub open spec fn cancel_answers(
    s: StoreView,
    run_id: Seq<char>,
    style: PathStyle,
    result: Result<CancelStep, String>,
) -> bool {
    match s.run(run_id) {
        None => result matches Err(reason) && reason@ == "unknown run "@ + run_id,
        Some(run) => if run.status.terminal() {
            result matches Ok(CancelStep::Settled(found)) && found@ == run
        } else if run.runner == RunnerKind::Process {
            match (local_process::cancel_target(run, style), result) {
                (Ok(handle), Ok(CancelStep::Local(found, target))) => found@ == run && target
                    == handle,
                (Err(why), Err(reason)) => reason@ == why,
                _ => false,
            }
        } else {
            match run.job_id {
                None => result matches Err(reason) && reason@
                    == "Run has no scheduler job id to cancel"@,
                Some(job) => match (cancel_of(run.runner, job), result) {
                    (Ok(order), Ok(CancelStep::Remote { run: found, job_id, command })) => {
                        &&& found@ == run
                        &&& job_id@ == job
                        &&& command@ == order
                    },
                    (Err(why), Err(reason)) => reason@ == why,
                    _ => false,
                },
            }
        },
    }
}

pub fn cancel_run(store: &RunStore, run_id: &str, style: PathStyle) -> (result: Result<
    CancelStep,
    String,
>)
    ensures
        cancel_answers(store@, run_id@, style, result),
{
    let run = match store.get(run_id) {
        Some(run) => run,
        None => {
            let mut reason = "unknown run ".to_owned();
            reason.append(run_id);
            return Err(reason);
        },
    };
    if run.status.is_terminal() {
        return Ok(CancelStep::Settled(run));
    }
    if run.runner == RunnerKind::Process {
        return match find_cancel_target(&run, style) {
            Ok(handle) => Ok(CancelStep::Local(run, handle)),
            Err(reason) => Err(reason),
        };
    }
    let job_id = match &run.job_id {
        Some(job) => job.clone(),
        None => return Err("Run has no scheduler job id to cancel".to_owned()),
    };
    match cancel_command(run.runner, job_id.as_str()) {
        Ok(command) => Ok(CancelStep::Remote { run, job_id, command }),
        Err(reason) => Err(reason),
    }
}

/// The run with a note that its scheduler was told.
pub open spec fn cancelled_run(run: RunRecordView, job_id: Seq<char>, now: Timestamp) -> RunRecordView {
    RunRecordView {
        updated_at: now,
        note: Some("cancel requested for scheduler job "@ + job_id),
        ..run
    }
}

/// The ledger in which it is noted.
pub open spec fn cancel_recorded(s: StoreView, run: RunRecordView) -> StoreView {
    match run.attempt_no {
        Some(number) => match s.attempt(run.run_id, number) {
            Some(attempt) => runs::recorded(s, run, attempt, "cancel_requested"@),
            None => s.with_run(run),
        },
        None => s.with_run(run),
    }
}

/// Takes the answer to a `CancelStep::Remote`.
pub fn finish_cancel(
    store: &mut RunStore,
    run: &RunRecord,
    job_id: &str,
    output: &ExecOutput,
    now: Timestamp,
) -> (result: Result<RunRecord, String>)
    ensures
        match result {
            Ok(noted) => {
                &&& output@.code == Some(0u32)
                &&& noted@ == cancelled_run(run@, job_id@, now)
                &&& final(store)@ == cancel_recorded(old(store)@, noted@)
            },
            Err(reason) => {
                &&& output@.code != Some(0u32)
                &&& reason@ == submission::exit_report("scheduler cancel failed"@, output@)
                &&& final(store)@ == old(store)@
            },
        },
        old(store)@.sound() ==> final(store)@.sound(),
{
    if output.code != Some(0u32) {
        return Err(report_exit("scheduler cancel failed", output));
    }
    let mut note = "cancel requested for scheduler job ".to_owned();
    note.append(job_id);
    let mut run = run.clone();
    run.updated_at = now;
    run.note = Some(note);
    if let Some(number) = run.attempt_no {
        if let Some(attempt) = store.get_attempt(run.run_id.as_str(), number) {
            store.persist_run_attempt_event(&run, &attempt, "cancel_requested");
            return Ok(run);
        }
    }
    store.upsert(&run);
    Ok(run)
}

// ---------------------------------------------------------------------------
// Laws
// ---------------------------------------------------------------------------

/// Asking an ended run to stop changes nothing, however often it is asked.
pub proof fn ended_run_is_not_cancelled(
    s: StoreView,
    run_id: Seq<char>,
    style: PathStyle,
    result: Result<CancelStep, String>,
)
    requires
        cancel_answers(s, run_id, style, result),
        s.run(run_id) matches Some(run) && run.status.terminal(),
    ensures
        result matches Ok(CancelStep::Settled(found)) && s.run(run_id) == Some(found@),
{
}

/// The end of a log never has more lines than were asked for, and they are the
/// last ones it has.
pub proof fn tail_is_bounded(body: Seq<char>, tail_lines: nat)
    ensures
        seqs::last_items(text::lines_of(body), tail_lines).len() <= tail_lines,
        forall|i: int|
            0 <= i < seqs::last_items(text::lines_of(body), tail_lines).len()
                ==> #[trigger] seqs::last_items(text::lines_of(body), tail_lines)[i]
                == text::lines_of(body)[text::lines_of(body).len() - seqs::last_items(
                text::lines_of(body),
                tail_lines,
            ).len() + i],
{
}

} // verus!
