//! The runs as the console shows them.
use crate::seqs;
use crate::seqs::{copy_rows, count, select, stable_sort};
use crate::store::reading;
use crate::store::reading::note_name;
use crate::text;
use crate::text::{
    blank, chars_of, contains_text, decimal_text, join, same, take_chars, text_before, text_range,
    to_ascii_lowercase, trim,
};
use crate::time::{Timestamp, SECOND};
use crate::types::{
    clone_text, ObservationHealth, ObservationRecord, ObservationRecordView, ObservationSource,
    RunAttemptRecord, RunAttemptRecordView, RunContinuationStatus, RunContinuationStatusView,
    RunRecord, RunRecordView, RunResources, RunResourcesView, RunStatus, RunnerKind,
};
use vstd::prelude::*;
use vstd::string::*;

verus! {

/// After how many seconds an observation of a live run is stale.
pub const STALE_AFTER_SECS: u64 = 120;

/// The seconds of a day.
pub const DAY_SECS: u64 = 86_400;

/// The most seconds that two moments are taken to be apart.
pub const MAX_AGE: u64 = 9_223_372_036_854_775_807;

#[derive(Debug, Clone, Copy, PartialEq, Eq, Structural)]
pub enum RunFilter {
    Active,
    Attention,
    All,
}

#[derive(Debug, Clone, Copy, PartialEq, Eq, Structural)]
pub enum RunSort {
    Priority,
    Newest,
    Name,
    Host,
}

/// A host as the console shows it.
#[derive(Debug, PartialEq, Eq)]
pub struct HostCardView {
    pub alias: String,
    pub endpoint: String,
    pub route: String,
    pub live_runs: usize,
}

/// What a `HostCardView` says.
pub struct HostCardViewView {
    pub alias: Seq<char>,
    pub endpoint: Seq<char>,
    pub route: Seq<char>,
    pub live_runs: usize,
}

impl View for HostCardView {
    type V = HostCardViewView;

    open spec fn view(&self) -> HostCardViewView {
        HostCardViewView {
            alias: self.alias@,
            endpoint: self.endpoint@,
            route: self.route@,
            live_runs: self.live_runs,
        }
    }
}

impl DeepView for HostCardView {
    type V = HostCardViewView;

    open spec fn deep_view(&self) -> HostCardViewView {
        self.view()
    }
}

impl Clone for HostCardView {
    fn clone(&self) -> (copy: Self)
        ensures
            copy@ == self@,
    {
        HostCardView {
            alias: self.alias.clone(),
            endpoint: self.endpoint.clone(),
            route: self.route.clone(),
            live_runs: self.live_runs,
        }
    }
}

/// A run as the console lists it.
#[derive(Debug)]
pub struct RunRow {
    pub run_id: String,
    pub name: String,
    pub status: RunStatus,
    pub runner: RunnerKind,
    pub host: String,
    pub handle: String,
    pub observation: String,
    pub continuation: String,
    pub updated: String,
    pub workspace: String,
    pub active: bool,
    pub attention: bool,
    pub attention_reason: Option<String>,
    pub updated_at: Timestamp,
}

/// What a `RunRow` says.
pub struct RunRowView {
    pub run_id: Seq<char>,
    pub name: Seq<char>,
    pub status: RunStatus,
    pub runner: RunnerKind,
    pub host: Seq<char>,
    pub handle: Seq<char>,
    pub observation: Seq<char>,
    pub continuation: Seq<char>,
    pub updated: Seq<char>,
    pub workspace: Seq<char>,
    pub active: bool,
    pub attention: bool,
    pub attention_reason: Option<Seq<char>>,
    pub updated_at: Timestamp,
}

impl View for RunRow {
    type V = RunRowView;

    open spec fn view(&self) -> RunRowView {
        RunRowView {
            run_id: self.run_id@,
            name: self.name@,
            status: self.status,
            runner: self.runner,
            host: self.host@,
            handle: self.handle@,
            observation: self.observation@,
            continuation: self.continuation@,
            updated: self.updated@,
            workspace: self.workspace@,
            active: self.active,
            attention: self.attention,
            attention_reason: text::text_opt(self.attention_reason),
            updated_at: self.updated_at,
        }
    }
}

impl DeepView for RunRow {
    type V = RunRowView;

    open spec fn deep_view(&self) -> RunRowView {
        self.view()
    }
}

impl Clone for RunRow {
    fn clone(&self) -> (copy: Self)
        ensures
            copy@ == self@,
    {
        RunRow {
            run_id: self.run_id.clone(),
            name: self.name.clone(),
            status: self.status,
            runner: self.runner,
            host: self.host.clone(),
            handle: self.handle.clone(),
            observation: self.observation.clone(),
            continuation: self.continuation.clone(),
            updated: self.updated.clone(),
            workspace: self.workspace.clone(),
            active: self.active,
            attention: self.attention,
            attention_reason: clone_text(&self.attention_reason),
            updated_at: self.updated_at,
        }
    }
}

/// All runs, and how the daemon stands.
#[derive(Debug)]
pub struct DashboardSnapshot {
    pub daemon_version: String,
    pub daemon_protocol: u64,
    pub daemon_capabilities: usize,
    pub daemon_pid: u64,
    pub paused: bool,
    pub manual_submit_supported: bool,
    pub retry_supported: bool,
    pub rows: Vec<RunRow>,
    pub active: usize,
    pub attention: usize,
    pub recent_terminal: usize,
    pub total: usize,
}

/// What a `DashboardSnapshot` says.
pub struct DashboardSnapshotView {
    pub daemon_version: Seq<char>,
    pub daemon_protocol: u64,
    pub daemon_capabilities: usize,
    pub daemon_pid: u64,
    pub paused: bool,
    pub manual_submit_supported: bool,
    pub retry_supported: bool,
    pub rows: Seq<RunRowView>,
    pub active: usize,
    pub attention: usize,
    pub recent_terminal: usize,
    pub total: usize,
}

impl View for DashboardSnapshot {
    type V = DashboardSnapshotView;

    open spec fn view(&self) -> DashboardSnapshotView {
        DashboardSnapshotView {
            daemon_version: self.daemon_version@,
            daemon_protocol: self.daemon_protocol,
            daemon_capabilities: self.daemon_capabilities,
            daemon_pid: self.daemon_pid,
            paused: self.paused,
            manual_submit_supported: self.manual_submit_supported,
            retry_supported: self.retry_supported,
            rows: self.rows.deep_view(),
            active: self.active,
            attention: self.attention,
            recent_terminal: self.recent_terminal,
            total: self.total,
        }
    }
}

impl DeepView for DashboardSnapshot {
    type V = DashboardSnapshotView;

    open spec fn deep_view(&self) -> DashboardSnapshotView {
        self.view()
    }
}

impl Clone for DashboardSnapshot {
    fn clone(&self) -> (copy: Self)
        ensures
            copy@ == self@,
    {
        DashboardSnapshot {
            daemon_version: self.daemon_version.clone(),
            daemon_protocol: self.daemon_protocol,
            daemon_capabilities: self.daemon_capabilities,
            daemon_pid: self.daemon_pid,
            paused: self.paused,
            manual_submit_supported: self.manual_submit_supported,
            retry_supported: self.retry_supported,
            rows: copy_rows(&self.rows),
            active: self.active,
            attention: self.attention,
            recent_terminal: self.recent_terminal,
            total: self.total,
        }
    }
}

/// What a run is that is to be tried again.
#[derive(Debug)]
pub struct RetryContextView {
    pub run_id: String,
    pub expected_attempt_no: u32,
    pub runner: RunnerKind,
    pub host: String,
    pub workdir: String,
    pub command: String,
    pub resources: RunResources,
}

/// What a `RetryContextView` says.
pub struct RetryContextViewView {
    pub run_id: Seq<char>,
    pub expected_attempt_no: u32,
    pub runner: RunnerKind,
    pub host: Seq<char>,
    pub workdir: Seq<char>,
    pub command: Seq<char>,
    pub resources: RunResourcesView,
}

impl View for RetryContextView {
    type V = RetryContextViewView;

    open spec fn view(&self) -> RetryContextViewView {
        RetryContextViewView {
            run_id: self.run_id@,
            expected_attempt_no: self.expected_attempt_no,
            runner: self.runner,
            host: self.host@,
            workdir: self.workdir@,
            command: self.command@,
            resources: self.resources@,
        }
    }
}

impl DeepView for RetryContextView {
    type V = RetryContextViewView;

    open spec fn deep_view(&self) -> RetryContextViewView {
        self.view()
    }
}

impl Clone for RetryContextView {
    fn clone(&self) -> (copy: Self)
        ensures
            copy@ == self@,
    {
        RetryContextView {
            run_id: self.run_id.clone(),
            expected_attempt_no: self.expected_attempt_no,
            runner: self.runner,
            host: self.host.clone(),
            workdir: self.workdir.clone(),
            command: self.command.clone(),
            resources: self.resources.clone(),
        }
    }
}

/// Everything about one run.
#[derive(Debug)]
pub struct RunDetailView {
    pub run_id: String,
    pub title: String,
    pub selected_attempt_no: Option<u32>,
    pub attempt_numbers: Vec<u32>,
    pub attempt_label: String,
    pub overview: String,
    pub logs: String,
    pub artifacts: String,
    pub timeline: String,
    pub continuation: String,
    pub retry_context: Option<RetryContextView>,
    pub can_cancel: bool,
}

/// What a `RunDetailView` says.
pub struct RunDetailViewView {
    pub run_id: Seq<char>,
    pub title: Seq<char>,
    pub selected_attempt_no: Option<u32>,
    pub attempt_numbers: Seq<u32>,
    pub attempt_label: Seq<char>,
    pub overview: Seq<char>,
    pub logs: Seq<char>,
    pub artifacts: Seq<char>,
    pub timeline: Seq<char>,
    pub continuation: Seq<char>,
    pub retry_context: Option<RetryContextViewView>,
    pub can_cancel: bool,
}

impl View for RunDetailView {
    type V = RunDetailViewView;

    open spec fn view(&self) -> RunDetailViewView {
        RunDetailViewView {
            run_id: self.run_id@,
            title: self.title@,
            selected_attempt_no: self.selected_attempt_no,
            attempt_numbers: self.attempt_numbers@,
            attempt_label: self.attempt_label@,
            overview: self.overview@,
            logs: self.logs@,
            artifacts: self.artifacts@,
            timeline: self.timeline@,
            continuation: self.continuation@,
            retry_context: self.retry_context.deep_view(),
            can_cancel: self.can_cancel,
        }
    }
}

impl DeepView for RunDetailView {
    type V = RunDetailViewView;

    open spec fn deep_view(&self) -> RunDetailViewView {
        self.view()
    }
}

/// An event of a run. The payload is its JSON text.
#[derive(Debug)]
pub struct DetailEvent {
    pub at: Timestamp,
    pub kind: String,
    pub payload: String,
}

/// What a `DetailEvent` says.
pub struct DetailEventView {
    pub at: Timestamp,
    pub kind: Seq<char>,
    pub payload: Seq<char>,
}

impl View for DetailEvent {
    type V = DetailEventView;

    open spec fn view(&self) -> DetailEventView {
        DetailEventView {
            at: self.at,
            kind: self.kind@,
            payload: self.payload@,
        }
    }
}

impl DeepView for DetailEvent {
    type V = DetailEventView;

    open spec fn deep_view(&self) -> DetailEventView {
        self.view()
    }
}

impl Clone for DetailEvent {
    fn clone(&self) -> (copy: Self)
        ensures
            copy@ == self@,
    {
        DetailEvent {
            at: self.at,
            kind: self.kind.clone(),
            payload: self.payload.clone(),
        }
    }
}

// ---------------------------------------------------------------------------
// Words
// ---------------------------------------------------------------------------

pub open spec fn status_word(status: RunStatus) -> Seq<char> {
    match status {
        RunStatus::Submitting => "submitting"@,
        RunStatus::Queued => "queued"@,
        RunStatus::Running => "running"@,
        RunStatus::Succeeded => "succeeded"@,
        RunStatus::Failed => "failed"@,
        RunStatus::Cancelled => "cancelled"@,
        RunStatus::Unknown => "unknown"@,
    }
}

pub fn status_label(status: RunStatus) -> (label: &'static str)
    ensures
        label@ == status_word(status),
{
    match status {
        RunStatus::Submitting => "submitting",
        RunStatus::Queued => "queued",
        RunStatus::Running => "running",
        RunStatus::Succeeded => "succeeded",
        RunStatus::Failed => "failed",
        RunStatus::Cancelled => "cancelled",
        RunStatus::Unknown => "unknown",
    }
}

pub open spec fn runner_word(runner: RunnerKind) -> Seq<char> {
    match runner {
        RunnerKind::Slurm => "Slurm"@,
        RunnerKind::Lsf => "LSF"@,
        RunnerKind::Process => "Process"@,
        RunnerKind::File => "File"@,
        RunnerKind::Powershell => "PowerShell"@,
    }
}

pub fn runner_label(runner: RunnerKind) -> (label: &'static str)
    ensures
        label@ == runner_word(runner),
{
    match runner {
        RunnerKind::Slurm => "Slurm",
        RunnerKind::Lsf => "LSF",
        RunnerKind::Process => "Process",
        RunnerKind::File => "File",
        RunnerKind::Powershell => "PowerShell",
    }
}

pub open spec fn health_word(health: ObservationHealth) -> Seq<char> {
    match health {
        ObservationHealth::Fresh => "fresh"@,
        ObservationHealth::ProbeError => "probe error"@,
        ObservationHealth::Unreachable => "unreachable"@,
    }
}

pub fn health_label(health: ObservationHealth) -> (label: &'static str)
    ensures
        label@ == health_word(health),
{
    match health {
        ObservationHealth::Fresh => "fresh",
        ObservationHealth::ProbeError => "probe error",
        ObservationHealth::Unreachable => "unreachable",
    }
}

pub open spec fn source_word(source: ObservationSource) -> Seq<char> {
    match source {
        ObservationSource::LocalProcess => "local process"@,
        ObservationSource::Sentinel => "sentinel"@,
        ObservationSource::Scheduler => "scheduler"@,
        ObservationSource::Compatibility => "compatibility"@,
        ObservationSource::Transport => "transport"@,
    }
}

pub fn source_label(observation: &ObservationRecord) -> (label: &'static str)
    ensures
        label@ == source_word(observation@.source),
{
    match observation.source {
        ObservationSource::LocalProcess => "local process",
        ObservationSource::Sentinel => "sentinel",
        ObservationSource::Scheduler => "scheduler",
        ObservationSource::Compatibility => "compatibility",
        ObservationSource::Transport => "transport",
    }
}

/// The whole seconds from a moment until now; none where it lies ahead.
pub open spec fn age_of(at: Timestamp, now: Timestamp) -> nat {
    if now.nanos <= at.nanos {
        0
    } else if (now.nanos - at.nanos) / SECOND as int > MAX_AGE {
        MAX_AGE as nat
    } else {
        ((now.nanos - at.nanos) / SECOND as int) as nat
    }
}

pub fn age_seconds(at: Timestamp, now: Timestamp) -> (seconds: u64)
    ensures
        seconds == age_of(at, now),
{
    if now.nanos <= at.nanos {
        return 0;
    }
    // Halves cannot differ by more than fits.
    if now.nanos / 2 - at.nanos / 2 > 5_000_000_000_000_000_000 * SECOND {
        return MAX_AGE;
    }
    let seconds: i128 = (now.nanos - at.nanos) / SECOND;
    if seconds > MAX_AGE as i128 {
        MAX_AGE
    } else {
        seconds as u64
    }
}

/// An age in its largest unit.
pub open spec fn age_text(seconds: nat) -> Seq<char> {
    if seconds < 60 {
        text::decimal(seconds) + "s"@
    } else if seconds < 3600 {
        text::decimal(seconds / 60) + "m"@
    } else if seconds < DAY_SECS {
        text::decimal(seconds / 3600) + "h"@
    } else {
        text::decimal(seconds / DAY_SECS as nat) + "d"@
    }
}

pub fn format_age(seconds: u64) -> (age: String)
    ensures
        age@ == age_text(seconds as nat),
{
    if seconds < 60 {
        let mut age = decimal_text(seconds);
        age.append("s");
        age
    } else if seconds < 3600 {
        let mut age = decimal_text(seconds / 60);
        age.append("m");
        age
    } else if seconds < DAY_SECS {
        let mut age = decimal_text(seconds / 3600);
        age.append("h");
        age
    } else {
        let mut age = decimal_text(seconds / DAY_SECS);
        age.append("d");
        age
    }
}

/// A long name without its middle.
pub open spec fn shortened(value: Seq<char>) -> Seq<char> {
    if value.len() <= 18 {
        value
    } else {
        value.take(8) + "..."@ + value.skip(value.len() - 6)
    }
}

pub fn short_id(value: &str) -> (short: String)
    ensures
        short@ == shortened(value@),
{
    let chars = chars_of(value);
    let len = chars.len();
    if len <= 18 {
        return value.to_owned();
    }
    let mut short = text_range(&chars, 0, 8);
    assert(short@ =~= value@.take(8));
    short.append("...");
    let tail = text_range(&chars, len - 6, len);
    assert(tail@ =~= value@.skip(len - 6));
    short.append(tail.as_str());
    short
}

/// A text that is told to be cut off where it is.
pub open spec fn bounded(value: Seq<char>, max_chars: nat, mark: Seq<char>) -> Seq<char> {
    if value.len() <= max_chars {
        value
    } else {
        value.take(max_chars as int) + mark
    }
}

fn cut_text(value: &str, max_chars: usize, mark: &str) -> (text: String)
    ensures
        text@ == bounded(value@, max_chars as nat, mark@),
{
    let len = value.unicode_len();
    if len <= max_chars {
        return value.to_owned();
    }
    let mut text = take_chars(value, max_chars);
    text.append(mark);
    text
}

pub fn bounded_text(value: &str, max_chars: usize) -> (text: String)
    ensures
        text@ == bounded(value@, max_chars as nat, "... [truncated]"@),
{
    cut_text(value, max_chars, "... [truncated]")
}

/// The payload of an event, cut off where it is long.
pub fn compact_json(payload: &str) -> (text: String)
    ensures
        text@ == bounded(payload@, 600, "..."@),
{
    cut_text(payload, 600, "...")
}

pub open spec fn or_dash(value: Option<Seq<char>>) -> Seq<char> {
    match value {
        Some(value) => value,
        None => "-"@,
    }
}

fn show_or_dash(value: &Option<String>) -> (shown: String)
    ensures
        shown@ == or_dash(text::text_opt(*value)),
{
    match value {
        Some(value) => value.clone(),
        None => "-".to_owned(),
    }
}

// ---------------------------------------------------------------------------
// A run in the list
// ---------------------------------------------------------------------------

/// The name of a run, or its identity where it has none.
pub open spec fn shown_name(run: RunRecordView) -> Seq<char> {
    match run.name {
        Some(name) if !text::is_blank(name) => name,
        _ => shortened(run.run_id),
    }
}

fn show_name(run: &RunRecord) -> (name: String)
    ensures
        name@ == shown_name(run@),
{
    if let Some(name) = &run.name {
        if !blank(name.as_str()) {
            return name.clone();
        }
    }
    short_id(run.run_id.as_str())
}

/// Whether a live run has not been seen for too long.
pub open spec fn is_stale(
    run: RunRecordView,
    observation: Option<ObservationRecordView>,
    now: Timestamp,
) -> bool {
    &&& !run.status.terminal()
    &&& observation matches Some(seen) && age_of(seen.observed_at, now) > STALE_AFTER_SECS
}

/// Why somebody should look at a run.
pub open spec fn attention_of(
    run: RunRecordView,
    observation: Option<ObservationRecordView>,
    continuation: Option<RunContinuationStatusView>,
    now: Timestamp,
) -> Option<Seq<char>> {
    if run.status == RunStatus::Failed {
        Some("Run failed"@)
    } else if continuation matches Some(status) && status.needs_rebind > 0 {
        Some("Continuation needs explicit rebind"@)
    } else if continuation matches Some(status) && status.retrying > 0 {
        Some("Continuation delivery is retrying"@)
    } else if observation matches Some(seen) && seen.health != ObservationHealth::Fresh {
        Some("Observation is "@ + health_word(observation->0.health))
    } else if is_stale(run, observation, now) {
        Some("Observation is stale"@)
    } else if !run.status.terminal() && (run.note matches Some(note) && text::has_part(
        text::ascii_lower(note),
        "cancel requested"@,
    )) {
        Some("Cancel requested; awaiting terminal observation"@)
    } else {
        None
    }
}

pub open spec fn observation_word(
    observation: Option<ObservationRecordView>,
    stale: bool,
    now: Timestamp,
) -> Seq<char> {
    match observation {
        None => "no observation"@,
        Some(seen) => {
            let age = age_text(age_of(seen.observed_at, now));
            if stale {
                "stale "@ + age + " / "@ + health_word(seen.health)
            } else {
                health_word(seen.health) + " / "@ + source_word(seen.source) + " / "@ + age
            }
        },
    }
}

pub fn observation_label(
    observation: Option<&ObservationRecord>,
    now: Timestamp,
    stale: bool,
) -> (label: String)
    ensures
        label@ == observation_word(viewed_observation(observation), stale, now),
{
    let seen = match observation {
        Some(seen) => seen,
        None => return "no observation".to_owned(),
    };
    let age = format_age(age_seconds(seen.observed_at, now));
    if stale {
        let mut label = "stale ".to_owned();
        label.append(age.as_str());
        label.append(" / ");
        label.append(health_label(seen.health));
        label
    } else {
        let mut label = health_label(seen.health).to_owned();
        label.append(" / ");
        label.append(source_label(seen));
        label.append(" / ");
        label.append(age.as_str());
        label
    }
}

pub open spec fn counted(word: Seq<char>, count: u32) -> Seq<char> {
    word + " ("@ + text::decimal(count as nat) + ")"@
}

fn show_counted(word: &str, count: u32) -> (label: String)
    ensures
        label@ == counted(word@, count),
{
    let mut label = word.to_owned();
    label.append(" (");
    label.append(decimal_text(count as u64).as_str());
    label.append(")");
    label
}

/// How far the notices of a run have come, by the one that needs most care.
pub open spec fn continuation_word(status: Option<RunContinuationStatusView>) -> Seq<char> {
    match status {
        None => "-"@,
        Some(status) => if status.needs_rebind > 0 {
            counted("needs rebind"@, status.needs_rebind)
        } else if status.retrying > 0 {
            counted("retrying"@, status.retrying)
        } else if status.delivering > 0 {
            counted("delivering"@, status.delivering)
        } else if status.pending > 0 {
            counted("pending"@, status.pending)
        } else if status.configured {
            "bound"@
        } else {
            "-"@
        },
    }
}

pub fn continuation_label(status: Option<&RunContinuationStatus>) -> (label: String)
    ensures
        label@ == continuation_word(viewed_continuation(status)),
{
    let status = match status {
        Some(status) => status,
        None => return "-".to_owned(),
    };
    if status.needs_rebind > 0 {
        show_counted("needs rebind", status.needs_rebind)
    } else if status.retrying > 0 {
        show_counted("retrying", status.retrying)
    } else if status.delivering > 0 {
        show_counted("delivering", status.delivering)
    } else if status.pending > 0 {
        show_counted("pending", status.pending)
    } else if status.configured {
        "bound".to_owned()
    } else {
        "-".to_owned()
    }
}

pub open spec fn viewed_observation(observation: Option<&ObservationRecord>) -> Option<
    ObservationRecordView,
> {
    match observation {
        Some(seen) => Some(seen@),
        None => None,
    }
}

pub open spec fn viewed_continuation(status: Option<&RunContinuationStatus>) -> Option<
    RunContinuationStatusView,
> {
    match status {
        Some(status) => Some(status@),
        None => None,
    }
}

/// A run as the console lists it.
pub open spec fn row_of(
    run: RunRecordView,
    observation: Option<ObservationRecordView>,
    continuation: Option<RunContinuationStatusView>,
    now: Timestamp,
) -> RunRowView {
    let reason = attention_of(run, observation, continuation, now);
    RunRowView {
        run_id: run.run_id,
        name: shown_name(run),
        status: run.status,
        runner: run.runner,
        host: run.host,
        handle: or_dash(run.job_id),
        observation: observation_word(observation, is_stale(run, observation, now), now),
        continuation: continuation_word(continuation),
        updated: age_text(age_of(run.updated_at, now)),
        workspace: match run.workspace {
            Some(workspace) => workspace.cwd,
            None => Seq::empty(),
        },
        active: !run.status.terminal(),
        attention: reason is Some,
        attention_reason: reason,
        updated_at: run.updated_at,
    }
}

fn attention_reason(
    run: &RunRecord,
    observation: Option<&ObservationRecord>,
    continuation: Option<&RunContinuationStatus>,
    stale: bool,
) -> (reason: Option<String>)
    ensures
        forall|now: Timestamp|
            stale == is_stale(run@, viewed_observation(observation), now) ==> text::text_opt(reason)
                == #[trigger] attention_of(
                run@,
                viewed_observation(observation),
                viewed_continuation(continuation),
                now,
            ),
{
    if run.status == RunStatus::Failed {
        return Some("Run failed".to_owned());
    }
    if let Some(status) = continuation {
        if status.needs_rebind > 0 {
            return Some("Continuation needs explicit rebind".to_owned());
        }
        if status.retrying > 0 {
            return Some("Continuation delivery is retrying".to_owned());
        }
    }
    if let Some(seen) = observation {
        if seen.health != ObservationHealth::Fresh {
            let mut reason = "Observation is ".to_owned();
            reason.append(health_label(seen.health));
            return Some(reason);
        }
    }
    if stale {
        return Some("Observation is stale".to_owned());
    }
    if !run.status.is_terminal() {
        if let Some(note) = &run.note {
            if contains_text(to_ascii_lowercase(note.as_str()).as_str(), "cancel requested") {
                return Some("Cancel requested; awaiting terminal observation".to_owned());
            }
        }
    }
    None
}

pub fn project_run(
    run: &RunRecord,
    observation: Option<&ObservationRecord>,
    continuation: Option<&RunContinuationStatus>,
    now: Timestamp,
) -> (row: RunRow)
    ensures
        row@ == row_of(
            run@,
            viewed_observation(observation),
            viewed_continuation(continuation),
            now,
        ),
{
    let active = !run.status.is_terminal();
    let stale = active && (match observation {
        Some(seen) => age_seconds(seen.observed_at, now) > STALE_AFTER_SECS,
        None => false,
    });
    let reason = attention_reason(run, observation, continuation, stale);
    assert(stale == is_stale(run@, viewed_observation(observation), now));
    let workspace = match &run.workspace {
        Some(workspace) => workspace.cwd.clone(),
        None => String::new(),
    };
    RunRow {
        run_id: run.run_id.clone(),
        name: show_name(run),
        status: run.status,
        runner: run.runner,
        host: run.host.clone(),
        handle: show_or_dash(&run.job_id),
        observation: observation_label(observation, now, stale),
        continuation: continuation_label(continuation),
        updated: format_age(age_seconds(run.updated_at, now)),
        workspace,
        active,
        attention: reason.is_some(),
        attention_reason: reason,
        updated_at: run.updated_at,
    }
}

/// The cells of a run's line.
pub open spec fn cells_of(row: RunRowView) -> Seq<Seq<char>> {
    seq![
        if row.attention {
            "! "@ + status_word(row.status)
        } else {
            status_word(row.status)
        },
        row.name,
        runner_word(row.runner),
        row.host,
        row.handle,
        row.observation,
        row.continuation,
        row.updated,
    ]
}

impl RunRow {
    /// The cells of the run's line.
    pub fn table_cells(&self) -> (cells: Vec<String>)
        ensures
            cells.deep_view() == cells_of(self@),
    {
        let mut cells: Vec<String> = Vec::new();
        if self.attention {
            let mut cell = "! ".to_owned();
            cell.append(status_label(self.status));
            cells.push(cell);
        } else {
            cells.push(status_label(self.status).to_owned());
        }
        cells.push(self.name.clone());
        cells.push(runner_label(self.runner).to_owned());
        cells.push(self.host.clone());
        cells.push(self.handle.clone());
        cells.push(self.observation.clone());
        cells.push(self.continuation.clone());
        cells.push(self.updated.clone());
        assert(cells.deep_view() =~= cells_of(self@));
        cells
    }
}

// ---------------------------------------------------------------------------
// All runs
// ---------------------------------------------------------------------------

/// The last item that satisfies `wanted`.
pub open spec fn last_wanted<T>(items: Seq<T>, wanted: spec_fn(T) -> bool) -> Option<T>
    decreases items.len(),
{
    if items.len() == 0 {
        None
    } else if wanted(items.last()) {
        Some(items.last())
    } else {
        last_wanted(items.drop_last(), wanted)
    }
}

/// Holds of the observations of an attempt.
pub open spec fn sees(run_id: Seq<char>, attempt_no: u32) -> spec_fn(ObservationRecordView) -> bool {
    |seen: ObservationRecordView| seen.run_id == run_id && seen.attempt_no == attempt_no
}

/// Holds of what the notices of a run say.
pub open spec fn tells_of(run_id: Seq<char>) -> spec_fn(RunContinuationStatusView) -> bool {
    |status: RunContinuationStatusView| status.run_id == run_id
}

/// The observation of a run's attempt: where there are several, the last.
pub open spec fn observation_in(observations: Seq<ObservationRecordView>, run: RunRecordView) -> Option<
    ObservationRecordView,
> {
    match run.attempt_no {
        None => None,
        Some(number) => last_wanted(observations, sees(run.run_id, number)),
    }
}

pub open spec fn continuation_in(
    continuations: Seq<RunContinuationStatusView>,
    run: RunRecordView,
) -> Option<RunContinuationStatusView> {
    last_wanted(continuations, tells_of(run.run_id))
}

fn find_observation<'a>(observations: &'a Vec<ObservationRecord>, run: &RunRecord) -> (seen: Option<
    &'a ObservationRecord,
>)
    ensures
        viewed_observation(seen) == observation_in(observations.deep_view(), run@),
{
    let number = match run.attempt_no {
        Some(number) => number,
        None => return None,
    };
    let ghost wanted = sees(run@.run_id, number);
    let ghost all = observations.deep_view();
    let mut i: usize = observations.len();
    assert(all.len() == observations@.len());
    assert(all.take(i as int) =~= all);
    while i > 0
        invariant
            i <= observations@.len(),
            all == observations.deep_view(),
            all.len() == observations@.len(),
            wanted == sees(run@.run_id, number),
            run@.attempt_no == Some(number),
            last_wanted(all, wanted) == last_wanted(all.take(i as int), wanted),
        decreases i,
    {
        i -= 1;
        let seen = &observations[i];
        proof {
            assert(all.take(i + 1).drop_last() =~= all.take(i as int));
            assert(all.take(i + 1).last() == seen@);
        }
        if seen.run_id == run.run_id && seen.attempt_no == number {
            return Some(seen);
        }
    }
    None
}

fn find_continuation<'a>(continuations: &'a Vec<RunContinuationStatus>, run: &RunRecord) -> (status:
    Option<&'a RunContinuationStatus>)
    ensures
        viewed_continuation(status) == continuation_in(continuations.deep_view(), run@),
{
    let ghost wanted = tells_of(run@.run_id);
    let ghost all = continuations.deep_view();
    let mut i: usize = continuations.len();
    assert(all.len() == continuations@.len());
    assert(all.take(i as int) =~= all);
    while i > 0
        invariant
            i <= continuations@.len(),
            all == continuations.deep_view(),
            all.len() == continuations@.len(),
            wanted == tells_of(run@.run_id),
            last_wanted(all, wanted) == last_wanted(all.take(i as int), wanted),
        decreases i,
    {
        i -= 1;
        let status = &continuations[i];
        proof {
            assert(all.take(i + 1).drop_last() =~= all.take(i as int));
            assert(all.take(i + 1).last() == status@);
        }
        if status.run_id == run.run_id {
            return Some(status);
        }
    }
    None
}

/// The order of the list: what needs attention first, then what is live, then
/// what changed last.
pub open spec fn priority_order() -> spec_fn(RunRowView, RunRowView) -> bool {
    |a: RunRowView, b: RunRowView|
        if a.attention != b.attention {
            a.attention
        } else if a.active != b.active {
            a.active
        } else if a.updated_at.nanos != b.updated_at.nanos {
            a.updated_at.nanos > b.updated_at.nanos
        } else {
            text::precedes(a.name, b.name)
        }
}

pub open spec fn newest_order() -> spec_fn(RunRowView, RunRowView) -> bool {
    |a: RunRowView, b: RunRowView|
        if a.updated_at.nanos != b.updated_at.nanos {
            a.updated_at.nanos > b.updated_at.nanos
        } else {
            text::precedes(a.name, b.name)
        }
}

pub open spec fn run_name_order() -> spec_fn(RunRowView, RunRowView) -> bool {
    |a: RunRowView, b: RunRowView|
        if text::ascii_lower(a.name) != text::ascii_lower(b.name) {
            text::precedes(text::ascii_lower(a.name), text::ascii_lower(b.name))
        } else {
            text::precedes(a.run_id, b.run_id)
        }
}

pub open spec fn host_order() -> spec_fn(RunRowView, RunRowView) -> bool {
    |a: RunRowView, b: RunRowView|
        if text::ascii_lower(a.host) != text::ascii_lower(b.host) {
            text::precedes(text::ascii_lower(a.host), text::ascii_lower(b.host))
        } else {
            text::precedes(a.name, b.name)
        }
}

pub open spec fn is_active() -> spec_fn(RunRowView) -> bool {
    |row: RunRowView| row.active
}

pub open spec fn needs_attention() -> spec_fn(RunRowView) -> bool {
    |row: RunRowView| row.attention
}

/// Holds of the runs that ended within a day.
pub open spec fn ended_lately(now: Timestamp) -> spec_fn(RunRowView) -> bool {
    |row: RunRowView| !row.active && age_of(row.updated_at, now) <= DAY_SECS
}

pub open spec fn projected(
    observations: Seq<ObservationRecordView>,
    continuations: Seq<RunContinuationStatusView>,
    now: Timestamp,
) -> spec_fn(RunRecordView) -> RunRowView {
    |run: RunRecordView|
        row_of(
            run,
            observation_in(observations, run),
            continuation_in(continuations, run),
            now,
        )
}

/// The list of all runs.
pub open spec fn dashboard_rows(
    runs: Seq<RunRecordView>,
    observations: Seq<ObservationRecordView>,
    continuations: Seq<RunContinuationStatusView>,
    now: Timestamp,
) -> Seq<RunRowView> {
    seqs::stable_sorted(
        runs.map_values(projected(observations, continuations, now)),
        priority_order(),
    )
}

/// What the daemon says of itself.
pub struct DaemonFacts {
    pub version: String,
    pub protocol: u64,
    pub capabilities: usize,
    pub pid: u64,
    pub paused: bool,
    pub manual_submit_supported: bool,
    pub retry_supported: bool,
}

pub fn project_dashboard(
    daemon: DaemonFacts,
    runs: &Vec<RunRecord>,
    observations: &Vec<ObservationRecord>,
    continuations: &Vec<RunContinuationStatus>,
    now: Timestamp,
) -> (snapshot: DashboardSnapshot)
    ensures
        ({
            let rows = dashboard_rows(
                runs.deep_view(),
                observations.deep_view(),
                continuations.deep_view(),
                now,
            );
            snapshot@ == (DashboardSnapshotView {
                daemon_version: daemon.version@,
                daemon_protocol: daemon.protocol,
                daemon_capabilities: daemon.capabilities,
                daemon_pid: daemon.pid,
                paused: daemon.paused,
                manual_submit_supported: daemon.manual_submit_supported,
                retry_supported: daemon.retry_supported,
                rows,
                active: rows.filter(is_active()).len() as usize,
                attention: rows.filter(needs_attention()).len() as usize,
                recent_terminal: rows.filter(ended_lately(now)).len() as usize,
                total: rows.len() as usize,
            })
        }),
        snapshot.active == snapshot@.rows.filter(is_active()).len(),
        snapshot.attention == snapshot@.rows.filter(needs_attention()).len(),
        snapshot.recent_terminal == snapshot@.rows.filter(ended_lately(now)).len(),
        snapshot.total == snapshot@.rows.len(),
{
    let ghost each = projected(observations.deep_view(), continuations.deep_view(), now);
    let mut rows: Vec<RunRow> = Vec::new();
    let mut i: usize = 0;
    while i < runs.len()
        invariant
            i <= runs@.len(),
            each == projected(observations.deep_view(), continuations.deep_view(), now),
            rows.deep_view() =~= runs.deep_view().map_values(each).take(i as int),
        decreases runs@.len() - i,
    {
        let run = &runs[i];
        assert(runs.deep_view()[i as int] == run@);
        let row = project_run(
            run,
            find_observation(observations, run),
            find_continuation(continuations, run),
            now,
        );
        let ghost before = rows;
        rows.push(row);
        proof {
            seqs::lemma_deep_push(before, rows, row);
        }
        i += 1;
    }
    assert(rows.deep_view() =~= runs.deep_view().map_values(each));
    let first = |a: &RunRow, b: &RunRow| -> (yes: bool)
        ensures
            yes == priority_order()(a.deep_view(), b.deep_view()),
        {
            if a.attention != b.attention {
                a.attention
            } else if a.active != b.active {
                a.active
            } else if a.updated_at.nanos != b.updated_at.nanos {
                a.updated_at.nanos > b.updated_at.nanos
            } else {
                text_before(a.name.as_str(), b.name.as_str())
            }
        };
    let rows = stable_sort(rows, first, Ghost(priority_order()));
    let active_test = |row: &RunRow| -> (yes: bool)
        ensures
            yes == is_active()(row.deep_view()),
        {
            row.active
        };
    let attention_test = |row: &RunRow| -> (yes: bool)
        ensures
            yes == needs_attention()(row.deep_view()),
        {
            row.attention
        };
    let recent_test = |row: &RunRow| -> (yes: bool)
        ensures
            yes == ended_lately(now)(row.deep_view()),
        {
            !row.active && age_seconds(row.updated_at, now) <= DAY_SECS
        };
    let active = count(&rows, active_test, Ghost(is_active()));
    let attention = count(&rows, attention_test, Ghost(needs_attention()));
    let recent_terminal = count(&rows, recent_test, Ghost(ended_lately(now)));
    let total = rows.len();
    assert(rows.deep_view().len() == total);
    DashboardSnapshot {
        daemon_version: daemon.version,
        daemon_protocol: daemon.protocol,
        daemon_capabilities: daemon.capabilities,
        daemon_pid: daemon.pid,
        paused: daemon.paused,
        manual_submit_supported: daemon.manual_submit_supported,
        retry_supported: daemon.retry_supported,
        rows,
        active,
        attention,
        recent_terminal,
        total,
    }
}

// ---------------------------------------------------------------------------
// Which runs are shown, and in which order
// ---------------------------------------------------------------------------

/// A text in small letters, as `str::to_lowercase` writes it.
pub uninterp spec fn lowercase_text(value: Seq<char>) -> Seq<char>;

/// `str::to_lowercase`: the text is a function of the text it is made from.
#[verifier::external_body]
fn to_lowercase(value: &str) -> (small: String)
    ensures
        small@ == lowercase_text(value@),
{
    value.to_lowercase()
}

/// What of a run is searched.
pub open spec fn searched_text(row: RunRowView) -> Seq<char> {
    row.name + "\n"@ + row.run_id + "\n"@ + row.host + "\n"@ + row.handle + "\n"@ + row.workspace
}

/// Whether the text that is searched, in small letters, holds the query.
pub fn holds_query(searched: &str, query: &str) -> (yes: bool)
    ensures
        yes == (query@.len() == 0 || text::has_part(searched@, query@)),
{
    query.is_empty() || contains_text(searched, query)
}

pub open spec fn matches_query(row: RunRowView, query: Seq<char>) -> bool {
    query.len() == 0 || text::has_part(lowercase_text(searched_text(row)), query)
}

impl RunRow {
    fn matches_query(&self, query: &str) -> (yes: bool)
        ensures
            yes == matches_query(self@, query@),
    {
        let mut searched = self.name.clone();
        searched.append("\n");
        searched.append(self.run_id.as_str());
        searched.append("\n");
        searched.append(self.host.as_str());
        searched.append("\n");
        searched.append(self.handle.as_str());
        searched.append("\n");
        searched.append(self.workspace.as_str());
        holds_query(to_lowercase(searched.as_str()).as_str(), query)
    }
}

/// Whether a run is of the kind that is shown.
pub open spec fn passes(row: RunRowView, filter: RunFilter) -> bool {
    match filter {
        RunFilter::Active => row.active,
        RunFilter::Attention => row.attention,
        RunFilter::All => true,
    }
}

/// Holds of the runs that are shown for a query in small letters.
pub open spec fn is_shown(filter: RunFilter, query: Seq<char>) -> spec_fn(RunRowView) -> bool {
    |row: RunRowView| passes(row, filter) && matches_query(row, query)
}

/// The runs of a kind that hold a query, whatever the case of their letters.
pub fn filter_rows(rows: &Vec<RunRow>, filter: RunFilter, query: &str) -> (shown: Vec<RunRow>)
    ensures
        shown.deep_view() == rows.deep_view().filter(
            is_shown(filter, lowercase_text(text::trimmed(query@))),
        ),
{
    let query = to_lowercase(trim(query).as_str());
    let test = |row: &RunRow| -> (yes: bool)
        ensures
            yes == is_shown(filter, query@)(row.deep_view()),
        {
            let kind = match filter {
                RunFilter::Active => row.active,
                RunFilter::Attention => row.attention,
                RunFilter::All => true,
            };
            kind && row.matches_query(query.as_str())
        };
    select(rows, test, Ghost(is_shown(filter, query@)))
}

/// The runs in the order that is asked for; the list has the first one already.
pub open spec fn sorted_rows(rows: Seq<RunRowView>, sort: RunSort) -> Seq<RunRowView> {
    match sort {
        RunSort::Priority => rows,
        RunSort::Newest => seqs::stable_sorted(rows, newest_order()),
        RunSort::Name => seqs::stable_sorted(rows, run_name_order()),
        RunSort::Host => seqs::stable_sorted(rows, host_order()),
    }
}

pub fn sort_rows(rows: &mut Vec<RunRow>, sort: RunSort)
    ensures
        final(rows).deep_view() == sorted_rows(old(rows).deep_view(), sort),
{
    let copies = copy_rows(rows);
    match sort {
        RunSort::Priority => {},
        RunSort::Newest => {
            let before = |a: &RunRow, b: &RunRow| -> (yes: bool)
                ensures
                    yes == newest_order()(a.deep_view(), b.deep_view()),
                {
                    if a.updated_at.nanos != b.updated_at.nanos {
                        a.updated_at.nanos > b.updated_at.nanos
                    } else {
                        text_before(a.name.as_str(), b.name.as_str())
                    }
                };
            *rows = stable_sort(copies, before, Ghost(newest_order()));
        },
        RunSort::Name => {
            let before = |a: &RunRow, b: &RunRow| -> (yes: bool)
                ensures
                    yes == run_name_order()(a.deep_view(), b.deep_view()),
                {
                    let left = to_ascii_lowercase(a.name.as_str());
                    let right = to_ascii_lowercase(b.name.as_str());
                    if !same(left.as_str(), right.as_str()) {
                        text_before(left.as_str(), right.as_str())
                    } else {
                        text_before(a.run_id.as_str(), b.run_id.as_str())
                    }
                };
            *rows = stable_sort(copies, before, Ghost(run_name_order()));
        },
        RunSort::Host => {
            let before = |a: &RunRow, b: &RunRow| -> (yes: bool)
                ensures
                    yes == host_order()(a.deep_view(), b.deep_view()),
                {
                    let left = to_ascii_lowercase(a.host.as_str());
                    let right = to_ascii_lowercase(b.host.as_str());
                    if !same(left.as_str(), right.as_str()) {
                        text_before(left.as_str(), right.as_str())
                    } else {
                        text_before(a.name.as_str(), b.name.as_str())
                    }
                };
            *rows = stable_sort(copies, before, Ghost(host_order()));
        },
    }
}

// ---------------------------------------------------------------------------
// Hosts
// ---------------------------------------------------------------------------

/// Holds of the live runs on a host.
pub open spec fn live_on(host: Seq<char>) -> spec_fn(RunRowView) -> bool {
    |row: RunRowView| row.active && row.host == host
}

fn count_live(rows: &Vec<RunRow>, host: &str) -> (number: usize)
    ensures
        number == rows.deep_view().filter(live_on(host@)).len(),
{
    let test = |row: &RunRow| -> (yes: bool)
        ensures
            yes == live_on(host@)(row.deep_view()),
        {
            row.active && same(row.host.as_str(), host)
        };
    count(rows, test, Ghost(live_on(host@)))
}

/// How many live runs a host has, in words.
pub open spec fn usage_word(live_runs: nat) -> Seq<char> {
    if live_runs == 0 {
        "Idle · no live Runs"@
    } else if live_runs == 1 {
        "1 live Run"@
    } else {
        text::decimal(live_runs) + " live Runs"@
    }
}

impl HostCardView {
    pub fn usage_label(&self) -> (label: String)
        ensures
            label@ == usage_word(self@.live_runs as nat),
    {
        match self.live_runs {
            0 => "Idle · no live Runs".to_owned(),
            1 => "1 live Run".to_owned(),
            count => {
                let mut label = decimal_text(count as u64);
                label.append(" live Runs");
                label
            },
        }
    }
}

/// A host with the number of its live runs.
pub open spec fn used_host(host: HostCardViewView, rows: Seq<RunRowView>) -> HostCardViewView {
    HostCardViewView { live_runs: rows.filter(live_on(host.alias)).len() as usize, ..host }
}

pub open spec fn used_by(rows: Seq<RunRowView>) -> spec_fn(HostCardViewView) -> HostCardViewView {
    |host: HostCardViewView| used_host(host, rows)
}

/// Counts the live runs of each host, by its exact name.
pub fn apply_host_run_usage(hosts: &mut Vec<HostCardView>, rows: &Vec<RunRow>)
    ensures
        final(hosts).deep_view() == old(hosts).deep_view().map_values(used_by(rows.deep_view())),
        forall|i: int|
            0 <= i < final(hosts)@.len() ==> (#[trigger] final(hosts)@[i]).live_runs
                == rows.deep_view().filter(live_on(final(hosts)@[i].alias@)).len(),
{
    let ghost before = hosts.deep_view();
    let mut i: usize = 0;
    assert(before.len() == hosts@.len());
    while i < hosts.len()
        invariant
            i <= hosts@.len(),
            before.len() == hosts@.len(),
            forall|j: int|
                0 <= j < i ==> (#[trigger] hosts@[j])@ == used_host(before[j], rows.deep_view())
                    && hosts@[j].live_runs == rows.deep_view().filter(
                    live_on(hosts@[j].alias@),
                ).len(),
            forall|j: int| i <= j < hosts@.len() ==> (#[trigger] hosts@[j])@ == before[j],
        decreases hosts@.len() - i,
    {
        let mut host = hosts[i].clone();
        host.live_runs = count_live(rows, host.alias.as_str());
        assert(host@ == used_host(before[i as int], rows.deep_view()));
        hosts.set(i, host);
        i += 1;
    }
    assert(hosts.deep_view() =~= before.map_values(used_by(rows.deep_view())));
}

pub open spec fn row_host() -> spec_fn(RunRowView) -> Seq<char> {
    |row: RunRowView| row.host
}

/// The hosts that have live runs, by name.
pub open spec fn busy_hosts(rows: Seq<RunRowView>) -> Seq<Seq<char>> {
    seqs::stable_sorted(
        reading::distinct(rows.filter(is_active()).map_values(row_host())),
        reading::name_order(),
    )
}

/// A host and the number of its live runs.
pub open spec fn usage_line(rows: Seq<RunRowView>) -> spec_fn(Seq<char>) -> Seq<char> {
    |host: Seq<char>|
        host + "   "@ + text::decimal(rows.filter(live_on(host)).len()) + " live Run"@ + (
        if rows.filter(live_on(host)).len() == 1 {
            ""@
        } else {
            "s"@
        })
}

fn list_busy_hosts(rows: &Vec<RunRow>) -> (hosts: Vec<String>)
    ensures
        hosts.deep_view() == busy_hosts(rows.deep_view()),
{
    let test = |row: &RunRow| -> (yes: bool)
        ensures
            yes == is_active()(row.deep_view()),
        {
            row.active
        };
    let live = select(rows, test, Ghost(is_active()));
    let ghost all = live.deep_view().map_values(row_host());
    let mut hosts: Vec<String> = Vec::new();
    let mut i: usize = 0;
    assert(all.take(0) =~= Seq::<Seq<char>>::empty());
    assert(hosts.deep_view() =~= Seq::<Seq<char>>::empty());
    while i < live.len()
        invariant
            i <= live@.len(),
            all == live.deep_view().map_values(row_host()),
            hosts.deep_view() == reading::distinct(all.take(i as int)),
        decreases live@.len() - i,
    {
        proof {
            let now = all.take(i + 1);
            assert(now.drop_last() =~= all.take(i as int));
            assert(now.last() == live@[i as int]@.host);
        }
        note_name(&mut hosts, &live[i].host);
        i += 1;
    }
    assert(all.take(i as int) =~= all);
    let before = |a: &String, b: &String| -> (yes: bool)
        ensures
            yes == reading::name_order()(a.deep_view(), b.deep_view()),
        {
            text_before(a.as_str(), b.as_str())
        };
    stable_sort(hosts, before, Ghost(reading::name_order()))
}

pub fn host_usage_summary(rows: &Vec<RunRow>) -> (summary: String)
    ensures
        summary@ == if busy_hosts(rows.deep_view()).len() == 0 {
            "No live Runs are currently using an SSH/local Host."@
        } else {
            text::joined(
                busy_hosts(rows.deep_view()).map_values(usage_line(rows.deep_view())),
                "\n"@,
            )
        },
{
    let hosts = list_busy_hosts(rows);
    assert(hosts.deep_view().len() == hosts@.len());
    if hosts.len() == 0 {
        return "No live Runs are currently using an SSH/local Host.".to_owned();
    }
    let ghost wanted = hosts.deep_view().map_values(usage_line(rows.deep_view()));
    let mut lines: Vec<String> = Vec::new();
    let mut i: usize = 0;
    while i < hosts.len()
        invariant
            i <= hosts@.len(),
            wanted == hosts.deep_view().map_values(usage_line(rows.deep_view())),
            text::texts(lines@) =~= wanted.take(i as int),
        decreases hosts@.len() - i,
    {
        let live = count_live(rows, hosts[i].as_str());
        let mut line = hosts[i].clone();
        line.append("   ");
        line.append(decimal_text(live as u64).as_str());
        line.append(" live Run");
        if live == 1 {
            line.append("");
        } else {
            line.append("s");
        }
        proof {
            assert(hosts.deep_view()[i as int] == hosts@[i as int]@);
            text::lemma_texts_push(lines@, line);
        }
        lines.push(line);
        i += 1;
    }
    assert(text::texts(lines@) =~= wanted);
    join(&lines, "\n")
}

// ---------------------------------------------------------------------------
// One run
// ---------------------------------------------------------------------------

pub open spec fn exit_word(code: Option<u32>) -> Seq<char> {
    match code {
        Some(code) => text::decimal(code as nat),
        None => "-"@,
    }
}

pub open spec fn workspace_text(run: RunRecordView) -> Seq<char> {
    match run.workspace {
        Some(workspace) => workspace.host_alias + ":"@ + workspace.cwd,
        None => "-"@,
    }
}

/// What was last seen of a run.
pub open spec fn seen_text(observation: Option<ObservationRecordView>) -> Seq<char> {
    match observation {
        None => "No durable observation yet"@,
        Some(seen) => (health_word(seen.health)
                + " / "@
                + source_word(seen.source)
                + "\nobserved: "@
                + seen.observed_at.rfc3339_view()
                + "\nraw: "@
                + or_dash(seen.raw_state)
                + "\nreason: "@
                + or_dash(seen.reason)
                + "\nexit: "@
                + exit_word(seen.command_exit_code)),
    }
}

fn show_seen(observation: &Option<ObservationRecord>) -> (shown: String)
    requires
        observation.deep_view() matches Some(seen) ==> seen.observed_at.dated(),
    ensures
        shown@ == seen_text(observation.deep_view()),
{
    let seen = match observation {
        Some(seen) => seen,
        None => return "No durable observation yet".to_owned(),
    };
    let exit = match seen.command_exit_code {
        Some(code) => decimal_text(code as u64),
        None => "-".to_owned(),
    };
    let mut shown = health_label(seen.health).to_owned();
    shown.append(" / ");
    shown.append(source_label(seen));
    shown.append("\nobserved: ");
    shown.append(seen.observed_at.to_rfc3339().as_str());
    shown.append("\nraw: ");
    shown.append(show_or_dash(&seen.raw_state).as_str());
    shown.append("\nreason: ");
    shown.append(show_or_dash(&seen.reason).as_str());
    shown.append("\nexit: ");
    shown.append(exit.as_str());
    shown
}

/// An attempt, with the JSON text of its resources.
pub open spec fn attempt_text(
    attempt: Option<RunAttemptRecordView>,
    resources: Seq<char>,
    error: Option<Seq<char>>,
) -> Seq<char> {
    match (error, attempt) {
        (Some(error), _) => "Attempt metadata unavailable\n"@ + error,
        (None, None) => "No durable Attempt metadata yet"@,
        (None, Some(attempt)) => ("attempt "@
                + text::decimal(attempt.attempt_no as nat)
                + "\nstatus: "@
                + status_word(attempt.status)
                + "\nhandle: "@
                + or_dash(attempt.job_id)
                + "\ncreated: "@
                + attempt.created_at.rfc3339_view()
                + "\nworkdir: "@
                + attempt.workdir
                + "\ncommand: "@
                + bounded(attempt.command, 800, "... [truncated]"@)
                + "\nresources: "@
                + resources),
    }
}

fn show_attempt(
    attempt: &Option<RunAttemptRecord>,
    resources: &str,
    error: &Option<String>,
) -> (shown: String)
    requires
        attempt.deep_view() matches Some(attempt) ==> attempt.created_at.dated(),
    ensures
        shown@ == attempt_text(attempt.deep_view(), resources@, text::text_opt(*error)),
{
    if let Some(error) = error {
        let mut shown = "Attempt metadata unavailable\n".to_owned();
        shown.append(error.as_str());
        return shown;
    }
    let attempt = match attempt {
        Some(attempt) => attempt,
        None => return "No durable Attempt metadata yet".to_owned(),
    };
    let mut shown = "attempt ".to_owned();
    shown.append(decimal_text(attempt.attempt_no as u64).as_str());
    shown.append("\nstatus: ");
    shown.append(status_label(attempt.status));
    shown.append("\nhandle: ");
    shown.append(show_or_dash(&attempt.job_id).as_str());
    shown.append("\ncreated: ");
    shown.append(attempt.created_at.to_rfc3339().as_str());
    shown.append("\nworkdir: ");
    shown.append(attempt.workdir.as_str());
    shown.append("\ncommand: ");
    shown.append(bounded_text(attempt.command.as_str(), 800).as_str());
    shown.append("\nresources: ");
    shown.append(resources);
    shown
}

/// An attempt in the history of its run.
pub open spec fn history_item() -> spec_fn(RunAttemptRecordView) -> Seq<char> {
    |attempt: RunAttemptRecordView|
        "#"@ + text::decimal(attempt.attempt_no as nat) + " "@ + status_word(attempt.status) + " "@
            + or_dash(attempt.job_id)
}

pub open spec fn history_text(attempts: Seq<RunAttemptRecordView>) -> Seq<char> {
    if attempts.len() == 0 {
        "No durable Attempt history yet"@
    } else {
        text::joined(attempts.map_values(history_item()), "  ·  "@)
    }
}

fn show_history(attempts: &Vec<RunAttemptRecord>) -> (shown: String)
    ensures
        shown@ == history_text(attempts.deep_view()),
{
    assert(attempts.deep_view().len() == attempts@.len());
    if attempts.len() == 0 {
        return "No durable Attempt history yet".to_owned();
    }
    let ghost wanted = attempts.deep_view().map_values(history_item());
    let mut items: Vec<String> = Vec::new();
    let mut i: usize = 0;
    while i < attempts.len()
        invariant
            i <= attempts@.len(),
            wanted == attempts.deep_view().map_values(history_item()),
            text::texts(items@) =~= wanted.take(i as int),
        decreases attempts@.len() - i,
    {
        let attempt = &attempts[i];
        let mut item = "#".to_owned();
        item.append(decimal_text(attempt.attempt_no as u64).as_str());
        item.append(" ");
        item.append(status_label(attempt.status));
        item.append(" ");
        item.append(show_or_dash(&attempt.job_id).as_str());
        proof {
            assert(attempts.deep_view()[i as int] == attempt@);
            text::lemma_texts_push(items@, item);
        }
        items.push(item);
        i += 1;
    }
    assert(text::texts(items@) =~= wanted);
    join(&items, "  ·  ")
}

pub open spec fn number_of() -> spec_fn(RunAttemptRecordView) -> u32 {
    |attempt: RunAttemptRecordView| attempt.attempt_no
}

/// Holds of a number.
pub open spec fn is_number(number: u32) -> spec_fn(u32) -> bool {
    |other: u32| other == number
}

/// The place of a number in the list, from one on, or zero.
pub open spec fn place_of(numbers: Seq<u32>, number: u32) -> nat {
    let at = seqs::until(numbers, is_number(number));
    if at < numbers.len() {
        at + 1
    } else {
        0
    }
}

/// Which attempt is shown.
pub open spec fn selection_text(
    selected: Option<u32>,
    numbers: Seq<u32>,
    current: Option<u32>,
) -> Seq<char> {
    match selected {
        None => "No Attempt"@,
        Some(number) => "Attempt "@ + text::decimal(number as nat) + " · "@ + text::decimal(
            place_of(numbers, number),
        ) + "/"@ + text::decimal(numbers.len()) + " · "@ + (if current == Some(number) {
            "current"@
        } else {
            "historical"@
        }),
    }
}

fn show_selection(selected: Option<u32>, numbers: &Vec<u32>, current: Option<u32>) -> (shown: String)
    ensures
        shown@ == selection_text(selected, numbers@, current),
{
    let number = match selected {
        Some(number) => number,
        None => return "No Attempt".to_owned(),
    };
    let mut at: usize = 0;
    while at < numbers.len() && numbers[at] != number
        invariant
            at <= numbers@.len(),
            forall|j: int| 0 <= j < at ==> !is_number(number)(#[trigger] numbers@[j]),
        decreases numbers@.len() - at,
    {
        at += 1;
    }
    proof {
        seqs::lemma_until(numbers@, is_number(number), at as nat);
    }
    let place: u64 = if at < numbers.len() {
        at as u64 + 1
    } else {
        0
    };
    let mut shown = "Attempt ".to_owned();
    shown.append(decimal_text(number as u64).as_str());
    shown.append(" · ");
    shown.append(decimal_text(place).as_str());
    shown.append("/");
    shown.append(decimal_text(numbers.len() as u64).as_str());
    shown.append(" · ");
    if current == Some(number) {
        shown.append("current");
    } else {
        shown.append("historical");
    }
    shown
}

/// An event in the timeline.
pub open spec fn timeline_item() -> spec_fn(DetailEventView) -> Seq<char> {
    |event: DetailEventView|
        event.at.rfc3339_view() + "  "@ + event.kind + "\n"@ + bounded(
            event.payload,
            600,
            "..."@,
        )
}

pub open spec fn timeline_text(events: Seq<DetailEventView>, error: Option<Seq<char>>) -> Seq<char> {
    match error {
        Some(error) => "Timeline unavailable\n"@ + error,
        None => if events.len() == 0 {
            "No lifecycle events recorded."@
        } else {
            text::joined(events.map_values(timeline_item()), "\n\n"@)
        },
    }
}

fn show_timeline(events: &Vec<DetailEvent>, error: &Option<String>) -> (shown: String)
    requires
        forall|i: int| 0 <= i < events@.len() ==> (#[trigger] events@[i]).at.dated(),
    ensures
        shown@ == timeline_text(events.deep_view(), text::text_opt(*error)),
{
    if let Some(error) = error {
        let mut shown = "Timeline unavailable\n".to_owned();
        shown.append(error.as_str());
        return shown;
    }
    assert(events.deep_view().len() == events@.len());
    if events.len() == 0 {
        return "No lifecycle events recorded.".to_owned();
    }
    let ghost wanted = events.deep_view().map_values(timeline_item());
    let mut items: Vec<String> = Vec::new();
    let mut i: usize = 0;
    while i < events.len()
        invariant
            i <= events@.len(),
            forall|j: int| 0 <= j < events@.len() ==> (#[trigger] events@[j]).at.dated(),
            wanted == events.deep_view().map_values(timeline_item()),
            text::texts(items@) =~= wanted.take(i as int),
        decreases events@.len() - i,
    {
        let event = &events[i];
        let mut item = event.at.to_rfc3339();
        item.append("  ");
        item.append(event.kind.as_str());
        item.append("\n");
        item.append(compact_json(event.payload.as_str()).as_str());
        proof {
            assert(events.deep_view()[i as int] == event@);
            text::lemma_texts_push(items@, item);
        }
        items.push(item);
        i += 1;
    }
    assert(text::texts(items@) =~= wanted);
    join(&items, "\n\n")
}

pub open spec fn rebind_call(status: RunContinuationStatusView) -> Seq<char> {
    if status.needs_rebind > 0 {
        "\n\nAction required: return to the bound agent/Pi session and perform an explicit rebind there."@
    } else {
        ""@
    }
}

/// How far the notices of a run have come.
pub open spec fn continuation_text(status: RunContinuationStatusView, error: Option<Seq<char>>) -> Seq<char> {
    match error {
        Some(error) => "Continuation status unavailable\n"@ + error,
        None => if status.configured {
            "Agent: "@
                + or_dash(status.agent_kind)
                + "\nSession: "@
                + shortened(or_dash(status.session_id))
                + "\nProject: "@
                + or_dash(status.project_root)
                + "\nPending: "@
                + text::decimal(status.pending as nat)
                + "  Delivering: "@
                + text::decimal(status.delivering as nat)
                + "  Retrying: "@
                + text::decimal(status.retrying as nat)
                + "  Needs rebind: "@
                + text::decimal(status.needs_rebind as nat)
                + "  Delivered: "@
                + text::decimal(status.delivered as nat)
                + "\nLast state: "@
                + or_dash(status.last_state)
                + "\nLast error: "@
                + or_dash(status.last_error)
                + rebind_call(status)
        } else {
            "No agent continuation is bound to this Run."@
        },
    }
}

fn show_continuation(status: &RunContinuationStatus, error: &Option<String>) -> (shown: String)
    ensures
        shown@ == continuation_text(status@, text::text_opt(*error)),
{
    if let Some(error) = error {
        let mut shown = "Continuation status unavailable\n".to_owned();
        shown.append(error.as_str());
        return shown;
    }
    if !status.configured {
        return "No agent continuation is bound to this Run.".to_owned();
    }
    let call = if status.needs_rebind > 0 {
        "\n\nAction required: return to the bound agent/Pi session and perform an explicit rebind there."
    } else {
        ""
    };
    let session = short_id(show_or_dash(&status.session_id).as_str());
    let mut shown = "Agent: ".to_owned();
    shown.append(show_or_dash(&status.agent_kind).as_str());
    shown.append("\nSession: ");
    shown.append(session.as_str());
    shown.append("\nProject: ");
    shown.append(show_or_dash(&status.project_root).as_str());
    shown.append("\nPending: ");
    shown.append(decimal_text(status.pending as u64).as_str());
    shown.append("  Delivering: ");
    shown.append(decimal_text(status.delivering as u64).as_str());
    shown.append("  Retrying: ");
    shown.append(decimal_text(status.retrying as u64).as_str());
    shown.append("  Needs rebind: ");
    shown.append(decimal_text(status.needs_rebind as u64).as_str());
    shown.append("  Delivered: ");
    shown.append(decimal_text(status.delivered as u64).as_str());
    shown.append("\nLast state: ");
    shown.append(show_or_dash(&status.last_state).as_str());
    shown.append("\nLast error: ");
    shown.append(show_or_dash(&status.last_error).as_str());
    shown.append(call);
    shown
}

/// Whether a run or an attempt ended without success.
pub open spec fn has_broken(status: RunStatus) -> bool {
    status == RunStatus::Failed || status == RunStatus::Cancelled
}

/// What a person may try again: only the current attempt, only where it failed
/// or was cancelled, and only where it is known that no agent is bound.
pub open spec fn retry_of(
    run: RunRecordView,
    attempt: Option<RunAttemptRecordView>,
    selected: Option<u32>,
    continuation: RunContinuationStatusView,
    continuation_error: Option<Seq<char>>,
) -> Option<RetryContextViewView> {
    if selected is Some && selected == run.attempt_no && continuation_error is None
        && !continuation.configured && has_broken(run.status) {
        match attempt {
            Some(attempt) if has_broken(attempt.status) => Some(
                RetryContextViewView {
                    run_id: run.run_id,
                    expected_attempt_no: attempt.attempt_no,
                    runner: attempt.runner,
                    host: attempt.host,
                    workdir: attempt.workdir,
                    command: attempt.command,
                    resources: attempt.resources,
                },
            ),
            _ => None,
        }
    } else {
        None
    }
}

fn find_retry(
    run: &RunRecord,
    attempt: &Option<RunAttemptRecord>,
    selected: Option<u32>,
    continuation: &RunContinuationStatus,
    continuation_error: &Option<String>,
) -> (context: Option<RetryContextView>)
    ensures
        context.deep_view() == retry_of(
            run@,
            attempt.deep_view(),
            selected,
            continuation@,
            text::text_opt(*continuation_error),
        ),
{
    let broken = run.status == RunStatus::Failed || run.status == RunStatus::Cancelled;
    if selected.is_none() || selected != run.attempt_no || continuation_error.is_some()
        || continuation.configured || !broken {
        return None;
    }
    match attempt {
        Some(attempt) => if attempt.status == RunStatus::Failed || attempt.status
            == RunStatus::Cancelled {
            Some(
                RetryContextView {
                    run_id: run.run_id.clone(),
                    expected_attempt_no: attempt.attempt_no,
                    runner: attempt.runner,
                    host: attempt.host.clone(),
                    workdir: attempt.workdir.clone(),
                    command: attempt.command.clone(),
                    resources: attempt.resources.clone(),
                },
            )
        } else {
            None
        },
        None => None,
    }
}

/// Why a run may or may not be tried again.
pub open spec fn policy_of(
    run: RunRecordView,
    attempt: Option<RunAttemptRecordView>,
    selected: Option<u32>,
    continuation: RunContinuationStatusView,
    continuation_error: Option<Seq<char>>,
) -> Seq<char> {
    if selected is None || selected != run.attempt_no {
        "Historical Attempt selected; return to the current Attempt before retrying."@
    } else if continuation_error is Some {
        "Continuation status is unavailable; human Retry fails closed."@
    } else if continuation.configured {
        "This Run is agent-bound; Retry is managed by the owning Agent Integration."@
    } else if !has_broken(run.status) {
        "Human Retry is available only after the current Attempt is failed or cancelled."@
    } else if retry_of(run, attempt, selected, continuation, continuation_error) is Some {
        "Eligible for human Retry. Command/workspace/runner/host stay fixed; only scheduler resources may be reviewed."@
    } else {
        "Retry is unavailable because durable current-Attempt metadata is incomplete."@
    }
}

fn choose_policy(
    run: &RunRecord,
    selected: Option<u32>,
    continuation: &RunContinuationStatus,
    continuation_error: &Option<String>,
    eligible: bool,
) -> (policy: &'static str)
    ensures
        forall|attempt: Option<RunAttemptRecordView>|
            eligible == (retry_of(
                run@,
                attempt,
                selected,
                continuation@,
                text::text_opt(*continuation_error),
            ) is Some) ==> policy@ == #[trigger] policy_of(
                run@,
                attempt,
                selected,
                continuation@,
                text::text_opt(*continuation_error),
            ),
{
    if selected.is_none() || selected != run.attempt_no {
        "Historical Attempt selected; return to the current Attempt before retrying."
    } else if continuation_error.is_some() {
        "Continuation status is unavailable; human Retry fails closed."
    } else if continuation.configured {
        "This Run is agent-bound; Retry is managed by the owning Agent Integration."
    } else if run.status != RunStatus::Failed && run.status != RunStatus::Cancelled {
        "Human Retry is available only after the current Attempt is failed or cancelled."
    } else if eligible {
        "Eligible for human Retry. Command/workspace/runner/host stay fixed; only scheduler resources may be reviewed."
    } else {
        "Retry is unavailable because durable current-Attempt metadata is incomplete."
    }
}

/// The overview of a run.
pub open spec fn overview_text(
    run: RunRecordView,
    history: Seq<char>,
    observation: Seq<char>,
    attempt: Seq<char>,
    policy: Seq<char>,
) -> Seq<char> {
    "Run ID: "@
        + run.run_id
        + "\nStatus: "@
        + status_word(run.status)
        + "\nRunner: "@
        + runner_word(run.runner)
        + "\nHost: "@
        + run.host
        + "\nHandle: "@
        + or_dash(run.job_id)
        + "\nWorkspace: "@
        + workspace_text(run)
        + "\nUpdated: "@
        + run.updated_at.rfc3339_view()
        + "\n\nAttempt history\n"@
        + history
        + "\n\nSelected observation\n"@
        + observation
        + "\n\nSelected Attempt\n"@
        + attempt
        + "\n\nRetry policy\n"@
        + policy
}

fn show_overview(
    run: &RunRecord,
    history: &str,
    observation: &str,
    attempt: &str,
    policy: &str,
) -> (shown: String)
    requires
        run.updated_at.dated(),
    ensures
        shown@ == overview_text(run@, history@, observation@, attempt@, policy@),
{
    let workspace = match &run.workspace {
        Some(workspace) => {
            let mut shown = workspace.host_alias.clone();
            shown.append(":");
            shown.append(workspace.cwd.as_str());
            shown
        },
        None => "-".to_owned(),
    };
    let mut shown = "Run ID: ".to_owned();
    shown.append(run.run_id.as_str());
    shown.append("\nStatus: ");
    shown.append(status_label(run.status));
    shown.append("\nRunner: ");
    shown.append(runner_label(run.runner));
    shown.append("\nHost: ");
    shown.append(run.host.as_str());
    shown.append("\nHandle: ");
    shown.append(show_or_dash(&run.job_id).as_str());
    shown.append("\nWorkspace: ");
    shown.append(workspace.as_str());
    shown.append("\nUpdated: ");
    shown.append(run.updated_at.to_rfc3339().as_str());
    shown.append("\n\nAttempt history\n");
    shown.append(history);
    shown.append("\n\nSelected observation\n");
    shown.append(observation);
    shown.append("\n\nSelected Attempt\n");
    shown.append(attempt);
    shown.append("\n\nRetry policy\n");
    shown.append(policy);
    shown
}

/// What is known of a run: each part, or why it is not known.
pub struct DetailParts {
    pub run: RunRecord,
    pub observation: Option<ObservationRecord>,
    pub attempt: Option<RunAttemptRecord>,
    /// The JSON text of the attempt's resources.
    pub resources: String,
    pub attempts: Vec<RunAttemptRecord>,
    pub selected_attempt_no: Option<u32>,
    pub attempt_error: Option<String>,
    pub continuation: RunContinuationStatus,
    pub continuation_error: Option<String>,
    pub events: Vec<DetailEvent>,
    pub events_error: Option<String>,
    pub logs: String,
    pub artifacts: String,
}

impl DetailParts {
    /// Every moment that is shown has a date.
    pub open spec fn dated(self) -> bool {
        &&& self.run.updated_at.dated()
        &&& self.observation.deep_view() matches Some(seen) ==> seen.observed_at.dated()
        &&& self.attempt.deep_view() matches Some(attempt) ==> attempt.created_at.dated()
        &&& forall|i: int| 0 <= i < self.events@.len() ==> (#[trigger] self.events@[i]).at.dated()
    }
}

/// Everything about one run, by what is known of it.
pub open spec fn detail_of(parts: DetailParts) -> RunDetailViewView {
    let run = parts.run@;
    let attempt = parts.attempt.deep_view();
    let continuation = parts.continuation@;
    let continuation_error = text::text_opt(parts.continuation_error);
    let selected = parts.selected_attempt_no;
    let numbers = parts.attempts.deep_view().map_values(number_of());
    RunDetailViewView {
        run_id: run.run_id,
        title: shown_name(run),
        selected_attempt_no: selected,
        attempt_numbers: numbers,
        attempt_label: selection_text(selected, numbers, run.attempt_no),
        overview: overview_text(
            run,
            history_text(parts.attempts.deep_view()),
            seen_text(parts.observation.deep_view()),
            attempt_text(attempt, parts.resources@, text::text_opt(parts.attempt_error)),
            policy_of(run, attempt, selected, continuation, continuation_error),
        ),
        logs: parts.logs@,
        artifacts: parts.artifacts@,
        timeline: timeline_text(parts.events.deep_view(), text::text_opt(parts.events_error)),
        continuation: continuation_text(continuation, continuation_error),
        retry_context: retry_of(run, attempt, selected, continuation, continuation_error),
        can_cancel: selected == run.attempt_no && !run.status.terminal(),
    }
}

fn list_numbers(attempts: &Vec<RunAttemptRecord>) -> (numbers: Vec<u32>)
    ensures
        numbers@ == attempts.deep_view().map_values(number_of()),
{
    let mut numbers: Vec<u32> = Vec::new();
    let mut i: usize = 0;
    while i < attempts.len()
        invariant
            i <= attempts@.len(),
            numbers@ =~= attempts.deep_view().map_values(number_of()).take(i as int),
        decreases attempts@.len() - i,
    {
        numbers.push(attempts[i].attempt_no);
        i += 1;
    }
    assert(numbers@ =~= attempts.deep_view().map_values(number_of()));
    numbers
}

pub fn build_detail(parts: DetailParts) -> (detail: RunDetailView)
    requires
        parts.dated(),
    ensures
        detail@ == detail_of(parts),
{
    let run = &parts.run;
    let selected = parts.selected_attempt_no;
    let retry_context = find_retry(
        run,
        &parts.attempt,
        selected,
        &parts.continuation,
        &parts.continuation_error,
    );
    let policy = choose_policy(
        run,
        selected,
        &parts.continuation,
        &parts.continuation_error,
        retry_context.is_some(),
    );
    assert(policy@ == policy_of(
        run@,
        parts.attempt.deep_view(),
        selected,
        parts.continuation@,
        text::text_opt(parts.continuation_error),
    ));
    let history = show_history(&parts.attempts);
    let observation = show_seen(&parts.observation);
    let attempt = show_attempt(&parts.attempt, parts.resources.as_str(), &parts.attempt_error);
    let overview = show_overview(
        run,
        history.as_str(),
        observation.as_str(),
        attempt.as_str(),
        policy,
    );
    let attempt_numbers = list_numbers(&parts.attempts);
    let attempt_label = show_selection(selected, &attempt_numbers, run.attempt_no);
    let timeline = show_timeline(&parts.events, &parts.events_error);
    let continuation = show_continuation(&parts.continuation, &parts.continuation_error);
    let can_cancel = selected == run.attempt_no && !run.status.is_terminal();
    RunDetailView {
        run_id: run.run_id.clone(),
        title: show_name(run),
        selected_attempt_no: selected,
        attempt_numbers,
        attempt_label,
        overview,
        logs: parts.logs,
        artifacts: parts.artifacts,
        timeline,
        continuation,
        retry_context,
        can_cancel,
    }
}

// ---------------------------------------------------------------------------
// Laws
// ---------------------------------------------------------------------------

/// Looking at a run never changes its status: it is shown as it is stored, and
/// what was seen only calls for attention.
pub proof fn row_keeps_status(
    run: RunRecordView,
    observation: Option<ObservationRecordView>,
    continuation: Option<RunContinuationStatusView>,
    now: Timestamp,
)
    ensures
        row_of(run, observation, continuation, now).status == run.status,
        observation matches Some(seen) && seen.health != ObservationHealth::Fresh ==> row_of(
            run,
            observation,
            continuation,
            now,
        ).attention,
        row_of(run, observation, continuation, now).attention <==> row_of(
            run,
            observation,
            continuation,
            now,
        ).attention_reason is Some,
{
}

/// The list has one row for each run.
pub proof fn dashboard_lists_every_run(
    runs: Seq<RunRecordView>,
    observations: Seq<ObservationRecordView>,
    continuations: Seq<RunContinuationStatusView>,
    now: Timestamp,
)
    ensures
        dashboard_rows(runs, observations, continuations, now).len() == runs.len(),
        dashboard_rows(runs, observations, continuations, now).to_multiset() == runs.map_values(
            projected(observations, continuations, now),
        ).to_multiset(),
{
    seqs::sort_keeps_items(
        runs.map_values(projected(observations, continuations, now)),
        priority_order(),
    );
}

/// Each order of the list puts no run before one that goes before it.
pub proof fn sorting_orders_rows(rows: Seq<RunRowView>)
    ensures
        seqs::weakly_ordered(priority_order()),
        seqs::weakly_ordered(newest_order()),
        seqs::weakly_ordered(run_name_order()),
        seqs::weakly_ordered(host_order()),
        forall|i: int, j: int|
            0 <= i < j < sorted_rows(rows, RunSort::Newest).len() ==> !newest_order()(
                #[trigger] sorted_rows(rows, RunSort::Newest)[j],
                #[trigger] sorted_rows(rows, RunSort::Newest)[i],
            ),
        forall|i: int, j: int|
            0 <= i < j < sorted_rows(rows, RunSort::Name).len() ==> !run_name_order()(
                #[trigger] sorted_rows(rows, RunSort::Name)[j],
                #[trigger] sorted_rows(rows, RunSort::Name)[i],
            ),
        forall|i: int, j: int|
            0 <= i < j < sorted_rows(rows, RunSort::Host).len() ==> !host_order()(
                #[trigger] sorted_rows(rows, RunSort::Host)[j],
                #[trigger] sorted_rows(rows, RunSort::Host)[i],
            ),
{
    text::precedes_is_an_order();
    assert(seqs::weakly_ordered(newest_order()));
    assert(seqs::weakly_ordered(priority_order()));
    assert(seqs::weakly_ordered(run_name_order()));
    assert(seqs::weakly_ordered(host_order()));
    seqs::sort_is_ordered(rows, newest_order());
    seqs::sort_is_ordered(rows, run_name_order());
    seqs::sort_is_ordered(rows, host_order());
}

/// A person is offered a retry only for the current attempt of a run that
/// failed or was cancelled, and never where an agent is bound or that is not
/// known.
pub proof fn retry_is_offered_with_care(parts: DetailParts)
    requires
        detail_of(parts).retry_context is Some,
    ensures
        has_broken(parts.run@.status),
        parts.selected_attempt_no is Some,
        parts.selected_attempt_no == parts.run@.attempt_no,
        parts.continuation_error is None,
        !parts.continuation@.configured,
        parts.attempt.deep_view() matches Some(attempt) && has_broken(attempt.status),
{
}

/// A run can be cancelled from its current attempt only, and only while it is
/// live.
pub proof fn cancel_is_offered_with_care(parts: DetailParts)
    requires
        detail_of(parts).can_cancel,
    ensures
        !parts.run@.status.terminal(),
        parts.selected_attempt_no == parts.run@.attempt_no,
{
}

} // verus!
