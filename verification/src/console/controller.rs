//! What the console asks for, and what it makes of the answers.
use crate::console::model;
use crate::console::model::{
    build_detail, DaemonFacts, DetailEvent, DetailEventView, DetailParts, HostCardView,
    HostCardViewView, RunDetailView,
};
use crate::console::notifications::{Notice, NoticeKind, NoticeView};
use crate::console::settings::GuiSettings;
use crate::seqs;
use crate::text;
use crate::text::{decimal_text, join, same};
use crate::types::{
    ObservationRecord, RetryRunSpec, RetryRunSpecView, RunAttemptRecord, RunAttemptRecordView,
    RunContinuationStatus, RunRecord, SubmitRunSpec, SubmitRunSpecView,
};
use vstd::prelude::*;
use vstd::string::*;

verus! {

/// The most events of a run that are asked for.
pub const MAX_EVENTS: usize = 200;

/// The most lines of a run's logs that are asked for.
pub const MAX_LOG_LINES: usize = 500;

/// What the console wants done.
#[derive(Debug)]
pub enum Command {
    Refresh,
    SetPaused(bool),
    LoadDetail {
        request_id: u64,
        run_id: String,
        attempt_no: Option<u32>,
        tail: usize,
        event_limit: usize,
    },
    Cancel(String),
    Probe(String),
    SubmitManual(SubmitRunSpec),
    Retry(RetryRunSpec),
    SetDaemonAutostart(bool),
    SetGuiAutostart(bool),
    SaveGuiSettings(GuiSettings),
}

/// What a `Command` says.
pub enum CommandView {
    Refresh,
    SetPaused(bool),
    LoadDetail {
        request_id: u64,
        run_id: Seq<char>,
        attempt_no: Option<u32>,
        tail: usize,
        event_limit: usize,
    },
    Cancel(Seq<char>),
    Probe(Seq<char>),
    SubmitManual(SubmitRunSpecView),
    Retry(RetryRunSpecView),
    SetDaemonAutostart(bool),
    SetGuiAutostart(bool),
    SaveGuiSettings(GuiSettings),
}

impl View for Command {
    type V = CommandView;

    open spec fn view(&self) -> CommandView {
        match self {
            Command::Refresh => CommandView::Refresh,
            Command::SetPaused(paused) => CommandView::SetPaused(*paused),
            Command::LoadDetail { request_id, run_id, attempt_no, tail, event_limit } =>
                CommandView::LoadDetail {
                request_id: *request_id,
                run_id: run_id@,
                attempt_no: *attempt_no,
                tail: *tail,
                event_limit: *event_limit,
            },
            Command::Cancel(run_id) => CommandView::Cancel(run_id@),
            Command::Probe(run_id) => CommandView::Probe(run_id@),
            Command::SubmitManual(spec) => CommandView::SubmitManual(spec@),
            Command::Retry(spec) => CommandView::Retry(spec@),
            Command::SetDaemonAutostart(enabled) => CommandView::SetDaemonAutostart(*enabled),
            Command::SetGuiAutostart(enabled) => CommandView::SetGuiAutostart(*enabled),
            Command::SaveGuiSettings(settings) => CommandView::SaveGuiSettings(*settings),
        }
    }
}

/// What comes of a click, besides what the page then shows.
#[derive(Debug)]
pub enum Reaction {
    Nothing,
    /// A line that is shown for a moment.
    Toast(&'static str),
    Send(Command),
    /// A text for the clipboard, and the line that says so.
    Copy { value: String, toast: &'static str },
}

/// What a `Reaction` says.
pub enum ReactionView {
    Nothing,
    Toast(Seq<char>),
    Send(CommandView),
    Copy { value: Seq<char>, toast: Seq<char> },
}

impl View for Reaction {
    type V = ReactionView;

    open spec fn view(&self) -> ReactionView {
        match self {
            Reaction::Nothing => ReactionView::Nothing,
            Reaction::Toast(toast) => ReactionView::Toast(toast@),
            Reaction::Send(command) => ReactionView::Send(command@),
            Reaction::Copy { value, toast } => ReactionView::Copy { value: value@, toast: toast@ },
        }
    }
}

// ---------------------------------------------------------------------------
// The daemon
// ---------------------------------------------------------------------------

/// Holds of the name of a capability.
pub open spec fn is_named(name: Seq<char>) -> spec_fn(Option<Seq<char>>) -> bool {
    |capability: Option<Seq<char>>| capability == Some(name)
}

/// The names in a list in which something else may stand too.
pub open spec fn names_in(capabilities: Seq<Option<String>>) -> Seq<Option<Seq<char>>> {
    capabilities.map_values(|name: Option<String>| text::text_opt(name))
}

fn advertises(capabilities: &Vec<Option<String>>, name: &str) -> (yes: bool)
    ensures
        yes == seqs::present(names_in(capabilities@), is_named(name@)),
{
    let ghost names = names_in(capabilities@);
    let mut i: usize = 0;
    while i < capabilities.len()
        invariant
            i <= capabilities@.len(),
            names == names_in(capabilities@),
            forall|j: int| 0 <= j < i ==> !is_named(name@)(#[trigger] names[j]),
        decreases capabilities@.len() - i,
    {
        assert(names[i as int] == text::text_opt(capabilities@[i as int]));
        if let Some(capability) = &capabilities[i] {
            if same(capability.as_str(), name) {
                proof {
                    seqs::lemma_present(names, is_named(name@));
                }
                return true;
            }
        }
        i += 1;
    }
    proof {
        seqs::lemma_present(names, is_named(name@));
    }
    false
}

/// What the daemon says of itself, where its answers may leave things out.
pub fn read_daemon(
    version: Option<String>,
    protocol: Option<u64>,
    capabilities: &Option<Vec<Option<String>>>,
    pid: Option<u64>,
    paused: Option<bool>,
) -> (facts: DaemonFacts)
    ensures
        facts.version@ == match version {
            Some(version) => version@,
            None => "unknown"@,
        },
        facts.protocol == protocol.unwrap_or(0),
        facts.pid == pid.unwrap_or(0),
        facts.paused == (paused == Some(true)),
        match capabilities {
            None => {
                &&& facts.capabilities == 0
                &&& !facts.manual_submit_supported
                &&& !facts.retry_supported
            },
            Some(list) => {
                &&& facts.capabilities == list@.len()
                &&& facts.manual_submit_supported == seqs::present(
                    names_in(list@),
                    is_named("submit_run_v2"@),
                )
                &&& facts.retry_supported == seqs::present(
                    names_in(list@),
                    is_named("retry_run_v1"@),
                )
            },
        },
{
    let version = match version {
        Some(version) => version,
        None => "unknown".to_owned(),
    };
    let protocol = match protocol {
        Some(protocol) => protocol,
        None => 0,
    };
    let pid = match pid {
        Some(pid) => pid,
        None => 0,
    };
    let paused = match paused {
        Some(paused) => paused,
        None => false,
    };
    match capabilities {
        None => DaemonFacts {
            version,
            protocol,
            capabilities: 0,
            pid,
            paused,
            manual_submit_supported: false,
            retry_supported: false,
        },
        Some(list) => DaemonFacts {
            version,
            protocol,
            capabilities: list.len(),
            pid,
            paused,
            manual_submit_supported: advertises(list, "submit_run_v2"),
            retry_supported: advertises(list, "retry_run_v1"),
        },
    }
}

// ---------------------------------------------------------------------------
// One run
// ---------------------------------------------------------------------------

pub open spec fn clamped(value: int, most: int) -> int {
    if value < 1 {
        1
    } else if value > most {
        most
    } else {
        value
    }
}

/// How many events are asked for.
pub fn event_count(limit: usize) -> (count: usize)
    ensures
        count == clamped(limit as int, MAX_EVENTS as int),
{
    if limit < 1 {
        1
    } else if limit > MAX_EVENTS {
        MAX_EVENTS
    } else {
        limit
    }
}

/// How many lines of the logs are asked for.
pub fn log_line_count(tail: usize) -> (count: usize)
    ensures
        count == clamped(tail as int, MAX_LOG_LINES as int),
{
    if tail < 1 {
        1
    } else if tail > MAX_LOG_LINES {
        MAX_LOG_LINES
    } else {
        tail
    }
}

/// Which attempt is shown: the one that is asked for, or else the run's own.
pub fn shown_attempt(requested: Option<u32>, current: Option<u32>) -> (number: Option<u32>)
    ensures
        number == (if requested is Some {
            requested
        } else {
            current
        }),
{
    match requested {
        Some(number) => Some(number),
        None => current,
    }
}

pub open spec fn logs_text(stdout: Seq<char>, stderr: Seq<char>) -> Seq<char> {
    "STDOUT\n"@ + stdout + "\n\nSTDERR\n"@ + stderr
}

pub fn format_logs(stdout: &str, stderr: &str) -> (shown: String)
    ensures
        shown@ == logs_text(stdout@, stderr@),
{
    let mut shown = "STDOUT\n".to_owned();
    shown.append(stdout);
    shown.append("\n\nSTDERR\n");
    shown.append(stderr);
    shown
}

/// A file of a run, as far as it is named.
#[derive(Debug)]
pub struct ArtifactLine {
    pub kind: Option<String>,
    pub path: Option<String>,
}

/// What a `ArtifactLine` says.
pub struct ArtifactLineView {
    pub kind: Option<Seq<char>>,
    pub path: Option<Seq<char>>,
}

impl View for ArtifactLine {
    type V = ArtifactLineView;

    open spec fn view(&self) -> ArtifactLineView {
        ArtifactLineView {
            kind: text::text_opt(self.kind),
            path: text::text_opt(self.path),
        }
    }
}

impl DeepView for ArtifactLine {
    type V = ArtifactLineView;

    open spec fn deep_view(&self) -> ArtifactLineView {
        self.view()
    }
}

/// A file of a run and where it lies.
pub open spec fn artifact_item() -> spec_fn(ArtifactLineView) -> Seq<char> {
    |line: ArtifactLineView|
        (match line.kind {
            Some(kind) => kind,
            None => "artifact"@,
        }) + "\n"@ + (match line.path {
            Some(path) => path,
            None => "-"@,
        })
}

pub open spec fn artifacts_text(lines: Seq<ArtifactLineView>) -> Seq<char> {
    if lines.len() == 0 {
        "No lifecycle artifacts reported."@
    } else {
        text::joined(lines.map_values(artifact_item()), "\n\n"@)
    }
}

pub fn format_artifacts(lines: &Vec<ArtifactLine>) -> (shown: String)
    ensures
        shown@ == artifacts_text(lines.deep_view()),
{
    assert(lines.deep_view().len() == lines@.len());
    if lines.len() == 0 {
        return "No lifecycle artifacts reported.".to_owned();
    }
    let ghost wanted = lines.deep_view().map_values(artifact_item());
    let mut items: Vec<String> = Vec::new();
    let mut i: usize = 0;
    while i < lines.len()
        invariant
            i <= lines@.len(),
            wanted == lines.deep_view().map_values(artifact_item()),
            text::texts(items@) =~= wanted.take(i as int),
        decreases lines@.len() - i,
    {
        let mut item = match &lines[i].kind {
            Some(kind) => kind.clone(),
            None => "artifact".to_owned(),
        };
        item.append("\n");
        match &lines[i].path {
            Some(path) => item.append(path.as_str()),
            None => item.append("-"),
        }
        proof {
            assert(lines.deep_view()[i as int] == lines@[i as int]@);
            text::lemma_texts_push(items@, item);
        }
        items.push(item);
        i += 1;
    }
    assert(text::texts(items@) =~= wanted);
    join(&items, "\n\n")
}

/// What came back when the parts of a run were asked for.
pub struct DetailAnswers {
    pub run: RunRecord,
    pub requested_attempt_no: Option<u32>,
    pub observation: Option<ObservationRecord>,
    pub attempt: Result<Option<RunAttemptRecord>, String>,
    /// The attempt's resources as they are shown.
    pub resources: String,
    pub attempts: Option<Vec<RunAttemptRecord>>,
    pub continuation: Result<RunContinuationStatus, String>,
    pub events: Result<Vec<DetailEvent>, String>,
    pub logs: Result<(String, String), String>,
    pub artifacts: Result<Vec<ArtifactLine>, String>,
}

impl DetailAnswers {
    /// Every moment that is shown has a date.
    pub open spec fn dated(self) -> bool {
        &&& self.run.updated_at.dated()
        &&& self.observation.deep_view() matches Some(seen) ==> seen.observed_at.dated()
        &&& self.attempt matches Ok(Some(attempt)) ==> attempt.created_at.dated()
        &&& self.events matches Ok(events) ==> forall|i: int|
            0 <= i < events@.len() ==> (#[trigger] events@[i]).at.dated()
    }

    /// Whether the parts stand for these answers: what could not be had is
    /// empty, and the reason stands beside it.
    pub open spec fn makes(self, parts: DetailParts) -> bool {
        &&& parts.run@ == self.run@
        &&& parts.observation.deep_view() == self.observation.deep_view()
        &&& parts.resources@ == self.resources@
        &&& parts.selected_attempt_no == if self.requested_attempt_no is Some {
            self.requested_attempt_no
        } else {
            self.run.attempt_no
        }
        &&& parts.attempts.deep_view() == match self.attempts {
            Some(attempts) => attempts.deep_view(),
            None => Seq::empty(),
        }
        &&& match self.attempt {
            Ok(attempt) => parts.attempt.deep_view() == attempt.deep_view()
                && parts.attempt_error is None,
            Err(error) => parts.attempt is None && text::text_opt(parts.attempt_error) == Some(
                error@,
            ),
        }
        &&& match self.continuation {
            Ok(status) => parts.continuation@ == status@ && parts.continuation_error is None,
            Err(error) => parts.continuation@ == RunContinuationStatus::idle(
                Seq::empty(),
            ) && text::text_opt(parts.continuation_error) == Some(error@),
        }
        &&& match self.events {
            Ok(events) => parts.events.deep_view() == events.deep_view() && parts.events_error
                is None,
            Err(error) => parts.events.deep_view() == Seq::<DetailEventView>::empty()
                && text::text_opt(parts.events_error) == Some(error@),
        }
        &&& parts.logs@ == match self.logs {
            Ok(logs) => logs_text(logs.0@, logs.1@),
            Err(error) => "Logs unavailable\n"@ + error@,
        }
        &&& parts.artifacts@ == match self.artifacts {
            Ok(lines) => artifacts_text(lines.deep_view()),
            Err(error) => "Artifacts unavailable\n"@ + error@,
        }
    }
}

/// Everything about a run, from what could be had of it.
pub fn load_detail(answers: DetailAnswers) -> (detail: RunDetailView)
    requires
        answers.dated(),
    ensures
        exists|parts: DetailParts| #[trigger]
            answers.makes(parts) && detail@ == model::detail_of(parts),
{
    let ghost given = answers;
    let selected_attempt_no = shown_attempt(answers.requested_attempt_no, answers.run.attempt_no);
    let attempts = match answers.attempts {
        Some(attempts) => attempts,
        None => {
            let none: Vec<RunAttemptRecord> = Vec::new();
            assert(none.deep_view() =~= Seq::<RunAttemptRecordView>::empty());
            none
        },
    };
    let (attempt, attempt_error) = match answers.attempt {
        Ok(attempt) => (attempt, None),
        Err(error) => (None, Some(error)),
    };
    let (continuation, continuation_error) = match answers.continuation {
        Ok(status) => (status, None),
        Err(error) => (RunContinuationStatus::default(), Some(error)),
    };
    let (events, events_error) = match answers.events {
        Ok(events) => (events, None),
        Err(error) => {
            let none: Vec<DetailEvent> = Vec::new();
            assert(none.deep_view() =~= Seq::<DetailEventView>::empty());
            (none, Some(error))
        },
    };
    let logs = match &answers.logs {
        Ok(logs) => format_logs(logs.0.as_str(), logs.1.as_str()),
        Err(error) => {
            let mut logs = "Logs unavailable\n".to_owned();
            logs.append(error.as_str());
            logs
        },
    };
    let artifacts = match &answers.artifacts {
        Ok(lines) => format_artifacts(lines),
        Err(error) => {
            let mut artifacts = "Artifacts unavailable\n".to_owned();
            artifacts.append(error.as_str());
            artifacts
        },
    };
    let parts = DetailParts {
        run: answers.run,
        observation: answers.observation,
        attempt,
        resources: answers.resources,
        attempts,
        selected_attempt_no,
        attempt_error,
        continuation,
        continuation_error,
        events,
        events_error,
        logs,
        artifacts,
    };
    assert(given.makes(parts));
    build_detail(parts)
}

// ---------------------------------------------------------------------------
// Hosts and the package
// ---------------------------------------------------------------------------

pub open spec fn endpoint_text(user: Option<Seq<char>>, hostname: Seq<char>, port: u16) -> Seq<char> {
    (match user {
        Some(user) => user,
        None => "?"@,
    }) + "@"@ + hostname + ":"@ + text::decimal(port as nat)
}

pub open spec fn route_text(proxy_jump: Seq<Seq<char>>) -> Seq<char> {
    if proxy_jump.len() == 0 {
        "Direct"@
    } else {
        "ProxyJump · "@ + text::joined(proxy_jump, " → "@)
    }
}

/// The card of a host, by what is set for it; its runs are not counted yet.
pub fn host_card(
    alias: &str,
    user: Option<&str>,
    hostname: &str,
    port: u16,
    proxy_jump: &Vec<String>,
) -> (card: HostCardView)
    ensures
        card@ == (HostCardViewView {
            alias: alias@,
            endpoint: endpoint_text(
                match user {
                    Some(user) => Some(user@),
                    None => None,
                },
                hostname@,
                port,
            ),
            route: route_text(text::texts(proxy_jump@)),
            live_runs: 0,
        }),
{
    let mut endpoint = match user {
        Some(user) => user.to_owned(),
        None => "?".to_owned(),
    };
    endpoint.append("@");
    endpoint.append(hostname);
    endpoint.append(":");
    endpoint.append(decimal_text(port as u64).as_str());
    assert(text::texts(proxy_jump@).len() == proxy_jump@.len());
    let route = if proxy_jump.len() == 0 {
        "Direct".to_owned()
    } else {
        let mut route = "ProxyJump · ".to_owned();
        route.append(join(proxy_jump, " → ").as_str());
        route
    };
    HostCardView { alias: alias.to_owned(), endpoint, route, live_runs: 0 }
}

/// What is beside the console's own program.
pub enum Siblings {
    NoExecutable,
    NoDirectory,
    Found { runwatch: bool, mcp: bool, gui: bool },
}

/// The names of the programs that are not there.
pub open spec fn missing_names(runwatch: bool, mcp: bool, gui: bool) -> Seq<Seq<char>> {
    (if runwatch {
        Seq::empty()
    } else {
        seq!["runwatch.exe"@]
    }) + (if mcp {
        Seq::empty()
    } else {
        seq!["runwatch-mcp.exe"@]
    }) + (if gui {
        Seq::empty()
    } else {
        seq!["runwatch-gui.exe"@]
    })
}

pub fn package_summary(siblings: Siblings) -> (summary: String)
    ensures
        summary@ == match siblings {
            Siblings::NoExecutable => "package: current executable unavailable"@,
            Siblings::NoDirectory => "package: executable directory unavailable"@,
            Siblings::Found { runwatch, mcp, gui } => if runwatch && mcp && gui {
                "package siblings: complete"@
            } else {
                "package siblings missing: "@ + text::joined(
                    missing_names(runwatch, mcp, gui),
                    ", "@,
                )
            },
        },
{
    match siblings {
        Siblings::NoExecutable => "package: current executable unavailable".to_owned(),
        Siblings::NoDirectory => "package: executable directory unavailable".to_owned(),
        Siblings::Found { runwatch, mcp, gui } => {
            if runwatch && mcp && gui {
                return "package siblings: complete".to_owned();
            }
            let mut missing: Vec<String> = Vec::new();
            if !runwatch {
                missing.push("runwatch.exe".to_owned());
            }
            if !mcp {
                missing.push("runwatch-mcp.exe".to_owned());
            }
            if !gui {
                missing.push("runwatch-gui.exe".to_owned());
            }
            assert(text::texts(missing@) =~= missing_names(runwatch, mcp, gui));
            let mut summary = "package siblings missing: ".to_owned();
            summary.append(join(&missing, ", ").as_str());
            summary
        },
    }
}

/// The daemon's program beside the console's own, where it is a file.
pub fn sibling_cli(exe: &str, cli: &str, is_file: bool) -> (result: Result<String, String>)
    ensures
        match result {
            Ok(path) => is_file && path@ == cli@,
            Err(reason) => !is_file && reason@ == "runwatch.exe is not next to "@ + exe@,
        },
{
    if is_file {
        Ok(cli.to_owned())
    } else {
        let mut reason = "runwatch.exe is not next to ".to_owned();
        reason.append(exe);
        Err(reason)
    }
}

// ---------------------------------------------------------------------------
// Notices
// ---------------------------------------------------------------------------

fn notice(kind: NoticeKind, title: &str, body: &str) -> (notice: Notice)
    ensures
        notice@ == (NoticeView { kind, title: title@, body: body@ }),
{
    Notice { kind, title: title.to_owned(), body: body.to_owned() }
}

pub fn no_runtime_notice() -> (told: Notice)
    ensures
        told@ == (NoticeView {
            kind: NoticeKind::Attention,
            title: "runwatch GUI"@,
            body: "Could not create the background runtime"@,
        }),
{
    notice(NoticeKind::Attention, "runwatch GUI", "Could not create the background runtime")
}

pub fn pause_failed_notice(error: &str) -> (told: Notice)
    ensures
        told@ == (NoticeView {
            kind: NoticeKind::Attention,
            title: "Polling control failed"@,
            body: error@,
        }),
{
    notice(NoticeKind::Attention, "Polling control failed", error)
}

pub fn detail_failed_notice(run_id: &str, error: &str) -> (told: Notice)
    ensures
        told@ == (NoticeView {
            kind: NoticeKind::Attention,
            title: "Could not load "@ + run_id@,
            body: error@,
        }),
{
    let mut title = "Could not load ".to_owned();
    title.append(run_id);
    notice(NoticeKind::Attention, title.as_str(), error)
}

/// What is told of a request to cancel a run: even where it was taken, the run
/// has not ended yet.
pub fn cancel_notice(run_id: &str, result: &Result<(), String>) -> (told: Notice)
    ensures
        told@ == match *result {
            Ok(_) => NoticeView {
                kind: NoticeKind::Success,
                title: "Cancel requested"@,
                body: run_id@ + "; final state still follows durable observation"@,
            },
            Err(error) => NoticeView {
                kind: NoticeKind::Attention,
                title: "Cancel failed"@,
                body: error@,
            },
        },
{
    match result {
        Ok(_) => {
            let mut body = run_id.to_owned();
            body.append("; final state still follows durable observation");
            notice(NoticeKind::Success, "Cancel requested", body.as_str())
        },
        Err(error) => notice(NoticeKind::Attention, "Cancel failed", error.as_str()),
    }
}

/// What is told when a run was looked at.
pub fn probe_notice(run_id: &str, result: &Result<Vec<String>, String>) -> (told: Notice)
    ensures
        told@ == match *result {
            Ok(errors) => if errors@.len() == 0 {
                NoticeView {
                    kind: NoticeKind::Success,
                    title: "Observation refreshed"@,
                    body: run_id@,
                }
            } else {
                NoticeView {
                    kind: NoticeKind::Attention,
                    title: "Observation refreshed with issues"@,
                    body: text::joined(text::texts(errors@), "; "@),
                }
            },
            Err(error) => NoticeView {
                kind: NoticeKind::Attention,
                title: "Probe failed"@,
                body: error@,
            },
        },
{
    match result {
        Ok(errors) => {
            if errors.len() == 0 {
                return notice(NoticeKind::Success, "Observation refreshed", run_id);
            }
            notice(
                NoticeKind::Attention,
                "Observation refreshed with issues",
                join(errors, "; ").as_str(),
            )
        },
        Err(error) => notice(NoticeKind::Attention, "Probe failed", error.as_str()),
    }
}

#[derive(Debug, Clone, Copy, PartialEq, Eq, Structural)]
pub enum AutostartTarget {
    Daemon,
    Gui,
}

pub open spec fn target_name(target: AutostartTarget) -> Seq<char> {
    match target {
        AutostartTarget::Daemon => "Resident runwatchd"@,
        AutostartTarget::Gui => "GUI autostart"@,
    }
}

pub fn autostart_notice(
    target: AutostartTarget,
    enabled: bool,
    result: &Result<(), String>,
) -> (told: Notice)
    ensures
        told@ == match *result {
            Ok(_) => NoticeView {
                kind: NoticeKind::Success,
                title: target_name(target),
                body: if enabled {
                    "enabled"@
                } else {
                    "disabled"@
                },
            },
            Err(error) => NoticeView {
                kind: NoticeKind::Attention,
                title: target_name(target) + " change failed"@,
                body: error@,
            },
        },
{
    let name = match target {
        AutostartTarget::Daemon => "Resident runwatchd",
        AutostartTarget::Gui => "GUI autostart",
    };
    match result {
        Ok(_) => notice(
            NoticeKind::Success,
            name,
            if enabled {
                "enabled"
            } else {
                "disabled"
            },
        ),
        Err(error) => {
            let mut title = name.to_owned();
            title.append(" change failed");
            notice(NoticeKind::Attention, title.as_str(), error.as_str())
        },
    }
}

pub open spec fn submitted_notice(run_id: Seq<char>, error: Option<Seq<char>>) -> NoticeView {
    match error {
        None => NoticeView {
            kind: NoticeKind::Success,
            title: "Run submitted"@,
            body: run_id,
        },
        Some(error) => NoticeView {
            kind: NoticeKind::Attention,
            title: "Run submission failed"@,
            body: error,
        },
    }
}

pub fn submit_notice(run_id: &str, error: &Option<String>) -> (told: Notice)
    ensures
        told@ == submitted_notice(run_id@, text::text_opt(*error)),
{
    match error {
        None => notice(NoticeKind::Success, "Run submitted", run_id),
        Some(error) => notice(
            NoticeKind::Attention,
            "Run submission failed",
            error.as_str(),
        ),
    }
}

pub open spec fn retried_notice(run_id: Seq<char>, error: Option<Seq<char>>) -> NoticeView {
    match error {
        None => NoticeView {
            kind: NoticeKind::Success,
            title: "Run retry submitted"@,
            body: run_id + "; runwatchd durably owns the new Attempt"@,
        },
        Some(error) => NoticeView {
            kind: NoticeKind::Attention,
            title: "Run retry failed"@,
            body: error,
        },
    }
}

pub fn retry_notice(run_id: &str, error: &Option<String>) -> (told: Notice)
    ensures
        told@ == retried_notice(run_id@, text::text_opt(*error)),
{
    match error {
        None => {
            let mut body = run_id.to_owned();
            body.append("; runwatchd durably owns the new Attempt");
            notice(NoticeKind::Success, "Run retry submitted", body.as_str())
        },
        Some(error) => notice(NoticeKind::Attention, "Run retry failed", error.as_str()),
    }
}

/// A notice as one line.
pub fn notice_message(told: &Notice) -> (message: String)
    ensures
        message@ == told@.title + ": "@ + told@.body,
{
    let mut message = told.title.clone();
    message.append(": ");
    message.append(told.body.as_str());
    message
}

} // verus!
