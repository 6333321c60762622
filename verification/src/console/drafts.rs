//! Runs that a user writes down in the console.
use crate::encoding;
use crate::encoding::hex6;
use crate::submission;
use crate::submission::show_runner;
use crate::text;
use crate::text::{
    alphanumeric, blank, char_to_lower, chars_of, contains_break, parse_u32, split_whitespace,
    take_chars, trim, trim_end_matches,
};
use crate::time;
use crate::time::Timestamp;
use crate::types::{
    RemoteWorkspaceRef, RemoteWorkspaceRefView, RetryRunSpec, RetryRunSpecView, RunResources,
    RunResourcesView, RunnerKind, SubmitRunSpec, SubmitRunSpecView,
};
use vstd::prelude::*;
use vstd::string::*;

verus! {

/// How long a run's name may be.
pub const MAX_NAME_CHARS: usize = 120;

/// How much of a command stands for its name.
pub const SUMMARY_CHARS: usize = 42;

/// How much of a name goes into the run's identity.
pub const STEM_CHARS: usize = 24;

#[derive(Debug, Clone, Copy, PartialEq, Eq, Structural)]
pub enum ManualRunner {
    Process,
    Slurm,
    Lsf,
}

impl ManualRunner {
    pub open spec fn kind(self) -> RunnerKind {
        match self {
            ManualRunner::Process => RunnerKind::Process,
            ManualRunner::Slurm => RunnerKind::Slurm,
            ManualRunner::Lsf => RunnerKind::Lsf,
        }
    }

    pub open spec fn word(self) -> Seq<char> {
        match self {
            ManualRunner::Process => "Local Process"@,
            ManualRunner::Slurm => "Slurm"@,
            ManualRunner::Lsf => "LSF"@,
        }
    }

    pub fn runner_kind(self) -> (kind: RunnerKind)
        ensures
            kind == self.kind(),
    {
        match self {
            ManualRunner::Process => RunnerKind::Process,
            ManualRunner::Slurm => RunnerKind::Slurm,
            ManualRunner::Lsf => RunnerKind::Lsf,
        }
    }

    pub fn label(self) -> (label: &'static str)
        ensures
            label@ == self.word(),
    {
        match self {
            ManualRunner::Process => "Local Process",
            ManualRunner::Slurm => "Slurm",
            ManualRunner::Lsf => "LSF",
        }
    }
}

/// A run that is to be started.
#[derive(Debug, PartialEq, Eq)]
pub struct ManualRunDraft {
    pub name: String,
    pub host_alias: String,
    pub cwd: String,
    pub command: String,
    pub time: String,
    pub pool: String,
    pub account: String,
    pub cpus: String,
    pub mem: String,
    pub gpus: String,
}

/// What a `ManualRunDraft` says.
pub struct ManualRunDraftView {
    pub name: Seq<char>,
    pub host_alias: Seq<char>,
    pub cwd: Seq<char>,
    pub command: Seq<char>,
    pub time: Seq<char>,
    pub pool: Seq<char>,
    pub account: Seq<char>,
    pub cpus: Seq<char>,
    pub mem: Seq<char>,
    pub gpus: Seq<char>,
}

impl View for ManualRunDraft {
    type V = ManualRunDraftView;

    open spec fn view(&self) -> ManualRunDraftView {
        ManualRunDraftView {
            name: self.name@,
            host_alias: self.host_alias@,
            cwd: self.cwd@,
            command: self.command@,
            time: self.time@,
            pool: self.pool@,
            account: self.account@,
            cpus: self.cpus@,
            mem: self.mem@,
            gpus: self.gpus@,
        }
    }
}

impl DeepView for ManualRunDraft {
    type V = ManualRunDraftView;

    open spec fn deep_view(&self) -> ManualRunDraftView {
        self.view()
    }
}

impl Clone for ManualRunDraft {
    fn clone(&self) -> (copy: Self)
        ensures
            copy@ == self@,
    {
        ManualRunDraft {
            name: self.name.clone(),
            host_alias: self.host_alias.clone(),
            cwd: self.cwd.clone(),
            command: self.command.clone(),
            time: self.time.clone(),
            pool: self.pool.clone(),
            account: self.account.clone(),
            cpus: self.cpus.clone(),
            mem: self.mem.clone(),
            gpus: self.gpus.clone(),
        }
    }
}

impl Default for ManualRunDraft {
    fn default() -> (draft: Self)
        ensures
            draft@ == (ManualRunDraftView {
                name: Seq::empty(),
                host_alias: Seq::empty(),
                cwd: Seq::empty(),
                command: Seq::empty(),
                time: Seq::empty(),
                pool: Seq::empty(),
                account: Seq::empty(),
                cpus: Seq::empty(),
                mem: Seq::empty(),
                gpus: Seq::empty(),
            }),
    {
        ManualRunDraft {
            name: String::new(),
            host_alias: String::new(),
            cwd: String::new(),
            command: String::new(),
            time: String::new(),
            pool: String::new(),
            account: String::new(),
            cpus: String::new(),
            mem: String::new(),
            gpus: String::new(),
        }
    }
}

/// A run that is to be tried again.
#[derive(Debug, PartialEq, Eq)]
pub struct RetryDraft {
    pub run_id: String,
    pub expected_attempt_no: u32,
    pub request_id: String,
    pub time: String,
    pub pool: String,
    pub account: String,
    pub cpus: String,
    pub mem: String,
    pub gpus: String,
}

/// What a `RetryDraft` says.
pub struct RetryDraftView {
    pub run_id: Seq<char>,
    pub expected_attempt_no: u32,
    pub request_id: Seq<char>,
    pub time: Seq<char>,
    pub pool: Seq<char>,
    pub account: Seq<char>,
    pub cpus: Seq<char>,
    pub mem: Seq<char>,
    pub gpus: Seq<char>,
}

impl View for RetryDraft {
    type V = RetryDraftView;

    open spec fn view(&self) -> RetryDraftView {
        RetryDraftView {
            run_id: self.run_id@,
            expected_attempt_no: self.expected_attempt_no,
            request_id: self.request_id@,
            time: self.time@,
            pool: self.pool@,
            account: self.account@,
            cpus: self.cpus@,
            mem: self.mem@,
            gpus: self.gpus@,
        }
    }
}

impl DeepView for RetryDraft {
    type V = RetryDraftView;

    open spec fn deep_view(&self) -> RetryDraftView {
        self.view()
    }
}

impl Clone for RetryDraft {
    fn clone(&self) -> (copy: Self)
        ensures
            copy@ == self@,
    {
        RetryDraft {
            run_id: self.run_id.clone(),
            expected_attempt_no: self.expected_attempt_no,
            request_id: self.request_id.clone(),
            time: self.time.clone(),
            pool: self.pool.clone(),
            account: self.account.clone(),
            cpus: self.cpus.clone(),
            mem: self.mem.clone(),
            gpus: self.gpus.clone(),
        }
    }
}

// ---------------------------------------------------------------------------
// Fields
// ---------------------------------------------------------------------------

/// What is in a field, where anything is.
pub open spec fn filled(value: Seq<char>) -> Option<Seq<char>> {
    let inner = text::trimmed(value);
    if inner.len() == 0 {
        None
    } else {
        Some(inner)
    }
}

pub fn optional(value: &str) -> (field: Option<String>)
    ensures
        text::text_opt(field) == filled(value@),
{
    let inner = trim(value);
    if inner.as_str().is_empty() {
        None
    } else {
        Some(inner)
    }
}

/// The number in a field, where there is one.
pub open spec fn count_in(label: Seq<char>, value: Seq<char>) -> Result<Option<u32>, Seq<char>> {
    match filled(value) {
        None => Ok(None),
        Some(inner) => match text::parse_up_to(inner, u32::MAX as nat) {
            None => Err(label + " must be a positive integer"@),
            Some(number) => if number == 0 {
                Err(label + " must be greater than zero"@)
            } else {
                Ok(Some(number as u32))
            },
        },
    }
}

pub fn positive_u32(label: &str, value: &str) -> (result: Result<Option<u32>, String>)
    ensures
        match (count_in(label@, value@), result) {
            (Ok(view), Ok(count)) => count == view,
            (Err(why), Err(reason)) => reason@ == why,
            _ => false,
        },
{
    let inner = match optional(value) {
        Some(inner) => inner,
        None => return Ok(None),
    };
    let mut reason = label.to_owned();
    match parse_u32(inner.as_str()) {
        None => {
            reason.append(" must be a positive integer");
            Err(reason)
        },
        Some(number) => if number == 0 {
            reason.append(" must be greater than zero");
            Err(reason)
        } else {
            Ok(Some(number))
        },
    }
}

/// What a scheduler is asked for. The pool is a partition to Slurm and a queue
/// to LSF.
pub open spec fn resources_in(
    runner: RunnerKind,
    time: Seq<char>,
    pool: Seq<char>,
    account: Seq<char>,
    cpus: Seq<char>,
    mem: Seq<char>,
    gpus: Seq<char>,
) -> Result<RunResourcesView, Seq<char>> {
    match (count_in("CPU count"@, cpus), count_in("GPU count"@, gpus)) {
        (Err(why), _) => Err(why),
        (_, Err(why)) => Err(why),
        (Ok(cpus), Ok(gpus)) => Ok(
            RunResourcesView {
                time: filled(time),
                partition: if runner == RunnerKind::Slurm {
                    filled(pool)
                } else {
                    None
                },
                queue: if runner == RunnerKind::Lsf {
                    filled(pool)
                } else {
                    None
                },
                account: filled(account),
                cpus,
                mem: filled(mem),
                gpus,
            },
        ),
    }
}

fn build_resources(
    runner: RunnerKind,
    time: &str,
    pool: &str,
    account: &str,
    cpus: &str,
    mem: &str,
    gpus: &str,
) -> (result: Result<RunResources, String>)
    ensures
        match (resources_in(runner, time@, pool@, account@, cpus@, mem@, gpus@), result) {
            (Ok(view), Ok(resources)) => resources@ == view,
            (Err(why), Err(reason)) => reason@ == why,
            _ => false,
        },
{
    let cpus = match positive_u32("CPU count", cpus) {
        Ok(cpus) => cpus,
        Err(reason) => return Err(reason),
    };
    let gpus = match positive_u32("GPU count", gpus) {
        Ok(gpus) => gpus,
        Err(reason) => return Err(reason),
    };
    let partition = if runner == RunnerKind::Slurm {
        optional(pool)
    } else {
        None
    };
    let queue = if runner == RunnerKind::Lsf {
        optional(pool)
    } else {
        None
    };
    Ok(
        RunResources {
            time: optional(time),
            partition,
            queue,
            account: optional(account),
            cpus,
            mem: optional(mem),
            gpus,
        },
    )
}

// ---------------------------------------------------------------------------
// Names
// ---------------------------------------------------------------------------

/// The first two words of a command, cut off where they are long.
pub open spec fn summary_of(command: Seq<char>) -> Seq<char> {
    let words = text::words_of(command);
    let summary = if words.len() == 0 {
        "run"@
    } else if words.len() == 1 {
        words[0]
    } else {
        words[0] + " "@ + words[1]
    };
    text::first_chars(summary, SUMMARY_CHARS as nat)
}

/// The name of a run: the one that was asked for, or one made of its command,
/// the way it runs and the time of day.
pub open spec fn name_of(
    requested: Seq<char>,
    command: Seq<char>,
    runner: ManualRunner,
    now: Timestamp,
) -> Result<Seq<char>, Seq<char>> {
    match filled(requested) {
        Some(name) => if name.len() > MAX_NAME_CHARS {
            Err("Name must be at most 120 characters"@)
        } else if text::has_break(name) {
            Err("Name must be a single line"@)
        } else {
            Ok(name)
        },
        None => Ok(
            summary_of(command) + " · "@ + runner.word() + " · "@ + time::clock_text(
                now.seconds(),
            ),
        ),
    }
}

pub fn manual_name(requested: &str, command: &str, runner: ManualRunner, now: Timestamp) -> (result:
    Result<String, String>)
    requires
        now.dated(),
    ensures
        match (name_of(requested@, command@, runner, now), result) {
            (Ok(view), Ok(name)) => name@ == view,
            (Err(why), Err(reason)) => reason@ == why,
            _ => false,
        },
{
    if let Some(name) = optional(requested) {
        if name.as_str().unicode_len() > MAX_NAME_CHARS {
            return Err("Name must be at most 120 characters".to_owned());
        }
        if contains_break(name.as_str()) {
            return Err("Name must be a single line".to_owned());
        }
        return Ok(name);
    }
    let words = split_whitespace(command);
    assert(text::texts(words@).len() == words@.len());
    let summary = if words.len() == 0 {
        "run".to_owned()
    } else {
        assert(text::texts(words@)[0] == words@[0]@);
        let mut summary = words[0].clone();
        if words.len() > 1 {
            assert(text::texts(words@)[1] == words@[1]@);
            summary.append(" ");
            summary.append(words[1].as_str());
        }
        summary
    };
    let mut name = take_chars(summary.as_str(), SUMMARY_CHARS);
    name.append(" · ");
    name.append(runner.label());
    name.append(" · ");
    name.append(now.hour_minute().as_str());
    Ok(name)
}

/// One character more of a stem: small letters and digits, and one dash for
/// whatever stands between them.
pub open spec fn stem_step(stem: Seq<char>, ch: char) -> Seq<char> {
    if stem.len() >= STEM_CHARS {
        stem
    } else if text::is_alphanumeric(ch) {
        stem.push(text::lower_char(ch))
    } else if stem.len() == 0 || stem.last() == '-' {
        stem
    } else {
        stem.push('-')
    }
}

pub open spec fn stem_walk(name: Seq<char>) -> Seq<char>
    decreases name.len(),
{
    if name.len() == 0 {
        Seq::empty()
    } else {
        stem_step(stem_walk(name.drop_last()), name.last())
    }
}

/// What a name leaves in an identity.
pub open spec fn stem_of(name: Seq<char>) -> Seq<char> {
    let stem = text::trim_end_char(stem_walk(name), '-');
    if stem.len() == 0 {
        "run"@
    } else {
        stem
    }
}

fn build_stem(name: &str) -> (stem: String)
    ensures
        stem@ == stem_of(name@),
{
    let chars = chars_of(name);
    let mut list: Vec<char> = Vec::new();
    let mut i: usize = 0;
    assert(name@.take(0) =~= Seq::<char>::empty());
    while i < chars.len()
        invariant
            i <= chars@.len(),
            chars@ == name@,
            list@ == stem_walk(name@.take(i as int)),
        decreases chars@.len() - i,
    {
        let ch = chars[i];
        proof {
            let now = name@.take(i + 1);
            assert(now.drop_last() =~= name@.take(i as int));
            assert(now.last() == ch);
        }
        let len = list.len();
        if len < STEM_CHARS {
            if alphanumeric(ch) {
                list.push(char_to_lower(ch));
            } else if len > 0 && list[len - 1] != '-' {
                list.push('-');
            }
        }
        i += 1;
    }
    assert(name@.take(i as int) =~= name@);
    let walked = text::text_range(&list, 0, list.len());
    assert(walked@ =~= list@);
    let stem = trim_end_matches(walked.as_str(), '-');
    if stem.as_str().is_empty() {
        "run".to_owned()
    } else {
        stem
    }
}

/// The mark of an identity: the day and the time, and six digits that no two
/// have in common.
pub open spec fn mark_of(now: Timestamp, salt: u32) -> Seq<char> {
    now.compact_view() + "-"@ + encoding::hex_digits((salt as nat) % 0x1000000, 6)
}

fn build_mark(now: Timestamp, salt: u32) -> (mark: String)
    requires
        now.dated(),
    ensures
        mark@ == mark_of(now, salt),
        now.in_era() ==> submission::valid_run_id(mark@) && mark@.len() == 22,
{
    let stamp = now.compact();
    let mut mark = stamp.clone();
    mark.append("-");
    let low: u32 = salt % 0x1000000;
    let digits = hex6(low);
    mark.append(digits.as_str());
    proof {
        if now.in_era() {
            reveal_strlit("-");
            encoding::lemma_hex_text(low as nat, 6);
            assert forall|i: int| 0 <= i < mark@.len() implies submission::is_id_char(
                #[trigger] mark@[i],
            ) by {
                if i < stamp@.len() {
                    assert(mark@[i] == stamp@[i]);
                } else if i > stamp@.len() {
                    assert(mark@[i] == digits@[i - stamp@.len() - 1]);
                }
            }
            submission::lemma_id_length(mark@);
        }
    }
    mark
}

/// The identity of a run.
pub open spec fn run_id_of(name: Seq<char>, now: Timestamp, salt: u32) -> Seq<char> {
    "manual-"@ + stem_of(name) + "-"@ + mark_of(now, salt)
}

pub fn manual_run_id(name: &str, now: Timestamp, salt: u32) -> (run_id: String)
    requires
        now.dated(),
    ensures
        run_id@ == run_id_of(name@, now, salt),
        now.in_era() ==> submission::valid_run_id(run_id@),
{
    let stem = build_stem(name);
    let mark = build_mark(now, salt);
    let mut run_id = "manual-".to_owned();
    run_id.append(stem.as_str());
    run_id.append("-");
    run_id.append(mark.as_str());
    proof {
        if now.in_era() {
            reveal_strlit("manual-");
            reveal_strlit("-");
            lemma_stem(name@);
            let head = "manual-"@ + stem@ + "-"@;
            assert forall|i: int| 0 <= i < run_id@.len() implies submission::is_id_char(
                #[trigger] run_id@[i],
            ) by {
                if i < 7 {
                    assert(run_id@[i] == "manual-"@[i]);
                } else if i < 7 + stem@.len() {
                    assert(run_id@[i] == stem@[i - 7]);
                } else if i > 7 + stem@.len() {
                    assert(run_id@[i] == mark@[i - 8 - stem@.len()]);
                }
            }
            submission::lemma_id_length(run_id@);
        }
    }
    run_id
}

/// The name of a request to try a run again.
pub fn new_retry_request_id(now: Timestamp, nonce: u32, pid: u32) -> (request_id: String)
    requires
        now.dated(),
    ensures
        request_id@ == "gui-retry-"@ + mark_of(now, nonce ^ pid ^ (now.fraction() as u32)),
        now.in_era() ==> submission::valid_run_id(request_id@),
{
    let salt = nonce ^ pid ^ now.parts().1;
    let mark = build_mark(now, salt);
    let mut request_id = "gui-retry-".to_owned();
    request_id.append(mark.as_str());
    proof {
        if now.in_era() {
            reveal_strlit("gui-retry-");
            assert forall|i: int| 0 <= i < request_id@.len() implies submission::is_id_char(
                #[trigger] request_id@[i],
            ) by {
                if i < 10 {
                    assert(request_id@[i] == "gui-retry-"@[i]);
                } else {
                    assert(request_id@[i] == mark@[i - 10]);
                }
            }
            submission::lemma_id_length(request_id@);
        }
    }
    request_id
}

// ---------------------------------------------------------------------------
// Drafts
// ---------------------------------------------------------------------------

/// The run that a draft stands for. A run on this machine asks no scheduler for
/// anything, and no draft binds an agent.
pub open spec fn drafted(
    draft: ManualRunDraftView,
    runner: ManualRunner,
    now: Timestamp,
    salt: u32,
) -> Result<SubmitRunSpecView, Seq<char>> {
    let command = text::trimmed(draft.command);
    let cwd = text::trimmed(draft.cwd);
    let host_alias = text::trimmed(draft.host_alias);
    if command.len() == 0 {
        Err("Command is required"@)
    } else if cwd.len() == 0 {
        Err("Workspace is required"@)
    } else {
        match name_of(draft.name, command, runner, now) {
            Err(why) => Err(why),
            Ok(name) => if runner == ManualRunner::Process {
                Ok(
                    drafted_spec(
                        name,
                        "local"@,
                        cwd,
                        runner,
                        command,
                        RunResources::none_view(),
                        now,
                        salt,
                    ),
                )
            } else if host_alias.len() == 0 {
                Err("SSH Host alias is required for remote Runs"@)
            } else {
                match resources_in(
                    runner.kind(),
                    draft.time,
                    draft.pool,
                    draft.account,
                    draft.cpus,
                    draft.mem,
                    draft.gpus,
                ) {
                    Err(why) => Err(why),
                    Ok(resources) => Ok(
                        drafted_spec(
                            name,
                            host_alias,
                            cwd,
                            runner,
                            command,
                            resources,
                            now,
                            salt,
                        ),
                    ),
                }
            },
        }
    }
}

pub open spec fn drafted_spec(
    name: Seq<char>,
    host_alias: Seq<char>,
    cwd: Seq<char>,
    runner: ManualRunner,
    command: Seq<char>,
    resources: RunResourcesView,
    now: Timestamp,
    salt: u32,
) -> SubmitRunSpecView {
    SubmitRunSpecView {
        run_id: run_id_of(name, now, salt),
        name: Some(name),
        workspace: RemoteWorkspaceRefView { host_alias, cwd },
        runner: runner.kind(),
        command,
        resources,
        continuation: None,
    }
}

impl ManualRunDraft {
    pub fn build_spec_at(&self, runner: ManualRunner, now: Timestamp, salt: u32) -> (result: Result<
        SubmitRunSpec,
        String,
    >)
        requires
            now.dated(),
        ensures
            match (drafted(self@, runner, now, salt), result) {
                (Ok(view), Ok(spec)) => {
                    &&& spec@ == view
                    &&& now.in_era() ==> submission::valid_run_id(spec@.run_id)
                },
                (Err(why), Err(reason)) => reason@ == why,
                _ => false,
            },
    {
        let command = trim(self.command.as_str());
        if command.as_str().is_empty() {
            return Err("Command is required".to_owned());
        }
        let cwd = trim(self.cwd.as_str());
        if cwd.as_str().is_empty() {
            return Err("Workspace is required".to_owned());
        }
        let name = match manual_name(self.name.as_str(), command.as_str(), runner, now) {
            Ok(name) => name,
            Err(reason) => return Err(reason),
        };
        let run_id = manual_run_id(name.as_str(), now, salt);
        let (host_alias, resources) = if runner == ManualRunner::Process {
            ("local".to_owned(), RunResources::default())
        } else {
            let host_alias = trim(self.host_alias.as_str());
            if host_alias.as_str().is_empty() {
                return Err("SSH Host alias is required for remote Runs".to_owned());
            }
            match build_resources(
                runner.runner_kind(),
                self.time.as_str(),
                self.pool.as_str(),
                self.account.as_str(),
                self.cpus.as_str(),
                self.mem.as_str(),
                self.gpus.as_str(),
            ) {
                Ok(resources) => (host_alias, resources),
                Err(reason) => return Err(reason),
            }
        };
        Ok(
            SubmitRunSpec {
                run_id,
                name: Some(name),
                workspace: RemoteWorkspaceRef { host_alias, cwd },
                runner: runner.runner_kind(),
                command,
                resources,
                continuation: None,
            },
        )
    }

    /// The run that the draft stands for, with an identity of its own: `nonce`
    /// counts the drafts of the process `pid`.
    pub fn build_spec(&self, runner: ManualRunner, now: Timestamp, nonce: u32, pid: u32) -> (result:
        Result<SubmitRunSpec, String>)
        requires
            now.dated(),
        ensures
            match (
                drafted(self@, runner, now, nonce ^ pid ^ (now.fraction() as u32)),
                result,
            ) {
                (Ok(view), Ok(spec)) => spec@ == view,
                (Err(why), Err(reason)) => reason@ == why,
                _ => false,
            },
    {
        let salt = nonce ^ pid ^ now.parts().1;
        self.build_spec_at(runner, now, salt)
    }
}

/// The request that a draft stands for.
pub open spec fn retry_drafted(draft: RetryDraftView, runner: RunnerKind) -> Result<
    RetryRunSpecView,
    Seq<char>,
> {
    if text::is_blank(draft.run_id) || draft.expected_attempt_no == 0 {
        Err("Retry requires a current durable Attempt"@)
    } else if text::is_blank(draft.request_id) {
        Err("Retry request identity is missing; reopen the Retry review"@)
    } else {
        match runner {
            RunnerKind::Process => Ok(retry_spec(draft, None)),
            RunnerKind::Slurm | RunnerKind::Lsf => match resources_in(
                runner,
                draft.time,
                draft.pool,
                draft.account,
                draft.cpus,
                draft.mem,
                draft.gpus,
            ) {
                Err(why) => Err(why),
                Ok(resources) => Ok(retry_spec(draft, Some(resources))),
            },
            other => Err(
                "Retry review does not support runner "@ + submission::runner_name(other),
            ),
        }
    }
}

pub open spec fn retry_spec(draft: RetryDraftView, resources: Option<RunResourcesView>) -> RetryRunSpecView {
    RetryRunSpecView {
        run_id: draft.run_id,
        expected_attempt_no: draft.expected_attempt_no,
        request_id: draft.request_id,
        resources,
    }
}

impl RetryDraft {
    pub fn build_spec(&self, runner: RunnerKind) -> (result: Result<RetryRunSpec, String>)
        ensures
            match (retry_drafted(self@, runner), result) {
                (Ok(view), Ok(spec)) => spec@ == view,
                (Err(why), Err(reason)) => reason@ == why,
                _ => false,
            },
    {
        if blank(self.run_id.as_str()) || self.expected_attempt_no == 0 {
            return Err("Retry requires a current durable Attempt".to_owned());
        }
        if blank(self.request_id.as_str()) {
            return Err("Retry request identity is missing; reopen the Retry review".to_owned());
        }
        let resources = match runner {
            RunnerKind::Process => None,
            RunnerKind::Slurm | RunnerKind::Lsf => match build_resources(
                runner,
                self.time.as_str(),
                self.pool.as_str(),
                self.account.as_str(),
                self.cpus.as_str(),
                self.mem.as_str(),
                self.gpus.as_str(),
            ) {
                Ok(resources) => Some(resources),
                Err(reason) => return Err(reason),
            },
            other => {
                let mut reason = "Retry review does not support runner ".to_owned();
                reason.append(show_runner(other).as_str());
                return Err(reason);
            },
        };
        Ok(
            RetryRunSpec {
                run_id: self.run_id.clone(),
                expected_attempt_no: self.expected_attempt_no,
                request_id: self.request_id.clone(),
                resources,
            },
        )
    }
}

// ---------------------------------------------------------------------------
// Laws
// ---------------------------------------------------------------------------

pub open spec fn is_stem_char(ch: char) -> bool {
    text::is_digit(ch) || 'a' <= ch <= 'z' || ch == '-'
}

proof fn lemma_stem_walk(name: Seq<char>)
    ensures
        stem_walk(name).len() <= STEM_CHARS,
        forall|i: int| 0 <= i < stem_walk(name).len() ==> is_stem_char(#[trigger] stem_walk(name)[i]),
        stem_walk(name).len() > 0 ==> stem_walk(name)[0] != '-',
    decreases name.len(),
{
    if name.len() > 0 {
        lemma_stem_walk(name.drop_last());
    }
}

proof fn lemma_trimmed_stem(stem: Seq<char>)
    requires
        forall|i: int| 0 <= i < stem.len() ==> is_stem_char(#[trigger] stem[i]),
    ensures
        text::trim_end_char(stem, '-').len() <= stem.len(),
        forall|i: int|
            0 <= i < text::trim_end_char(stem, '-').len() ==> is_stem_char(
                #[trigger] text::trim_end_char(stem, '-')[i],
            ),
    decreases stem.len(),
{
    if stem.len() > 0 && stem.last() == '-' {
        lemma_trimmed_stem(stem.drop_last());
    }
}

proof fn lemma_stem(name: Seq<char>)
    ensures
        0 < stem_of(name).len() <= STEM_CHARS,
        forall|i: int|
            0 <= i < stem_of(name).len() ==> submission::is_id_char(#[trigger] stem_of(name)[i]),
{
    reveal_strlit("run");
    lemma_stem_walk(name);
    lemma_trimmed_stem(stem_walk(name));
    let stem = text::trim_end_char(stem_walk(name), '-');
    assert forall|i: int| 0 <= i < stem_of(name).len() implies submission::is_id_char(
        #[trigger] stem_of(name)[i],
    ) by {
        if stem.len() > 0 {
            assert(is_stem_char(stem[i]));
        }
    }
}

/// A draft never binds an agent, and one for this machine asks no scheduler for
/// anything.
pub proof fn draft_is_unbound(
    draft: ManualRunDraftView,
    runner: ManualRunner,
    now: Timestamp,
    salt: u32,
)
    ensures
        drafted(draft, runner, now, salt) matches Ok(spec) ==> {
            &&& spec.continuation is None
            &&& spec.runner == runner.kind()
            &&& runner == ManualRunner::Process ==> spec.resources == RunResources::none_view()
                && spec.workspace.host_alias == "local"@
            &&& runner == ManualRunner::Slurm ==> spec.resources.queue is None
            &&& runner == ManualRunner::Lsf ==> spec.resources.partition is None
        },
{
}

/// The same draft at the same moment with another salt is another run.
pub proof fn salt_tells_drafts_apart(name: Seq<char>, now: Timestamp, left: u32, right: u32)
    requires
        left % 0x1000000 != right % 0x1000000,
    ensures
        run_id_of(name, now, left) != run_id_of(name, now, right),
{
    let a = encoding::hex_digits((left as nat) % 0x1000000, 6);
    let b = encoding::hex_digits((right as nat) % 0x1000000, 6);
    encoding::lemma_hex6((left as nat) % 0x1000000);
    encoding::lemma_hex6((right as nat) % 0x1000000);
    let head = "manual-"@ + stem_of(name) + "-"@ + (now.compact_view() + "-"@);
    assert(run_id_of(name, now, left) =~= head + a);
    assert(run_id_of(name, now, right) =~= head + b);
    if head + a == head + b {
        assert(a =~= (head + a).skip(head.len() as int));
        assert(b =~= (head + b).skip(head.len() as int));
    }
}

/// A name of at most 24 small letters and digits is its own stem.
pub proof fn plain_name_is_its_own_stem(name: Seq<char>)
    requires
        0 < name.len() <= 24,
        forall|i: int|
            0 <= i < name.len() ==> text::is_digit(#[trigger] name[i]) || 'a' <= name[i] <= 'z',
    ensures
        stem_of(name) == name,
{
    lemma_plain_walk(name);
    assert(text::is_digit(name[name.len() - 1]) || 'a' <= name[name.len() - 1] <= 'z');
}

proof fn lemma_plain_walk(name: Seq<char>)
    requires
        name.len() <= 24,
        forall|i: int|
            0 <= i < name.len() ==> text::is_digit(#[trigger] name[i]) || 'a' <= name[i] <= 'z',
    ensures
        stem_walk(name) == name,
    decreases name.len(),
{
    if name.len() > 0 {
        let head = name.drop_last();
        assert forall|i: int| 0 <= i < head.len() implies text::is_digit(#[trigger] head[i]) || 'a'
            <= head[i] <= 'z' by {
            assert(head[i] == name[i]);
        }
        lemma_plain_walk(head);
        assert(text::is_digit(name[name.len() - 1]) || 'a' <= name[name.len() - 1] <= 'z');
        assert(head.push(name.last()) =~= name);
    }
}

/// A name that is given is kept, without white around it, where it is one line of
/// at most 120 characters, and is refused otherwise; a run without a name gets one
/// that tells where it runs.
pub proof fn given_name_is_kept(
    requested: Seq<char>,
    command: Seq<char>,
    runner: ManualRunner,
    now: Timestamp,
)
    ensures
        ({
            let given = text::trimmed(requested);
            let name = name_of(requested, command, runner, now);
            &&& given.len() > 0 && given.len() <= 120 && !text::has_break(given) ==> name == Ok::<
                Seq<char>,
                Seq<char>,
            >(given)
            &&& given.len() > 0 && (given.len() > 120 || text::has_break(given)) ==> name is Err
            &&& given.len() == 0 ==> (name matches Ok(made) && text::has_part(
                made,
                " · "@ + runner.word() + " · "@,
            ))
        }),
{
    if text::trimmed(requested).len() == 0 {
        let front = summary_of(command);
        let part = " · "@ + runner.word() + " · "@;
        let back = time::clock_text(now.seconds());
        text::lemma_part_within(front, part, back);
        assert(name_of(requested, command, runner, now)->Ok_0 =~= front + part + back);
    }
}

} // verus!
