//! Asking a host how a run is doing, and reading the answer.
pub mod laws;

use crate::seqs;
use crate::text;
use crate::text::{
    decimal_text, join, lines, parse_u32, parse_u64, same, shell_quote, show_option, split,
    split_once, split_whitespace, starts_with, strip_prefix, to_ascii_lowercase,
    to_ascii_uppercase, trim,
};
use crate::types::{
    clone_text, ObservationSource, RunRecord, RunRecordView, RunStatus, RunnerKind,
};
use vstd::prelude::*;
use vstd::string::*;

verus! {

pub const SENTINEL_MARKER: &'static str = "__RUNWATCH_SENTINEL__";

pub const SCHEDULER_MARKER: &'static str = "__RUNWATCH_SCHEDULER__";

pub const BATCH_TERMINAL: &'static str = "__RUNWATCH_BATCH_TERMINAL__|";

pub const SLURM_BATCH_SQUEUE_BEGIN: &'static str = "__RUNWATCH_BATCH_SQUEUE_BEGIN__";

pub const SLURM_BATCH_SQUEUE_END: &'static str = "__RUNWATCH_BATCH_SQUEUE_END__|";

pub const SLURM_BATCH_SACCT_BEGIN: &'static str = "__RUNWATCH_BATCH_SACCT_BEGIN__";

pub const SLURM_BATCH_SACCT_END: &'static str = "__RUNWATCH_BATCH_SACCT_END__|";

pub const LSF_BATCH_BJOBS_BEGIN: &'static str = "__RUNWATCH_BATCH_BJOBS_BEGIN__";

pub const LSF_BATCH_BJOBS_END: &'static str = "__RUNWATCH_BATCH_BJOBS_END__|";

/// What an answer says of a run. Where it was not understood, the status is the
/// one the run had.
#[derive(Debug, PartialEq, Eq)]
pub struct ProbeInterpretation {
    pub status: RunStatus,
    pub source: ObservationSource,
    pub raw_state: String,
    pub recognized: bool,
}

/// What a `ProbeInterpretation` says.
pub struct ProbeInterpretationView {
    pub status: RunStatus,
    pub source: ObservationSource,
    pub raw_state: Seq<char>,
    pub recognized: bool,
}

impl View for ProbeInterpretation {
    type V = ProbeInterpretationView;

    open spec fn view(&self) -> ProbeInterpretationView {
        ProbeInterpretationView {
            status: self.status,
            source: self.source,
            raw_state: self.raw_state@,
            recognized: self.recognized,
        }
    }
}

impl DeepView for ProbeInterpretation {
    type V = ProbeInterpretationView;

    open spec fn deep_view(&self) -> ProbeInterpretationView {
        self.view()
    }
}

impl Clone for ProbeInterpretation {
    fn clone(&self) -> (copy: Self)
        ensures
            copy@ == self@,
    {
        ProbeInterpretation {
            status: self.status,
            source: self.source,
            raw_state: self.raw_state.clone(),
            recognized: self.recognized,
        }
    }
}

/// What a batched answer of Slurm says of one run.
#[derive(Debug, PartialEq, Eq)]
pub struct SlurmBatchProbeResult {
    pub probe: ProbeInterpretation,
    pub reason: Option<String>,
}

/// What a `SlurmBatchProbeResult` says.
pub struct SlurmBatchProbeResultView {
    pub probe: ProbeInterpretationView,
    pub reason: Option<Seq<char>>,
}

impl View for SlurmBatchProbeResult {
    type V = SlurmBatchProbeResultView;

    open spec fn view(&self) -> SlurmBatchProbeResultView {
        SlurmBatchProbeResultView {
            probe: self.probe@,
            reason: text::text_opt(self.reason),
        }
    }
}

impl DeepView for SlurmBatchProbeResult {
    type V = SlurmBatchProbeResultView;

    open spec fn deep_view(&self) -> SlurmBatchProbeResultView {
        self.view()
    }
}

impl Clone for SlurmBatchProbeResult {
    fn clone(&self) -> (copy: Self)
        ensures
            copy@ == self@,
    {
        SlurmBatchProbeResult {
            probe: self.probe.clone(),
            reason: clone_text(&self.reason),
        }
    }
}

/// What a batched answer of LSF says of one run.
#[derive(Debug, PartialEq, Eq)]
pub struct LsfBatchProbeResult {
    pub probe: ProbeInterpretation,
    pub reason: Option<String>,
}

/// What a `LsfBatchProbeResult` says.
pub struct LsfBatchProbeResultView {
    pub probe: ProbeInterpretationView,
    pub reason: Option<Seq<char>>,
}

impl View for LsfBatchProbeResult {
    type V = LsfBatchProbeResultView;

    open spec fn view(&self) -> LsfBatchProbeResultView {
        LsfBatchProbeResultView {
            probe: self.probe@,
            reason: text::text_opt(self.reason),
        }
    }
}

impl DeepView for LsfBatchProbeResult {
    type V = LsfBatchProbeResultView;

    open spec fn deep_view(&self) -> LsfBatchProbeResultView {
        self.view()
    }
}

impl Clone for LsfBatchProbeResult {
    fn clone(&self) -> (copy: Self)
        ensures
            copy@ == self@,
    {
        LsfBatchProbeResult {
            probe: self.probe.clone(),
            reason: clone_text(&self.reason),
        }
    }
}

// ---------------------------------------------------------------------------
// Questions
// ---------------------------------------------------------------------------

pub open spec fn terminal_question(path: Seq<char>) -> Seq<char> {
    "if [ -f "@ + text::shell_word(path) + " ]; then printf '"@ + SENTINEL_MARKER@
        + "\\n'; cat -- "@ + text::shell_word(path) + "; else printf '"@ + SCHEDULER_MARKER@
        + "\\n'; fi"@
}

/// Prints the end of a run, if its file is there.
pub fn terminal_cmd(path: &str) -> (command: String)
    ensures
        command@ == terminal_question(path@),
{
    let word = shell_quote(path);
    let mut command = "if [ -f ".to_owned();
    command.append(word.as_str());
    command.append(" ]; then printf '");
    command.append(SENTINEL_MARKER);
    command.append("\\n'; cat -- ");
    command.append(word.as_str());
    command.append("; else printf '");
    command.append(SCHEDULER_MARKER);
    command.append("\\n'; fi");
    command
}

pub open spec fn slurm_question(job: Seq<char>) -> Seq<char> {
    "state=$(squeue -h -j "@ + text::shell_word(job)
        + " -o '%T' 2>/dev/null | head -n 1); if [ -n \"$state\" ]; then printf '%s\\n' \"$state\"; else sacct -j "@
        + text::shell_word(job)
        + " -X -n -P -o State 2>/dev/null | head -n 1 | cut -d'|' -f1; fi"@
}

/// Prints the state of a Slurm job, from the queue or else from accounting.
pub fn slurm_cmd(job: &str) -> (command: String)
    ensures
        command@ == slurm_question(job@),
{
    let word = shell_quote(job);
    let mut command = "state=$(squeue -h -j ".to_owned();
    command.append(word.as_str());
    command.append(
        " -o '%T' 2>/dev/null | head -n 1); if [ -n \"$state\" ]; then printf '%s\\n' \"$state\"; else sacct -j ",
    );
    command.append(word.as_str());
    command.append(" -X -n -P -o State 2>/dev/null | head -n 1 | cut -d'|' -f1; fi");
    command
}

pub open spec fn lsf_question(job: Seq<char>) -> Seq<char> {
    "state=$(bjobs -a -noheader -o stat "@ + text::shell_word(job)
        + " 2>/dev/null | head -n 1 | awk '{print $1}'); if [ -n \"$state\" ]; then printf '%s\\n' \"$state\"; else event=$(bhist -l "@
        + text::shell_word(job)
        + " 2>/dev/null | grep -E 'Done successfully|Post job process done successfully|Post job process failed|Exited|Completed <exit>' | tail -n 1); case \"$event\" in *'Post job process failed'*|*'Exited'*|*'Completed <exit>'*) printf 'EXIT\\n';; *'Post job process done successfully'*|*'Done successfully'*) printf 'DONE\\n';; esac; fi"@
}

/// Prints the state of an LSF job, from the queue or else from its history.
pub fn lsf_cmd(job: &str) -> (command: String)
    ensures
        command@ == lsf_question(job@),
{
    let word = shell_quote(job);
    let mut command = "state=$(bjobs -a -noheader -o stat ".to_owned();
    command.append(word.as_str());
    command.append(
        " 2>/dev/null | head -n 1 | awk '{print $1}'); if [ -n \"$state\" ]; then printf '%s\\n' \"$state\"; else event=$(bhist -l ",
    );
    command.append(word.as_str());
    command.append(
        " 2>/dev/null | grep -E 'Done successfully|Post job process done successfully|Post job process failed|Exited|Completed <exit>' | tail -n 1); case \"$event\" in *'Post job process failed'*|*'Exited'*|*'Completed <exit>'*) printf 'EXIT\\n';; *'Post job process done successfully'*|*'Done successfully'*) printf 'DONE\\n';; esac; fi",
    );
    command
}

pub open spec fn scheduler_question(run: RunRecordView) -> Option<Seq<char>> {
    match (run.runner, run.job_id) {
        (RunnerKind::Slurm, Some(job)) => Some(slurm_question(job)),
        (RunnerKind::Lsf, Some(job)) => Some(lsf_question(job)),
        _ => None,
    }
}

pub fn scheduler_cmd(rec: &RunRecord) -> (command: Option<String>)
    ensures
        text::text_opt(command) == scheduler_question(rec@),
{
    match (rec.runner, &rec.job_id) {
        (RunnerKind::Slurm, Some(job)) => Some(slurm_cmd(job.as_str())),
        (RunnerKind::Lsf, Some(job)) => Some(lsf_cmd(job.as_str())),
        _ => None,
    }
}

/// The question to a host about a run: its end, if its file is there, or else
/// the state of its job.
pub open spec fn remote_question(run: RunRecordView) -> Option<Seq<char>> {
    match (run.remote_terminal, scheduler_question(run)) {
        (Some(path), Some(scheduler)) => Some(
            "if [ -f "@ + text::shell_word(path) + " ]; then printf '"@ + SENTINEL_MARKER@
                + "\\n'; cat -- "@ + text::shell_word(path) + "; else printf '"@
                + SCHEDULER_MARKER@ + "\\n'; "@ + scheduler + "; fi"@,
        ),
        (Some(path), None) => Some(terminal_question(path)),
        (None, Some(scheduler)) => Some("printf '"@ + SCHEDULER_MARKER@ + "\\n'; "@ + scheduler),
        (None, None) => None,
    }
}

pub fn remote_command(rec: &RunRecord) -> (command: Option<String>)
    ensures
        text::text_opt(command) == remote_question(rec@),
{
    match (&rec.remote_terminal, scheduler_cmd(rec)) {
        (Some(path), Some(scheduler)) => {
            let word = shell_quote(path.as_str());
            let mut command = "if [ -f ".to_owned();
            command.append(word.as_str());
            command.append(" ]; then printf '");
            command.append(SENTINEL_MARKER);
            command.append("\\n'; cat -- ");
            command.append(word.as_str());
            command.append("; else printf '");
            command.append(SCHEDULER_MARKER);
            command.append("\\n'; ");
            command.append(scheduler.as_str());
            command.append("; fi");
            Some(command)
        },
        (Some(path), None) => Some(terminal_cmd(path.as_str())),
        (None, Some(scheduler)) => {
            let mut command = "printf '".to_owned();
            command.append(SCHEDULER_MARKER);
            command.append("\\n'; ");
            command.append(scheduler.as_str());
            Some(command)
        },
        (None, None) => None,
    }
}

/// Whether one question can serve for all the runs: two at least, all of one
/// scheduler, each with a job and a file for its end.
pub open spec fn batchable(runs: Seq<RunRecordView>, runner: RunnerKind) -> bool {
    runs.len() >= 2 && forall|i: int|
        0 <= i < runs.len() ==> batch_member(#[trigger] runs[i], runner)
}

pub open spec fn batch_member(run: RunRecordView, runner: RunnerKind) -> bool {
    &&& run.runner == runner
    &&& run.job_id matches Some(job) && job.len() > 0
    &&& run.remote_terminal matches Some(path) && path.len() > 0
}

fn is_filled(value: &Option<String>) -> (yes: bool)
    ensures
        yes == (text::text_opt(*value) matches Some(chars) && chars.len() > 0),
{
    match value {
        Some(filled) => !filled.as_str().is_empty(),
        None => false,
    }
}

fn is_batchable(records: &[RunRecord], runner: RunnerKind) -> (yes: bool)
    ensures
        yes == batchable(records.deep_view(), runner),
{
    if records.len() < 2 {
        return false;
    }
    let mut i: usize = 0;
    while i < records.len()
        invariant
            i <= records@.len(),
            forall|j: int| 0 <= j < i ==> batch_member(#[trigger] records.deep_view()[j], runner),
        decreases records@.len() - i,
    {
        let record = &records[i];
        if record.runner != runner || !is_filled(&record.job_id) || !is_filled(
            &record.remote_terminal,
        ) {
            assert(!batch_member(records.deep_view()[i as int], runner));
            return false;
        }
        assert(batch_member(records.deep_view()[i as int], runner));
        i += 1;
    }
    true
}

pub open spec fn job_of() -> spec_fn(RunRecordView) -> Seq<char> {
    |run: RunRecordView|
        match run.job_id {
            Some(job) => job,
            None => Seq::empty(),
        }
}

/// For each run in turn, prints its number and the first line of its end, if
/// its file is there.
pub open spec fn terminal_checks(runs: Seq<RunRecordView>) -> Seq<char>
    decreases runs.len(),
{
    if runs.len() == 0 {
        "set +e; "@
    } else {
        let path = match runs.last().remote_terminal {
            Some(path) => path,
            None => Seq::empty(),
        };
        terminal_checks(runs.drop_last()) + "if [ -f "@ + text::shell_word(path)
            + " ]; then printf '"@ + BATCH_TERMINAL@ + text::decimal((runs.len() - 1) as nat)
            + "|'; head -n 1 -- "@ + text::shell_word(path) + "; fi; "@
    }
}

fn terminal_checks_command(records: &[RunRecord]) -> (command: String)
    ensures
        command@ == terminal_checks(records.deep_view()),
{
    let ghost runs = records.deep_view();
    let mut command = "set +e; ".to_owned();
    let mut i: usize = 0;
    assert(runs.take(0) =~= Seq::<RunRecordView>::empty());
    while i < records.len()
        invariant
            i <= records@.len(),
            runs == records.deep_view(),
            command@ == terminal_checks(runs.take(i as int)),
        decreases records@.len() - i,
    {
        proof {
            let now = runs.take(i + 1);
            assert(now.drop_last() =~= runs.take(i as int));
            assert(now.last() == records@[i as int]@);
        }
        let word = match &records[i].remote_terminal {
            Some(path) => shell_quote(path.as_str()),
            None => shell_quote(String::new().as_str()),
        };
        command.append("if [ -f ");
        command.append(word.as_str());
        command.append(" ]; then printf '");
        command.append(BATCH_TERMINAL);
        command.append(decimal_text(i as u64).as_str());
        command.append("|'; head -n 1 -- ");
        command.append(word.as_str());
        command.append("; fi; ");
        i += 1;
    }
    assert(runs.take(i as int) =~= runs);
    command
}

pub open spec fn slurm_batch_question(runs: Seq<RunRecordView>) -> Seq<char> {
    let jobs = text::shell_word(text::joined(runs.map_values(job_of()), ","@));
    terminal_checks(runs) + "printf '"@ + SLURM_BATCH_SQUEUE_BEGIN@ + "\\n'; squeue -h -j "@ + jobs
        + " -o '%i|%T' 2>/dev/null; rw_sq=$?; printf '"@ + SLURM_BATCH_SQUEUE_END@
        + "%s\\n' \"$rw_sq\"; printf '"@ + SLURM_BATCH_SACCT_BEGIN@ + "\\n'; sacct -j "@ + jobs
        + " -X -n -P -o JobIDRaw,State 2>/dev/null; rw_sa=$?; printf '"@ + SLURM_BATCH_SACCT_END@
        + "%s\\n' \"$rw_sa\"; exit 0"@
}

fn jobs_of(records: &[RunRecord]) -> (jobs: Vec<String>)
    ensures
        text::texts(jobs@) == records.deep_view().map_values(job_of()),
{
    let mut jobs: Vec<String> = Vec::new();
    let mut i: usize = 0;
    while i < records.len()
        invariant
            i <= records@.len(),
            text::texts(jobs@) =~= records.deep_view().map_values(job_of()).take(i as int),
        decreases records@.len() - i,
    {
        let job = match &records[i].job_id {
            Some(job) => job.clone(),
            None => String::new(),
        };
        proof {
            text::lemma_texts_push(jobs@, job);
        }
        jobs.push(job);
        i += 1;
    }
    jobs
}

/// One question to Slurm for all the runs, where one can serve.
pub fn slurm_batch_command(records: &[RunRecord]) -> (command: Option<String>)
    ensures
        text::text_opt(command) == if batchable(records.deep_view(), RunnerKind::Slurm) {
            Some(slurm_batch_question(records.deep_view()))
        } else {
            None
        },
{
    if !is_batchable(records, RunnerKind::Slurm) {
        return None;
    }
    let jobs = shell_quote(join(&jobs_of(records), ",").as_str());
    let mut command = terminal_checks_command(records);
    command.append("printf '");
    command.append(SLURM_BATCH_SQUEUE_BEGIN);
    command.append("\\n'; squeue -h -j ");
    command.append(jobs.as_str());
    command.append(" -o '%i|%T' 2>/dev/null; rw_sq=$?; printf '");
    command.append(SLURM_BATCH_SQUEUE_END);
    command.append("%s\\n' \"$rw_sq\"; printf '");
    command.append(SLURM_BATCH_SACCT_BEGIN);
    command.append("\\n'; sacct -j ");
    command.append(jobs.as_str());
    command.append(" -X -n -P -o JobIDRaw,State 2>/dev/null; rw_sa=$?; printf '");
    command.append(SLURM_BATCH_SACCT_END);
    command.append("%s\\n' \"$rw_sa\"; exit 0");
    Some(command)
}

pub open spec fn quoted_job() -> spec_fn(RunRecordView) -> Seq<char> {
    |run: RunRecordView| text::shell_word(job_of()(run))
}

pub open spec fn lsf_batch_question(runs: Seq<RunRecordView>) -> Seq<char> {
    let jobs = text::joined(runs.map_values(quoted_job()), " "@);
    terminal_checks(runs) + "printf '"@ + LSF_BATCH_BJOBS_BEGIN@
        + "\\n'; bjobs -a -noheader -o 'jobid stat' "@ + jobs
        + " 2>/dev/null; rw_bj=$?; printf '"@ + LSF_BATCH_BJOBS_END@
        + "%s\\n' \"$rw_bj\"; exit 0"@
}

fn quoted_jobs_of(records: &[RunRecord]) -> (jobs: Vec<String>)
    ensures
        text::texts(jobs@) == records.deep_view().map_values(quoted_job()),
{
    let plain = jobs_of(records);
    let mut jobs: Vec<String> = Vec::new();
    let mut i: usize = 0;
    assert(text::texts(plain@).len() == plain@.len());
    while i < plain.len()
        invariant
            i <= plain@.len(),
            plain@.len() == records@.len(),
            text::texts(plain@) == records.deep_view().map_values(job_of()),
            text::texts(jobs@) =~= records.deep_view().map_values(quoted_job()).take(i as int),
        decreases plain@.len() - i,
    {
        let job = shell_quote(plain[i].as_str());
        proof {
            text::lemma_texts_push(jobs@, job);
            assert(text::texts(plain@)[i as int] == plain@[i as int]@);
        }
        jobs.push(job);
        i += 1;
    }
    jobs
}

/// One question to LSF for all the runs, where one can serve.
pub fn lsf_batch_command(records: &[RunRecord]) -> (command: Option<String>)
    ensures
        text::text_opt(command) == if batchable(records.deep_view(), RunnerKind::Lsf) {
            Some(lsf_batch_question(records.deep_view()))
        } else {
            None
        },
{
    if !is_batchable(records, RunnerKind::Lsf) {
        return None;
    }
    let jobs = join(&quoted_jobs_of(records), " ");
    let mut command = terminal_checks_command(records);
    command.append("printf '");
    command.append(LSF_BATCH_BJOBS_BEGIN);
    command.append("\\n'; bjobs -a -noheader -o 'jobid stat' ");
    command.append(jobs.as_str());
    command.append(" 2>/dev/null; rw_bj=$?; printf '");
    command.append(LSF_BATCH_BJOBS_END);
    command.append("%s\\n' \"$rw_bj\"; exit 0");
    Some(command)
}

// ---------------------------------------------------------------------------
// Reading the end of a run
// ---------------------------------------------------------------------------

/// The text that the member of the JSON object is, where the document is an
/// object with such a member, as `serde_json` reads it.
pub uninterp spec fn json_text_member(document: Seq<char>, member: Seq<char>) -> Option<Seq<char>>;

/// `serde_json::from_str` into a `serde_json::Value`, of which `Value::get`
/// takes the member and `Value::as_str` its text. The result is a function of
/// the document and the name; nothing more is claimed of it.
#[verifier::external_body]
fn read_text_member(document: &str, member: &str) -> (found: Option<String>)
    ensures
        text::text_opt(found) == json_text_member(document@, member@),
{
    let value: serde_json::Value = serde_json::from_str(document).ok()?;
    value.get(member)?.as_str().map(str::to_owned)
}

/// The first word of the first line, in small letters.
pub open spec fn leading_word(body: Seq<char>) -> Seq<char> {
    let all = text::lines_of(body);
    if all.len() == 0 || text::words_of(all[0]).len() == 0 {
        Seq::empty()
    } else {
        text::ascii_lower(text::words_of(all[0])[0])
    }
}

/// The end that a word names.
pub open spec fn terminal_word(word: Seq<char>) -> Option<RunStatus> {
    if word == "succeeded"@ || word == "completed"@ {
        Some(RunStatus::Succeeded)
    } else if word == "failed"@ || word == "timed_out"@ || word == "timeout"@ || word == "lost"@ {
        Some(RunStatus::Failed)
    } else if word == "cancelled"@ || word == "canceled"@ {
        Some(RunStatus::Cancelled)
    } else {
        None
    }
}

/// The status member of a JSON object. It is shorter than the object.
pub open spec fn nested_status(body: Seq<char>) -> Option<Seq<char>> {
    match json_text_member(body, "status"@) {
        Some(inner) => if text::has_prefix(body, "{"@) && inner.len() < body.len() {
            Some(inner)
        } else {
            None
        },
        None => None,
    }
}

/// The end that a text tells of: the one its JSON status tells of, or the one
/// its first word names.
pub open spec fn terminal_status(body: Seq<char>) -> Option<RunStatus>
    decreases body.len(),
{
    let inner = text::trimmed(body);
    match nested_status(inner) {
        Some(status) => if status.len() < body.len() {
            terminal_status(status)
        } else {
            terminal_word(leading_word(inner))
        },
        None => terminal_word(leading_word(inner)),
    }
}

/// The end that the first word of a text names.
pub fn read_terminal_word(body: &str) -> (status: Option<RunStatus>)
    ensures
        status == terminal_word(leading_word(body@)),
{
    let all = lines(body);
    assert(text::texts(all@).len() == all@.len());
    if all.len() == 0 {
        assert(leading_word(body@) =~= Seq::<char>::empty());
        return name_terminal(String::new().as_str());
    }
    assert(text::texts(all@)[0] == all@[0]@);
    let words = split_whitespace(all[0].as_str());
    assert(text::texts(words@).len() == words@.len());
    if words.len() == 0 {
        return name_terminal(String::new().as_str());
    }
    assert(text::texts(words@)[0] == words@[0]@);
    name_terminal(to_ascii_lowercase(words[0].as_str()).as_str())
}

fn name_terminal(word: &str) -> (status: Option<RunStatus>)
    ensures
        status == terminal_word(word@),
{
    if same(word, "succeeded") || same(word, "completed") {
        Some(RunStatus::Succeeded)
    } else if same(word, "failed") || same(word, "timed_out") || same(word, "timeout") || same(
        word,
        "lost",
    ) {
        Some(RunStatus::Failed)
    } else if same(word, "cancelled") || same(word, "canceled") {
        Some(RunStatus::Cancelled)
    } else {
        None
    }
}

pub fn parse_terminal(stdout: &str) -> (status: Option<RunStatus>)
    ensures
        status == terminal_status(stdout@),
    decreases stdout@.len(),
{
    let inner = trim(stdout);
    proof {
        text::lemma_trimmed_len(stdout@);
    }
    if starts_with(inner.as_str(), "{") {
        if let Some(status) = read_text_member(inner.as_str(), "status") {
            if status.as_str().unicode_len() < inner.as_str().unicode_len() {
                return parse_terminal(status.as_str());
            }
        }
    }
    read_terminal_word(inner.as_str())
}

// ---------------------------------------------------------------------------
// Reading the state of a job
// ---------------------------------------------------------------------------

/// What a state of Slurm means.
pub open spec fn slurm_status(state: Seq<char>) -> RunStatus {
    let s = text::ascii_upper(text::trimmed(state));
    if text::has_prefix(s, "COMPLETED"@) {
        RunStatus::Succeeded
    } else if text::has_prefix(s, "FAILED"@) || text::has_prefix(s, "TIMEOUT"@)
        || text::has_prefix(s, "NODE_FAIL"@) || text::has_prefix(s, "OUT_OF_MEMORY"@)
        || text::has_prefix(s, "PREEMPTED"@) || text::has_prefix(s, "BOOT_FAIL"@)
        || text::has_prefix(s, "DEADLINE"@) || text::has_prefix(s, "REVOKED"@)
        || text::has_prefix(s, "SPECIAL_EXIT"@) {
        RunStatus::Failed
    } else if text::has_prefix(s, "CANCELLED"@) || text::has_prefix(s, "CANCELED"@) {
        RunStatus::Cancelled
    } else if text::has_prefix(s, "RUNNING"@) || text::has_prefix(s, "COMPLETING"@)
        || text::has_prefix(s, "SUSPENDED"@) || text::has_prefix(s, "RESIZING"@) {
        RunStatus::Running
    } else if text::has_prefix(s, "PENDING"@) || text::has_prefix(s, "CONFIGURING"@)
        || text::has_prefix(s, "REQUEUED"@) || text::has_prefix(s, "REQUEUE_FED"@)
        || text::has_prefix(s, "REQUEUE_HOLD"@) {
        RunStatus::Queued
    } else {
        RunStatus::Unknown
    }
}

pub fn map_slurm(state: &str) -> (status: RunStatus)
    ensures
        status == slurm_status(state@),
{
    let upper = to_ascii_uppercase(trim(state).as_str());
    let s = upper.as_str();
    if starts_with(s, "COMPLETED") {
        RunStatus::Succeeded
    } else if starts_with(s, "FAILED") || starts_with(s, "TIMEOUT") || starts_with(s, "NODE_FAIL")
        || starts_with(s, "OUT_OF_MEMORY") || starts_with(s, "PREEMPTED") || starts_with(
        s,
        "BOOT_FAIL",
    ) || starts_with(s, "DEADLINE") || starts_with(s, "REVOKED") || starts_with(
        s,
        "SPECIAL_EXIT",
    ) {
        RunStatus::Failed
    } else if starts_with(s, "CANCELLED") || starts_with(s, "CANCELED") {
        RunStatus::Cancelled
    } else if starts_with(s, "RUNNING") || starts_with(s, "COMPLETING") || starts_with(
        s,
        "SUSPENDED",
    ) || starts_with(s, "RESIZING") {
        RunStatus::Running
    } else if starts_with(s, "PENDING") || starts_with(s, "CONFIGURING") || starts_with(
        s,
        "REQUEUED",
    ) || starts_with(s, "REQUEUE_FED") || starts_with(s, "REQUEUE_HOLD") {
        RunStatus::Queued
    } else {
        RunStatus::Unknown
    }
}

/// What a state of LSF means.
pub open spec fn lsf_status(state: Seq<char>) -> RunStatus {
    let s = text::ascii_upper(text::trimmed(state));
    if s == "DONE"@ || s == "POST_DONE"@ {
        RunStatus::Succeeded
    } else if s == "EXIT"@ || s == "POST_ERR"@ {
        RunStatus::Failed
    } else if s == "PEND"@ || s == "WAIT"@ {
        RunStatus::Queued
    } else if s == "RUN"@ || s == "PSUSP"@ || s == "USUSP"@ || s == "SSUSP"@ {
        RunStatus::Running
    } else {
        RunStatus::Unknown
    }
}

pub fn map_lsf(state: &str) -> (status: RunStatus)
    ensures
        status == lsf_status(state@),
{
    let upper = to_ascii_uppercase(trim(state).as_str());
    let s = upper.as_str();
    if same(s, "DONE") || same(s, "POST_DONE") {
        RunStatus::Succeeded
    } else if same(s, "EXIT") || same(s, "POST_ERR") {
        RunStatus::Failed
    } else if same(s, "PEND") || same(s, "WAIT") {
        RunStatus::Queued
    } else if same(s, "RUN") || same(s, "PSUSP") || same(s, "USUSP") || same(s, "SSUSP") {
        RunStatus::Running
    } else {
        RunStatus::Unknown
    }
}

/// The status that a scheduler's answer tells, where it is known.
pub open spec fn scheduler_status(runner: RunnerKind, answer: Seq<char>) -> Option<RunStatus> {
    let status = match runner {
        RunnerKind::Slurm => slurm_status(text::trimmed(answer)),
        RunnerKind::Lsf => lsf_status(text::trimmed(answer)),
        _ => RunStatus::Unknown,
    };
    if status == RunStatus::Unknown {
        None
    } else {
        Some(status)
    }
}

fn mapped_scheduler_status(rec: &RunRecord, stdout: &str) -> (status: Option<RunStatus>)
    ensures
        status == scheduler_status(rec@.runner, stdout@),
{
    let answer = trim(stdout);
    let status = match rec.runner {
        RunnerKind::Slurm => map_slurm(answer.as_str()),
        RunnerKind::Lsf => map_lsf(answer.as_str()),
        _ => RunStatus::Unknown,
    };
    if status == RunStatus::Unknown {
        None
    } else {
        Some(status)
    }
}

/// What a status that may not have been understood says of a run.
pub open spec fn interpreted(
    run: RunRecordView,
    status: Option<RunStatus>,
    source: ObservationSource,
    raw_state: Seq<char>,
) -> ProbeInterpretationView {
    ProbeInterpretationView {
        status: match status {
            Some(status) => status,
            None => run.status,
        },
        source,
        raw_state,
        recognized: status is Some,
    }
}

fn make_interpretation(
    rec: &RunRecord,
    status: Option<RunStatus>,
    source: ObservationSource,
    raw_state: String,
) -> (probe: ProbeInterpretation)
    ensures
        probe@ == interpreted(rec@, status, source, raw_state@),
{
    ProbeInterpretation {
        status: match status {
            Some(status) => status,
            None => rec.status,
        },
        source,
        raw_state,
        recognized: status.is_some(),
    }
}

/// What the answer to `remote_question` says of a run.
pub open spec fn observation(run: RunRecordView, stdout: Seq<char>) -> ProbeInterpretationView {
    match (
        text::without_prefix(stdout, SENTINEL_MARKER@),
        text::without_prefix(stdout, SCHEDULER_MARKER@),
    ) {
        (Some(body), _) => interpreted(
            run,
            terminal_status(body),
            ObservationSource::Sentinel,
            text::trimmed(body),
        ),
        (None, Some(body)) => interpreted(
            run,
            scheduler_status(run.runner, body),
            ObservationSource::Scheduler,
            text::trimmed(body),
        ),
        (None, None) => if run.remote_terminal is Some && terminal_status(stdout) is Some {
            interpreted(
                run,
                terminal_status(stdout),
                ObservationSource::Compatibility,
                text::trimmed(stdout),
            )
        } else {
            interpreted(
                run,
                scheduler_status(run.runner, stdout),
                ObservationSource::Compatibility,
                text::trimmed(stdout),
            )
        },
    }
}

pub fn interpret_observation(rec: &RunRecord, stdout: &str) -> (probe: ProbeInterpretation)
    ensures
        probe@ == observation(rec@, stdout@),
{
    if let Some(body) = strip_prefix(stdout, SENTINEL_MARKER) {
        let raw_state = trim(body.as_str());
        let status = parse_terminal(body.as_str());
        return make_interpretation(rec, status, ObservationSource::Sentinel, raw_state);
    }
    if let Some(body) = strip_prefix(stdout, SCHEDULER_MARKER) {
        let raw_state = trim(body.as_str());
        let status = mapped_scheduler_status(rec, body.as_str());
        return make_interpretation(rec, status, ObservationSource::Scheduler, raw_state);
    }
    let raw_state = trim(stdout);
    if rec.remote_terminal.is_some() {
        let status = parse_terminal(stdout);
        if status.is_some() {
            return make_interpretation(rec, status, ObservationSource::Compatibility, raw_state);
        }
    }
    let status = mapped_scheduler_status(rec, stdout);
    make_interpretation(rec, status, ObservationSource::Compatibility, raw_state)
}

pub fn interpret(rec: &RunRecord, stdout: &str) -> (status: RunStatus)
    ensures
        status == observation(rec@, stdout@).status,
{
    interpret_observation(rec, stdout).status
}

// ---------------------------------------------------------------------------
// Reading a batched answer
// ---------------------------------------------------------------------------

/// A line of the answer that gives the end of a numbered run.
pub open spec fn terminal_line(line: Seq<char>) -> Option<(nat, Seq<char>)> {
    match text::without_prefix(line, BATCH_TERMINAL@) {
        Some(rest) => match text::split_pair(rest, '|') {
            Some((number, body)) => match text::parse_up_to(number, usize::MAX as nat) {
                Some(index) => Some((index, text::trimmed(body))),
                None => None,
            },
            None => None,
        },
        None => None,
    }
}

pub open spec fn is_terminal_line(line: Seq<char>) -> bool {
    text::has_prefix(line, BATCH_TERMINAL@)
}

fn read_terminal_line(line: &str) -> (found: Option<(usize, String)>)
    ensures
        match found {
            Some((index, body)) => terminal_line(line@) == Some((index as nat, body@)),
            None => terminal_line(line@) is None,
        },
{
    match strip_prefix(line, BATCH_TERMINAL) {
        Some(rest) => match split_once(rest.as_str(), '|') {
            Some((number, body)) => match parse_u64(number.as_str()) {
                Some(index) => if index <= usize::MAX as u64 {
                    Some((index as usize, trim(body.as_str())))
                } else {
                    None
                },
                None => None,
            },
            None => None,
        },
        None => None,
    }
}

/// The exit code behind a marker.
pub open spec fn exit_line(line: Seq<char>, marker: Seq<char>) -> Option<u32> {
    match text::without_prefix(line, marker) {
        Some(rest) => match text::parse_up_to(text::trimmed(rest), u32::MAX as nat) {
            Some(code) => Some(code as u32),
            None => None,
        },
        None => None,
    }
}

fn read_exit_line(line: &str, marker: &str) -> (code: Option<u32>)
    ensures
        code == exit_line(line@, marker@),
{
    match strip_prefix(line, marker) {
        Some(rest) => parse_u32(trim(rest.as_str()).as_str()),
        None => None,
    }
}

/// A job and its state, where both are there.
pub open spec fn job_state(job: Seq<char>, state: Seq<char>) -> Option<(Seq<char>, Seq<char>)> {
    if job.len() > 0 && state.len() > 0 {
        Some((job, state))
    } else {
        None
    }
}

pub open spec fn squeue_line(line: Seq<char>) -> Option<(Seq<char>, Seq<char>)> {
    match text::split_pair(line, '|') {
        Some((job, state)) => job_state(text::trimmed(job), text::trimmed(state)),
        None => None,
    }
}

pub open spec fn sacct_line(line: Seq<char>) -> Option<(Seq<char>, Seq<char>)> {
    let fields = text::split_on(line, '|');
    let job = if fields.len() > 0 {
        text::trimmed(fields[0])
    } else {
        text::trimmed(Seq::empty())
    };
    let state = if fields.len() > 1 {
        text::trimmed(fields[1])
    } else {
        text::trimmed(Seq::empty())
    };
    job_state(job, state)
}

pub open spec fn bjobs_line(line: Seq<char>) -> Option<(Seq<char>, Seq<char>)> {
    let fields = text::words_of(line);
    let job = if fields.len() > 0 {
        text::trimmed(fields[0])
    } else {
        text::trimmed(Seq::empty())
    };
    let state = if fields.len() > 1 {
        text::trimmed(fields[1])
    } else {
        text::trimmed(Seq::empty())
    };
    job_state(job, state)
}

fn read_job_state(job: String, state: String) -> (found: Option<(String, String)>)
    ensures
        text::text_pair(found) == job_state(job@, state@),
{
    if job.as_str().is_empty() || state.as_str().is_empty() {
        None
    } else {
        Some((job, state))
    }
}

fn read_squeue_line(line: &str) -> (found: Option<(String, String)>)
    ensures
        text::text_pair(found) == squeue_line(line@),
{
    match split_once(line, '|') {
        Some((job, state)) => read_job_state(trim(job.as_str()), trim(state.as_str())),
        None => None,
    }
}

fn read_two_fields(fields: &Vec<String>) -> (found: Option<(String, String)>)
    ensures
        text::text_pair(found) == job_state(
            if fields@.len() > 0 {
                text::trimmed(fields@[0]@)
            } else {
                text::trimmed(Seq::empty())
            },
            if fields@.len() > 1 {
                text::trimmed(fields@[1]@)
            } else {
                text::trimmed(Seq::empty())
            },
        ),
{
    let job = if fields.len() > 0 {
        trim(fields[0].as_str())
    } else {
        trim(String::new().as_str())
    };
    let state = if fields.len() > 1 {
        trim(fields[1].as_str())
    } else {
        trim(String::new().as_str())
    };
    read_job_state(job, state)
}

fn read_sacct_line(line: &str) -> (found: Option<(String, String)>)
    ensures
        text::text_pair(found) == sacct_line(line@),
{
    let fields = split(line, '|');
    assert(text::texts(fields@).len() == fields@.len());
    assert(fields@.len() > 0 ==> text::texts(fields@)[0] == fields@[0]@);
    assert(fields@.len() > 1 ==> text::texts(fields@)[1] == fields@[1]@);
    read_two_fields(&fields)
}

fn read_bjobs_line(line: &str) -> (found: Option<(String, String)>)
    ensures
        text::text_pair(found) == bjobs_line(line@),
{
    let fields = split_whitespace(line);
    assert(text::texts(fields@).len() == fields@.len());
    assert(fields@.len() > 0 ==> text::texts(fields@)[0] == fields@[0]@);
    assert(fields@.len() > 1 ==> text::texts(fields@)[1] == fields@[1]@);
    read_two_fields(&fields)
}

/// Job states in the order in which they were printed.
pub open spec fn pairs(list: Seq<(String, String)>) -> Seq<(Seq<char>, Seq<char>)> {
    list.map_values(|pair: (String, String)| (pair.0@, pair.1@))
}

pub open spec fn numbered(list: Seq<(usize, String)>) -> Seq<(nat, Seq<char>)> {
    list.map_values(|pair: (usize, String)| (pair.0 as nat, pair.1@))
}

pub open spec fn by_job(job: Seq<char>) -> spec_fn((Seq<char>, Seq<char>)) -> bool {
    |pair: (Seq<char>, Seq<char>)| pair.0 == job
}

/// The first state that was printed for a job.
pub open spec fn state_of(list: Seq<(Seq<char>, Seq<char>)>, job: Seq<char>) -> Option<Seq<char>> {
    match seqs::first(list, by_job(job)) {
        Some(pair) => Some(pair.1),
        None => None,
    }
}

fn find_state(list: &Vec<(String, String)>, job: &str) -> (state: Option<String>)
    ensures
        text::text_opt(state) == state_of(pairs(list@), job@),
{
    let mut i: usize = 0;
    while i < list.len()
        invariant
            i <= list@.len(),
            forall|j: int| 0 <= j < i ==> !by_job(job@)(#[trigger] pairs(list@)[j]),
        decreases list@.len() - i,
    {
        if same(list[i].0.as_str(), job) {
            proof {
                assert(pairs(list@)[i as int] == (list@[i as int].0@, list@[i as int].1@));
                seqs::lemma_until(pairs(list@), by_job(job@), i as nat);
            }
            return Some(list[i].1.clone());
        }
        assert(!by_job(job@)(pairs(list@)[i as int]));
        i += 1;
    }
    proof {
        seqs::lemma_until(pairs(list@), by_job(job@), i as nat);
    }
    None
}

/// The last end that was printed for a numbered run.
pub open spec fn terminal_of(list: Seq<(nat, Seq<char>)>, index: nat) -> Option<Seq<char>>
    decreases list.len(),
{
    if list.len() == 0 {
        None
    } else if list.last().0 == index {
        Some(list.last().1)
    } else {
        terminal_of(list.drop_last(), index)
    }
}

fn find_terminal(list: &Vec<(usize, String)>, index: usize) -> (body: Option<String>)
    ensures
        text::text_opt(body) == terminal_of(numbered(list@), index as nat),
{
    let ghost all = numbered(list@);
    let mut i: usize = list.len();
    assert(all.take(i as int) =~= all);
    while i > 0
        invariant
            i <= list@.len(),
            all == numbered(list@),
            terminal_of(all, index as nat) == terminal_of(all.take(i as int), index as nat),
        decreases i,
    {
        proof {
            let now = all.take(i as int);
            assert(now.drop_last() =~= all.take(i - 1));
            assert(now.last() == (list@[i - 1].0 as nat, list@[i - 1].1@));
        }
        i -= 1;
        if list[i].0 == index {
            return Some(list[i].1.clone());
        }
    }
    None
}

fn push_pair(list: &mut Vec<(String, String)>, found: Option<(String, String)>)
    ensures
        pairs(final(list)@) == match text::text_pair(found) {
            Some(pair) => pairs(old(list)@).push(pair),
            None => pairs(old(list)@),
        },
{
    if let Some(pair) = found {
        list.push(pair);
        assert(pairs(list@) =~= pairs(old(list)@).push((pair.0@, pair.1@)));
    }
}

/// The part of Slurm's answer that is being read.
#[derive(Clone, Copy, PartialEq, Eq, Structural)]
pub enum SlurmSection {
    Outside,
    Squeue,
    Sacct,
}

/// What has been read of Slurm's answer.
pub struct SlurmScan {
    pub terminals: Seq<(nat, Seq<char>)>,
    pub squeue: Seq<(Seq<char>, Seq<char>)>,
    pub sacct: Seq<(Seq<char>, Seq<char>)>,
    pub squeue_exit: Option<u32>,
    pub sacct_exit: Option<u32>,
    pub section: SlurmSection,
}

pub open spec fn with_terminal(list: Seq<(nat, Seq<char>)>, line: Seq<char>) -> Seq<
    (nat, Seq<char>),
> {
    match terminal_line(line) {
        Some(found) => list.push(found),
        None => list,
    }
}

pub open spec fn with_pair(
    list: Seq<(Seq<char>, Seq<char>)>,
    found: Option<(Seq<char>, Seq<char>)>,
) -> Seq<(Seq<char>, Seq<char>)> {
    match found {
        Some(pair) => list.push(pair),
        None => list,
    }
}

pub open spec fn slurm_line(scan: SlurmScan, line: Seq<char>) -> SlurmScan {
    if is_terminal_line(line) {
        SlurmScan { terminals: with_terminal(scan.terminals, line), ..scan }
    } else if line == SLURM_BATCH_SQUEUE_BEGIN@ {
        SlurmScan { section: SlurmSection::Squeue, ..scan }
    } else if text::has_prefix(line, SLURM_BATCH_SQUEUE_END@) {
        SlurmScan {
            squeue_exit: exit_line(line, SLURM_BATCH_SQUEUE_END@),
            section: SlurmSection::Outside,
            ..scan
        }
    } else if line == SLURM_BATCH_SACCT_BEGIN@ {
        SlurmScan { section: SlurmSection::Sacct, ..scan }
    } else if text::has_prefix(line, SLURM_BATCH_SACCT_END@) {
        SlurmScan {
            sacct_exit: exit_line(line, SLURM_BATCH_SACCT_END@),
            section: SlurmSection::Outside,
            ..scan
        }
    } else {
        match scan.section {
            SlurmSection::Squeue => SlurmScan {
                squeue: with_pair(scan.squeue, squeue_line(line)),
                ..scan
            },
            SlurmSection::Sacct => SlurmScan {
                sacct: with_pair(scan.sacct, sacct_line(line)),
                ..scan
            },
            SlurmSection::Outside => scan,
        }
    }
}

pub open spec fn slurm_scan(list: Seq<Seq<char>>) -> SlurmScan
    decreases list.len(),
{
    if list.len() == 0 {
        SlurmScan {
            terminals: Seq::empty(),
            squeue: Seq::empty(),
            sacct: Seq::empty(),
            squeue_exit: None,
            sacct_exit: None,
            section: SlurmSection::Outside,
        }
    } else {
        slurm_line(slurm_scan(list.drop_last()), list.last())
    }
}

/// What the end that was printed for a run says of it.
pub open spec fn sentinel_result(run: RunRecordView, body: Seq<char>) -> (
    ProbeInterpretationView,
    Option<Seq<char>>,
) {
    (
        interpreted(run, terminal_status(body), ObservationSource::Sentinel, body),
        if terminal_status(body) is Some {
            None
        } else {
            Some("batch sentinel was not recognized"@)
        },
    )
}

pub open spec fn known(status: RunStatus) -> Option<RunStatus> {
    if status == RunStatus::Unknown {
        None
    } else {
        Some(status)
    }
}

/// What Slurm's answer says of the run with the given number: its end where
/// that was printed, or else the state in the queue, or else in accounting.
pub open spec fn slurm_batch_result(
    scan: SlurmScan,
    run: RunRecordView,
    index: nat,
) -> SlurmBatchProbeResultView {
    match terminal_of(scan.terminals, index) {
        Some(body) => SlurmBatchProbeResultView {
            probe: sentinel_result(run, body).0,
            reason: sentinel_result(run, body).1,
        },
        None => {
            let job = job_of()(run);
            let state = match state_of(scan.squeue, job) {
                Some(state) => Some(state),
                None => state_of(scan.sacct, job),
            };
            let status = match state {
                Some(state) => known(slurm_status(state)),
                None => None,
            };
            let failed = (scan.squeue_exit matches Some(code) && code != 0) || (
            scan.sacct_exit matches Some(code) && code != 0);
            SlurmBatchProbeResultView {
                probe: interpreted(
                    run,
                    status,
                    ObservationSource::Scheduler,
                    match state {
                        Some(state) => state,
                        None => Seq::empty(),
                    },
                ),
                reason: if status is Some {
                    None
                } else if failed {
                    Some(
                        "batched Slurm probe failed: squeue="@ + text::shown_option(
                            scan.squeue_exit,
                        ) + " sacct="@ + text::shown_option(scan.sacct_exit),
                    )
                } else {
                    Some("batched Slurm probe returned no recognized state"@)
                },
            }
        },
    }
}

pub open spec fn slurm_batch_results(runs: Seq<RunRecordView>, stdout: Seq<char>) -> Seq<
    SlurmBatchProbeResultView,
> {
    Seq::new(
        runs.len(),
        |i: int| slurm_batch_result(slurm_scan(text::lines_of(stdout)), runs[i], i as nat),
    )
}

struct SlurmTables {
    terminals: Vec<(usize, String)>,
    squeue: Vec<(String, String)>,
    sacct: Vec<(String, String)>,
    squeue_exit: Option<u32>,
    sacct_exit: Option<u32>,
    section: SlurmSection,
}

impl SlurmTables {
    spec fn scanned(self) -> SlurmScan {
        SlurmScan {
            terminals: numbered(self.terminals@),
            squeue: pairs(self.squeue@),
            sacct: pairs(self.sacct@),
            squeue_exit: self.squeue_exit,
            sacct_exit: self.sacct_exit,
            section: self.section,
        }
    }

    fn read_line(&mut self, line: &str)
        ensures
            final(self).scanned() == slurm_line(old(self).scanned(), line@),
    {
        if starts_with(line, BATCH_TERMINAL) {
            if let Some(found) = read_terminal_line(line) {
                self.terminals.push(found);
                assert(numbered(self.terminals@) =~= numbered(old(self).terminals@).push(
                    (found.0 as nat, found.1@),
                ));
            }
        } else if same(line, SLURM_BATCH_SQUEUE_BEGIN) {
            self.section = SlurmSection::Squeue;
        } else if starts_with(line, SLURM_BATCH_SQUEUE_END) {
            self.squeue_exit = read_exit_line(line, SLURM_BATCH_SQUEUE_END);
            self.section = SlurmSection::Outside;
        } else if same(line, SLURM_BATCH_SACCT_BEGIN) {
            self.section = SlurmSection::Sacct;
        } else if starts_with(line, SLURM_BATCH_SACCT_END) {
            self.sacct_exit = read_exit_line(line, SLURM_BATCH_SACCT_END);
            self.section = SlurmSection::Outside;
        } else {
            match self.section {
                SlurmSection::Squeue => push_pair(&mut self.squeue, read_squeue_line(line)),
                SlurmSection::Sacct => push_pair(&mut self.sacct, read_sacct_line(line)),
                SlurmSection::Outside => {},
            }
        }
    }

    fn result(&self, record: &RunRecord, index: usize) -> (result: SlurmBatchProbeResult)
        ensures
            result@ == slurm_batch_result(self.scanned(), record@, index as nat),
    {
        if let Some(body) = find_terminal(&self.terminals, index) {
            let (probe, reason) = read_sentinel(record, body);
            return SlurmBatchProbeResult { probe, reason };
        }
        let job = match &record.job_id {
            Some(job) => job.clone(),
            None => String::new(),
        };
        let state = match find_state(&self.squeue, job.as_str()) {
            Some(state) => Some(state),
            None => find_state(&self.sacct, job.as_str()),
        };
        let status = match &state {
            Some(state) => read_known(map_slurm(state.as_str())),
            None => None,
        };
        let failed = is_failure(self.squeue_exit) || is_failure(self.sacct_exit);
        let reason = if status.is_some() {
            None
        } else if failed {
            let mut reason = "batched Slurm probe failed: squeue=".to_owned();
            reason.append(show_option(self.squeue_exit).as_str());
            reason.append(" sacct=");
            reason.append(show_option(self.sacct_exit).as_str());
            Some(reason)
        } else {
            Some("batched Slurm probe returned no recognized state".to_owned())
        };
        let raw_state = match state {
            Some(state) => state,
            None => String::new(),
        };
        SlurmBatchProbeResult {
            probe: make_interpretation(record, status, ObservationSource::Scheduler, raw_state),
            reason,
        }
    }
}

fn is_failure(code: Option<u32>) -> (yes: bool)
    ensures
        yes == (code matches Some(number) && number != 0),
{
    match code {
        Some(number) => number != 0,
        None => false,
    }
}

fn read_known(status: RunStatus) -> (found: Option<RunStatus>)
    ensures
        found == known(status),
{
    if status == RunStatus::Unknown {
        None
    } else {
        Some(status)
    }
}

fn read_sentinel(record: &RunRecord, body: String) -> (read: (ProbeInterpretation, Option<String>))
    ensures
        (read.0@, text::text_opt(read.1)) == sentinel_result(record@, body@),
{
    let status = parse_terminal(body.as_str());
    let reason = if status.is_some() {
        None
    } else {
        Some("batch sentinel was not recognized".to_owned())
    };
    (make_interpretation(record, status, ObservationSource::Sentinel, body), reason)
}

pub fn interpret_slurm_batch(records: &[RunRecord], stdout: &str) -> (results: Vec<
    SlurmBatchProbeResult,
>)
    ensures
        results.deep_view() == slurm_batch_results(records.deep_view(), stdout@),
{
    let all = lines(stdout);
    let ghost read = text::lines_of(stdout@);
    let mut tables = SlurmTables {
        terminals: Vec::new(),
        squeue: Vec::new(),
        sacct: Vec::new(),
        squeue_exit: None,
        sacct_exit: None,
        section: SlurmSection::Outside,
    };
    let mut i: usize = 0;
    proof {
        assert(read.take(0) =~= Seq::<Seq<char>>::empty());
        assert(tables.scanned().terminals =~= Seq::<(nat, Seq<char>)>::empty());
        assert(tables.scanned().squeue =~= Seq::<(Seq<char>, Seq<char>)>::empty());
        assert(tables.scanned().sacct =~= Seq::<(Seq<char>, Seq<char>)>::empty());
        assert(text::texts(all@).len() == all@.len());
    }
    while i < all.len()
        invariant
            i <= all@.len(),
            all@.len() == read.len(),
            text::texts(all@) == read,
            tables.scanned() == slurm_scan(read.take(i as int)),
        decreases all@.len() - i,
    {
        proof {
            let now = read.take(i + 1);
            assert(now.drop_last() =~= read.take(i as int));
            assert(text::texts(all@)[i as int] == all@[i as int]@);
        }
        tables.read_line(all[i].as_str());
        i += 1;
    }
    assert(read.take(i as int) =~= read);
    let ghost runs = records.deep_view();
    let mut results: Vec<SlurmBatchProbeResult> = Vec::new();
    let mut k: usize = 0;
    while k < records.len()
        invariant
            k <= records@.len(),
            runs == records.deep_view(),
            tables.scanned() == slurm_scan(text::lines_of(stdout@)),
            results.deep_view() =~= slurm_batch_results(runs, stdout@).take(k as int),
        decreases records@.len() - k,
    {
        let ghost before = results;
        let result = tables.result(&records[k], k);
        results.push(result);
        proof {
            seqs::lemma_deep_push(before, results, result);
        }
        k += 1;
    }
    results
}

/// What has been read of LSF's answer.
pub struct LsfScan {
    pub terminals: Seq<(nat, Seq<char>)>,
    pub states: Seq<(Seq<char>, Seq<char>)>,
    pub bjobs_exit: Option<u32>,
    pub in_bjobs: bool,
}

pub open spec fn lsf_line(scan: LsfScan, line: Seq<char>) -> LsfScan {
    if is_terminal_line(line) {
        LsfScan { terminals: with_terminal(scan.terminals, line), ..scan }
    } else if line == LSF_BATCH_BJOBS_BEGIN@ {
        LsfScan { in_bjobs: true, ..scan }
    } else if text::has_prefix(line, LSF_BATCH_BJOBS_END@) {
        LsfScan {
            bjobs_exit: exit_line(line, LSF_BATCH_BJOBS_END@),
            in_bjobs: false,
            ..scan
        }
    } else if scan.in_bjobs {
        LsfScan { states: with_pair(scan.states, bjobs_line(line)), ..scan }
    } else {
        scan
    }
}

pub open spec fn lsf_scan(list: Seq<Seq<char>>) -> LsfScan
    decreases list.len(),
{
    if list.len() == 0 {
        LsfScan {
            terminals: Seq::empty(),
            states: Seq::empty(),
            bjobs_exit: None,
            in_bjobs: false,
        }
    } else {
        lsf_line(lsf_scan(list.drop_last()), list.last())
    }
}

/// What LSF's answer says of the run with the given number: its end where that
/// was printed, or else the state of its job.
pub open spec fn lsf_batch_result(
    scan: LsfScan,
    run: RunRecordView,
    index: nat,
) -> LsfBatchProbeResultView {
    match terminal_of(scan.terminals, index) {
        Some(body) => LsfBatchProbeResultView {
            probe: sentinel_result(run, body).0,
            reason: sentinel_result(run, body).1,
        },
        None => {
            let state = state_of(scan.states, job_of()(run));
            let status = match state {
                Some(state) => known(lsf_status(state)),
                None => None,
            };
            LsfBatchProbeResultView {
                probe: interpreted(
                    run,
                    status,
                    ObservationSource::Scheduler,
                    match state {
                        Some(state) => state,
                        None => Seq::empty(),
                    },
                ),
                reason: if status is Some {
                    None
                } else if scan.bjobs_exit matches Some(code) && code != 0 {
                    Some(
                        "batched LSF bjobs did not return this job (exit "@ + text::shown_option(
                            scan.bjobs_exit,
                        ) + "); use per-run bhist fallback"@,
                    )
                } else {
                    Some(
                        "batched LSF bjobs did not return a recognized state; use per-run bhist fallback"@,
                    )
                },
            }
        },
    }
}

pub open spec fn lsf_batch_results(runs: Seq<RunRecordView>, stdout: Seq<char>) -> Seq<
    LsfBatchProbeResultView,
> {
    Seq::new(
        runs.len(),
        |i: int| lsf_batch_result(lsf_scan(text::lines_of(stdout)), runs[i], i as nat),
    )
}

struct LsfTables {
    terminals: Vec<(usize, String)>,
    states: Vec<(String, String)>,
    bjobs_exit: Option<u32>,
    in_bjobs: bool,
}

impl LsfTables {
    spec fn scanned(self) -> LsfScan {
        LsfScan {
            terminals: numbered(self.terminals@),
            states: pairs(self.states@),
            bjobs_exit: self.bjobs_exit,
            in_bjobs: self.in_bjobs,
        }
    }

    fn read_line(&mut self, line: &str)
        ensures
            final(self).scanned() == lsf_line(old(self).scanned(), line@),
    {
        if starts_with(line, BATCH_TERMINAL) {
            if let Some(found) = read_terminal_line(line) {
                self.terminals.push(found);
                assert(numbered(self.terminals@) =~= numbered(old(self).terminals@).push(
                    (found.0 as nat, found.1@),
                ));
            }
        } else if same(line, LSF_BATCH_BJOBS_BEGIN) {
            self.in_bjobs = true;
        } else if starts_with(line, LSF_BATCH_BJOBS_END) {
            self.bjobs_exit = read_exit_line(line, LSF_BATCH_BJOBS_END);
            self.in_bjobs = false;
        } else if self.in_bjobs {
            push_pair(&mut self.states, read_bjobs_line(line));
        }
    }

    fn result(&self, record: &RunRecord, index: usize) -> (result: LsfBatchProbeResult)
        ensures
            result@ == lsf_batch_result(self.scanned(), record@, index as nat),
    {
        if let Some(body) = find_terminal(&self.terminals, index) {
            let (probe, reason) = read_sentinel(record, body);
            return LsfBatchProbeResult { probe, reason };
        }
        let job = match &record.job_id {
            Some(job) => job.clone(),
            None => String::new(),
        };
        let state = find_state(&self.states, job.as_str());
        let status = match &state {
            Some(state) => read_known(map_lsf(state.as_str())),
            None => None,
        };
        let reason = if status.is_some() {
            None
        } else if is_failure(self.bjobs_exit) {
            let mut reason = "batched LSF bjobs did not return this job (exit ".to_owned();
            reason.append(show_option(self.bjobs_exit).as_str());
            reason.append("); use per-run bhist fallback");
            Some(reason)
        } else {
            Some(
                "batched LSF bjobs did not return a recognized state; use per-run bhist fallback".to_owned(),
            )
        };
        let raw_state = match state {
            Some(state) => state,
            None => String::new(),
        };
        LsfBatchProbeResult {
            probe: make_interpretation(record, status, ObservationSource::Scheduler, raw_state),
            reason,
        }
    }
}

pub fn interpret_lsf_batch(records: &[RunRecord], stdout: &str) -> (results: Vec<
    LsfBatchProbeResult,
>)
    ensures
        results.deep_view() == lsf_batch_results(records.deep_view(), stdout@),
{
    let all = lines(stdout);
    let ghost read = text::lines_of(stdout@);
    let mut tables = LsfTables {
        terminals: Vec::new(),
        states: Vec::new(),
        bjobs_exit: None,
        in_bjobs: false,
    };
    let mut i: usize = 0;
    proof {
        assert(read.take(0) =~= Seq::<Seq<char>>::empty());
        assert(tables.scanned().terminals =~= Seq::<(nat, Seq<char>)>::empty());
        assert(tables.scanned().states =~= Seq::<(Seq<char>, Seq<char>)>::empty());
        assert(text::texts(all@).len() == all@.len());
    }
    while i < all.len()
        invariant
            i <= all@.len(),
            all@.len() == read.len(),
            text::texts(all@) == read,
            tables.scanned() == lsf_scan(read.take(i as int)),
        decreases all@.len() - i,
    {
        proof {
            let now = read.take(i + 1);
            assert(now.drop_last() =~= read.take(i as int));
            assert(text::texts(all@)[i as int] == all@[i as int]@);
        }
        tables.read_line(all[i].as_str());
        i += 1;
    }
    assert(read.take(i as int) =~= read);
    let ghost runs = records.deep_view();
    let mut results: Vec<LsfBatchProbeResult> = Vec::new();
    let mut k: usize = 0;
    while k < records.len()
        invariant
            k <= records@.len(),
            runs == records.deep_view(),
            tables.scanned() == lsf_scan(text::lines_of(stdout@)),
            results.deep_view() =~= lsf_batch_results(runs, stdout@).take(k as int),
        decreases records@.len() - k,
    {
        let ghost before = results;
        let result = tables.result(&records[k], k);
        results.push(result);
        proof {
            seqs::lemma_deep_push(before, results, result);
        }
        k += 1;
    }
    results
}

// ---------------------------------------------------------------------------
// Laws
// ---------------------------------------------------------------------------

/// An answer that is not understood never changes the status of a run, and one
/// that is understood never makes it unknown.
pub proof fn unrecognized_answer_keeps_status(run: RunRecordView, stdout: Seq<char>)
    ensures
        !observation(run, stdout).recognized ==> observation(run, stdout).status == run.status,
        observation(run, stdout).recognized ==> observation(run, stdout).status
            != RunStatus::Unknown,
{
    match text::without_prefix(stdout, SENTINEL_MARKER@) {
        Some(body) => terminal_status_is_terminal(body),
        None => terminal_status_is_terminal(stdout),
    }
}

/// The file of a run's end tells only of ends.
pub proof fn terminal_status_is_terminal(body: Seq<char>)
    ensures
        terminal_status(body) matches Some(status) ==> status.terminal(),
    decreases body.len(),
{
    match nested_status(text::trimmed(body)) {
        Some(status) => if status.len() < body.len() {
            terminal_status_is_terminal(status);
        },
        None => {},
    }
}

/// A batched answer gives one result for each run, in the order of the
/// question; a result that was not understood keeps the run's status and says
/// why.
pub proof fn slurm_batch_answers_every_run(runs: Seq<RunRecordView>, stdout: Seq<char>, i: int)
    requires
        0 <= i < runs.len(),
    ensures
        slurm_batch_results(runs, stdout).len() == runs.len(),
        ({
            let result = slurm_batch_results(runs, stdout)[i];
            &&& result.probe.recognized <==> result.reason is None
            &&& !result.probe.recognized ==> result.probe.status == runs[i].status
        }),
{
}

/// The same holds of the batched answer of LSF.
pub proof fn lsf_batch_answers_every_run(runs: Seq<RunRecordView>, stdout: Seq<char>, i: int)
    requires
        0 <= i < runs.len(),
    ensures
        lsf_batch_results(runs, stdout).len() == runs.len(),
        ({
            let result = lsf_batch_results(runs, stdout)[i];
            &&& result.probe.recognized <==> result.reason is None
            &&& !result.probe.recognized ==> result.probe.status == runs[i].status
        }),
{
}

} // verus!
