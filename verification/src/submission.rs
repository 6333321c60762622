//! Starting a run on a scheduler: what is checked, what is sent, and what is
//! made of each answer.
pub mod laws;

use crate::encoding;
use crate::encoding::{encode_base64, show_text};
use crate::seqs;
use crate::store::runs;
use crate::store::submissions;
use crate::store::{RunStore, StoreView};
use crate::text;
use crate::text::{
    alphanumeric, blank, byte_length, chars_of, contains_break, contains_char, decimal_text, digit,
    join, lines, same, shell_quote, show_option, starts_with, trim, trim_end_matches,
};
use crate::time::Timestamp;
use crate::types::{
    clone_text, ContinuationBinding, ContinuationBindingView, RemoteWorkspaceRef,
    RemoteWorkspaceRefView, RunAttemptRecord, RunAttemptRecordView, RunRecord, RunRecordView,
    RunResources, RunResourcesView, RunStatus, RunnerKind, SubmitRunSpec, SubmitRunSpecView,
};
use vstd::prelude::*;
use vstd::string::*;
use vstd::utf8::*;

verus! {

pub const MAX_COMMAND_BYTES: usize = 65536;

// ---------------------------------------------------------------------------
// Answers of a host
// ---------------------------------------------------------------------------

/// What a command on a host gave.
#[derive(Debug, PartialEq, Eq)]
pub struct ExecOutput {
    pub code: Option<u32>,
    pub stdout: String,
    pub stderr: String,
}

/// What a `ExecOutput` says.
pub struct ExecOutputView {
    pub code: Option<u32>,
    pub stdout: Seq<char>,
    pub stderr: Seq<char>,
}

impl View for ExecOutput {
    type V = ExecOutputView;

    open spec fn view(&self) -> ExecOutputView {
        ExecOutputView {
            code: self.code,
            stdout: self.stdout@,
            stderr: self.stderr@,
        }
    }
}

impl DeepView for ExecOutput {
    type V = ExecOutputView;

    open spec fn deep_view(&self) -> ExecOutputView {
        self.view()
    }
}

impl Clone for ExecOutput {
    fn clone(&self) -> (copy: Self)
        ensures
            copy@ == self@,
    {
        ExecOutput {
            code: self.code,
            stdout: self.stdout.clone(),
            stderr: self.stderr.clone(),
        }
    }
}

/// Why a host could not be asked, in few words and in all of them.
#[derive(Debug, PartialEq, Eq)]
pub struct TransportError {
    pub brief: String,
    pub full: String,
}

/// What a `TransportError` says.
pub struct TransportErrorView {
    pub brief: Seq<char>,
    pub full: Seq<char>,
}

impl View for TransportError {
    type V = TransportErrorView;

    open spec fn view(&self) -> TransportErrorView {
        TransportErrorView {
            brief: self.brief@,
            full: self.full@,
        }
    }
}

impl DeepView for TransportError {
    type V = TransportErrorView;

    open spec fn deep_view(&self) -> TransportErrorView {
        self.view()
    }
}

impl Clone for TransportError {
    fn clone(&self) -> (copy: Self)
        ensures
            copy@ == self@,
    {
        TransportError {
            brief: self.brief.clone(),
            full: self.full.clone(),
        }
    }
}

/// What came of asking a host.
#[derive(Debug, PartialEq, Eq)]
pub enum ExecResult {
    Output(ExecOutput),
    Failure(TransportError),
}

/// What an `ExecResult` says.
pub enum ExecResultView {
    Output(ExecOutputView),
    Failure(TransportErrorView),
}

impl View for ExecResult {
    type V = ExecResultView;

    open spec fn view(&self) -> ExecResultView {
        match *self {
            ExecResult::Output(output) => ExecResultView::Output(output@),
            ExecResult::Failure(error) => ExecResultView::Failure(error@),
        }
    }
}

// ---------------------------------------------------------------------------
// What is checked
// ---------------------------------------------------------------------------

/// The name of a runner as a diagnostic shows it.
pub open spec fn runner_name(runner: RunnerKind) -> Seq<char> {
    match runner {
        RunnerKind::Slurm => "Slurm"@,
        RunnerKind::Lsf => "Lsf"@,
        RunnerKind::Process => "Process"@,
        RunnerKind::File => "File"@,
        RunnerKind::Powershell => "Powershell"@,
    }
}

pub fn show_runner(runner: RunnerKind) -> (name: String)
    ensures
        name@ == runner_name(runner),
{
    match runner {
        RunnerKind::Slurm => "Slurm".to_owned(),
        RunnerKind::Lsf => "Lsf".to_owned(),
        RunnerKind::Process => "Process".to_owned(),
        RunnerKind::File => "File".to_owned(),
        RunnerKind::Powershell => "Powershell".to_owned(),
    }
}

pub open spec fn is_id_char(ch: char) -> bool {
    text::is_alphanumeric(ch) || ch == '_' || ch == '-' || ch == '.'
}

/// Whether a text can name a run.
pub open spec fn valid_run_id(run_id: Seq<char>) -> bool {
    &&& run_id.len() > 0
    &&& text::byte_len(run_id) <= 96
    &&& forall|i: int| 0 <= i < run_id.len() ==> is_id_char(#[trigger] run_id[i])
}

pub fn check_run_id(run_id: &str) -> (valid: bool)
    ensures
        valid == valid_run_id(run_id@),
{
    if run_id.is_empty() || byte_length(run_id) > 96 {
        return false;
    }
    let chars = chars_of(run_id);
    let mut i: usize = 0;
    while i < chars.len()
        invariant
            i <= chars@.len(),
            chars@ == run_id@,
            forall|j: int| 0 <= j < i ==> is_id_char(#[trigger] run_id@[j]),
        decreases chars@.len() - i,
    {
        let ch = chars[i];
        if !alphanumeric(ch) && ch != '_' && ch != '-' && ch != '.' {
            assert(!is_id_char(run_id@[i as int]));
            return false;
        }
        i += 1;
    }
    true
}

/// A short text of such characters is as long in bytes as in characters.
pub proof fn lemma_id_length(run_id: Seq<char>)
    requires
        0 < run_id.len() <= 96,
        forall|i: int| 0 <= i < run_id.len() ==> is_id_char(#[trigger] run_id[i]),
    ensures
        valid_run_id(run_id),
{
    assert(vstd::utf8::is_ascii_chars(run_id));
    vstd::utf8::is_ascii_chars_encode_utf8(run_id);
}

/// Whether a command can be run at all.
pub open spec fn command_refusal(command: Seq<char>) -> Option<Seq<char>> {
    if text::is_blank(command) || text::byte_len(command) > MAX_COMMAND_BYTES {
        Some("command must be non-empty and at most 65536 bytes"@)
    } else if text::has_char(command, '\0') {
        Some("command must not contain NUL"@)
    } else {
        None
    }
}

pub fn check_command(command: &str) -> (refusal: Option<String>)
    ensures
        text::text_opt(refusal) == command_refusal(command@),
{
    if blank(command) || byte_length(command) > MAX_COMMAND_BYTES {
        return Some("command must be non-empty and at most 65536 bytes".to_owned());
    }
    if contains_char(command, '\0') {
        return Some("command must not contain NUL".to_owned());
    }
    None
}

/// Whether an optional text holds a line break or a NUL.
pub open spec fn broken(value: Option<Seq<char>>) -> bool {
    value matches Some(chars) && text::has_break(chars)
}

/// Whether an optional text is there and empty, or holds a line break or a NUL.
pub open spec fn empty_or_broken(value: Option<Seq<char>>) -> bool {
    value matches Some(chars) && (chars.len() == 0 || text::has_break(chars))
}

pub fn is_broken(value: &Option<String>) -> (yes: bool)
    ensures
        yes == broken(text::text_opt(*value)),
{
    match value {
        Some(chars) => contains_break(chars.as_str()),
        None => false,
    }
}

pub fn is_empty_or_broken(value: &Option<String>) -> (yes: bool)
    ensures
        yes == empty_or_broken(text::text_opt(*value)),
{
    match value {
        Some(chars) => chars.as_str().is_empty() || contains_break(chars.as_str()),
        None => false,
    }
}

/// Why a binding does not go with a workspace on a host.
pub open spec fn binding_refusal(
    binding: ContinuationBindingView,
    workspace: RemoteWorkspaceRefView,
) -> Option<Seq<char>> {
    if binding.agent_kind != "pi"@ {
        Some("Remote Execution v2 currently supports continuation.agent_kind=pi only"@)
    } else if text::is_blank(binding.session_id) || text::has_break(binding.project_root)
        || binding.workspace != workspace {
        Some("continuation binding is invalid or does not match the submitted workspace"@)
    } else if broken(binding.session_file) || broken(binding.origin_leaf_id) || empty_or_broken(
        binding.adapter_path,
    ) {
        Some("continuation binding contains invalid multiline/NUL identity data"@)
    } else {
        None
    }
}

fn check_binding(binding: &ContinuationBinding, workspace: &RemoteWorkspaceRef) -> (refusal: Option<
    String,
>)
    ensures
        text::text_opt(refusal) == binding_refusal(binding@, workspace@),
{
    if !same(binding.agent_kind.as_str(), "pi") {
        return Some(
            "Remote Execution v2 currently supports continuation.agent_kind=pi only".to_owned(),
        );
    }
    if blank(binding.session_id.as_str()) || contains_break(binding.project_root.as_str())
        || !binding.workspace.same(workspace) {
        return Some(
            "continuation binding is invalid or does not match the submitted workspace".to_owned(),
        );
    }
    if is_broken(&binding.session_file) || is_broken(&binding.origin_leaf_id)
        || is_empty_or_broken(&binding.adapter_path) {
        return Some(
            "continuation binding contains invalid multiline/NUL identity data".to_owned(),
        );
    }
    None
}

/// Why a scheduler cannot be asked for the resources.
pub open spec fn resources_refusal(resources: RunResourcesView) -> Option<Seq<char>> {
    if empty_or_broken(resources.time) || empty_or_broken(resources.partition) || empty_or_broken(
        resources.queue,
    ) || empty_or_broken(resources.account) || empty_or_broken(resources.mem) {
        Some("resource values must be non-empty single-line strings"@)
    } else if resources.cpus == Some(0u32) || resources.gpus == Some(0u32) {
        Some("resource counts must be positive"@)
    } else {
        None
    }
}

fn check_resources(resources: &RunResources) -> (refusal: Option<String>)
    ensures
        text::text_opt(refusal) == resources_refusal(resources@),
{
    if is_empty_or_broken(&resources.time) || is_empty_or_broken(&resources.partition)
        || is_empty_or_broken(&resources.queue) || is_empty_or_broken(&resources.account)
        || is_empty_or_broken(&resources.mem) {
        return Some("resource values must be non-empty single-line strings".to_owned());
    }
    if resources.cpus == Some(0u32) || resources.gpus == Some(0u32) {
        return Some("resource counts must be positive".to_owned());
    }
    None
}

/// Why a run cannot be submitted to a scheduler.
pub open spec fn spec_refusal(spec: SubmitRunSpecView) -> Option<Seq<char>> {
    let cwd = spec.workspace.cwd;
    if !valid_run_id(spec.run_id) {
        Some("run_id must be 1..96 ASCII letters/digits/._-"@)
    } else if command_refusal(spec.command) is Some {
        command_refusal(spec.command)
    } else if text::is_blank(spec.workspace.host_alias) || text::has_break(
        spec.workspace.host_alias,
    ) {
        Some("workspace.host_alias is invalid"@)
    } else if !text::has_prefix(cwd, "/"@) || cwd == "/"@ || text::has_break(cwd) {
        Some("SSH workspace.cwd must be an absolute non-root POSIX path"@)
    } else if spec.runner != RunnerKind::Slurm && spec.runner != RunnerKind::Lsf {
        Some("Remote Execution v2 does not support runner "@ + runner_name(spec.runner) + " yet"@)
    } else {
        let bound = match spec.continuation {
            Some(binding) => binding_refusal(binding, spec.workspace),
            None => None,
        };
        if bound is Some {
            bound
        } else {
            resources_refusal(spec.resources)
        }
    }
}

pub fn validate_spec(spec: &SubmitRunSpec) -> (result: Result<(), String>)
    ensures
        match result {
            Ok(_) => spec_refusal(spec@) is None,
            Err(reason) => spec_refusal(spec@) == Some(reason@),
        },
{
    if !check_run_id(spec.run_id.as_str()) {
        return Err("run_id must be 1..96 ASCII letters/digits/._-".to_owned());
    }
    if let Some(reason) = check_command(spec.command.as_str()) {
        return Err(reason);
    }
    if blank(spec.workspace.host_alias.as_str()) || contains_break(
        spec.workspace.host_alias.as_str(),
    ) {
        return Err("workspace.host_alias is invalid".to_owned());
    }
    let cwd = spec.workspace.cwd.as_str();
    if !starts_with(cwd, "/") || same(cwd, "/") || contains_break(cwd) {
        return Err("SSH workspace.cwd must be an absolute non-root POSIX path".to_owned());
    }
    if spec.runner != RunnerKind::Slurm && spec.runner != RunnerKind::Lsf {
        let mut reason = "Remote Execution v2 does not support runner ".to_owned();
        reason.append(show_runner(spec.runner).as_str());
        reason.append(" yet");
        return Err(reason);
    }
    if let Some(binding) = &spec.continuation {
        if let Some(reason) = check_binding(binding, &spec.workspace) {
            return Err(reason);
        }
    }
    match check_resources(&spec.resources) {
        Some(reason) => Err(reason),
        None => Ok(()),
    }
}

// ---------------------------------------------------------------------------
// What is planned
// ---------------------------------------------------------------------------

pub open spec fn job_char(ch: char) -> char {
    if text::is_alphanumeric(ch) {
        ch
    } else {
        '-'
    }
}

/// The name under which a scheduler knows an attempt.
pub open spec fn job_name_of(run_id: Seq<char>, attempt_no: u32) -> Seq<char> {
    "rw-"@ + text::first_chars(run_id, 48).map_values(|ch: char| job_char(ch)) + "-a"@
        + text::decimal(attempt_no as nat)
}

pub fn scheduler_job_name(run_id: &str, attempt_no: u32) -> (name: String)
    ensures
        name@ == job_name_of(run_id@, attempt_no),
{
    let chars = chars_of(run_id);
    let ghost head = text::first_chars(run_id@, 48);
    let mut compact = String::new();
    let mut i: usize = 0;
    while i < chars.len() && i < 48
        invariant
            i <= chars@.len(),
            i <= 48,
            chars@ == run_id@,
            head == text::first_chars(run_id@, 48),
            compact@ =~= head.map_values(|ch: char| job_char(ch)).take(i as int),
        decreases 48 - i,
    {
        let ch = chars[i];
        if alphanumeric(ch) {
            compact.push(ch);
        } else {
            compact.push('-');
        }
        i += 1;
    }
    assert(compact@ =~= head.map_values(|ch: char| job_char(ch)));
    let mut name = "rw-".to_owned();
    name.append(compact.as_str());
    name.append("-a");
    name.append(decimal_text(attempt_no as u64).as_str());
    name
}

/// A run as it is to be submitted, and the files it will have on its host.
#[derive(Debug, PartialEq, Eq)]
pub struct SubmissionPlan {
    pub spec: SubmitRunSpec,
    pub attempt_no: u32,
    pub job_name: String,
    pub run_dir: String,
    pub script_path: String,
    pub stdout_path: String,
    pub stderr_path: String,
    pub terminal_path: String,
    pub receipt_path: String,
}

/// What a `SubmissionPlan` says.
pub struct SubmissionPlanView {
    pub spec: SubmitRunSpecView,
    pub attempt_no: u32,
    pub job_name: Seq<char>,
    pub run_dir: Seq<char>,
    pub script_path: Seq<char>,
    pub stdout_path: Seq<char>,
    pub stderr_path: Seq<char>,
    pub terminal_path: Seq<char>,
    pub receipt_path: Seq<char>,
}

impl View for SubmissionPlan {
    type V = SubmissionPlanView;

    open spec fn view(&self) -> SubmissionPlanView {
        SubmissionPlanView {
            spec: self.spec@,
            attempt_no: self.attempt_no,
            job_name: self.job_name@,
            run_dir: self.run_dir@,
            script_path: self.script_path@,
            stdout_path: self.stdout_path@,
            stderr_path: self.stderr_path@,
            terminal_path: self.terminal_path@,
            receipt_path: self.receipt_path@,
        }
    }
}

impl DeepView for SubmissionPlan {
    type V = SubmissionPlanView;

    open spec fn deep_view(&self) -> SubmissionPlanView {
        self.view()
    }
}

impl Clone for SubmissionPlan {
    fn clone(&self) -> (copy: Self)
        ensures
            copy@ == self@,
    {
        SubmissionPlan {
            spec: self.spec.clone(),
            attempt_no: self.attempt_no,
            job_name: self.job_name.clone(),
            run_dir: self.run_dir.clone(),
            script_path: self.script_path.clone(),
            stdout_path: self.stdout_path.clone(),
            stderr_path: self.stderr_path.clone(),
            terminal_path: self.terminal_path.clone(),
            receipt_path: self.receipt_path.clone(),
        }
    }
}

pub open spec fn run_dir_of(spec: SubmitRunSpecView) -> Seq<char> {
    text::trim_end_char(spec.workspace.cwd, '/') + "/.runwatch/"@ + spec.run_id
}

/// The plan for the first attempt of a run.
pub open spec fn planned(spec: SubmitRunSpecView) -> SubmissionPlanView {
    let dir = run_dir_of(spec);
    SubmissionPlanView {
        spec,
        attempt_no: 1,
        job_name: job_name_of(spec.run_id, 1),
        run_dir: dir,
        script_path: dir + "/attempt-1.sh"@,
        stdout_path: dir + "/stdout.log"@,
        stderr_path: dir + "/stderr.log"@,
        terminal_path: dir + "/terminal.json"@,
        receipt_path: dir + "/submission.receipt"@,
    }
}

/// The run as it is entered before it is submitted.
pub open spec fn planned_run(plan: SubmissionPlanView, now: Timestamp) -> RunRecordView {
    let binding = plan.spec.continuation;
    RunRecordView {
        run_id: plan.spec.run_id,
        name: plan.spec.name,
        host: plan.spec.workspace.host_alias,
        job_id: None,
        runner: plan.spec.runner,
        remote_terminal: Some(plan.terminal_path),
        status: RunStatus::Submitting,
        workspace: Some(plan.spec.workspace),
        attempt_no: Some(plan.attempt_no),
        session_id: match binding {
            Some(binding) => Some(binding.session_id),
            None => None,
        },
        project_root: match binding {
            Some(binding) => Some(binding.project_root),
            None => None,
        },
        agent: match binding {
            Some(binding) => Some(binding.agent_kind),
            None => None,
        },
        updated_at: now,
        note: None,
    }
}

/// The attempt as it is entered before it is submitted.
pub open spec fn planned_attempt(plan: SubmissionPlanView, now: Timestamp) -> RunAttemptRecordView {
    RunAttemptRecordView {
        run_id: plan.spec.run_id,
        attempt_no: plan.attempt_no,
        runner: plan.spec.runner,
        host: plan.spec.workspace.host_alias,
        workdir: plan.spec.workspace.cwd,
        command: plan.spec.command,
        resources: plan.spec.resources,
        job_name: plan.job_name,
        job_id: None,
        script_path: plan.script_path,
        stdout_path: plan.stdout_path,
        stderr_path: plan.stderr_path,
        terminal_path: plan.terminal_path,
        receipt_path: plan.receipt_path,
        status: RunStatus::Submitting,
        created_at: now,
        updated_at: now,
        error: None,
    }
}

/// The script that runs the command and leaves its end in a file, whole or not
/// at all.
pub open spec fn wrapper_of(plan: SubmissionPlanView) -> Seq<char> {
    "#!/usr/bin/env bash\nset +e\ncd -- "@
        + text::shell_word(plan.spec.workspace.cwd)
        + " || exit 111\n(\n"@
        + plan.spec.command
        + "\n)\nrc=$?\nif [ \"$rc\" -eq 0 ]; then status=succeeded; else status=failed; fi\nfinished=$(date -u +'%Y-%m-%dT%H:%M:%SZ')\nterminal="@
        + text::shell_word(plan.terminal_path)
        + "\ntmp=\"${terminal}.tmp.$$\"\nprintf '{\"schema_version\":1,\"run_id\":\""@
        + plan.spec.run_id
        + "\",\"attempt_no\":"@
        + text::decimal(plan.attempt_no as nat)
        + ",\"status\":\"%s\",\"exit_code\":%d,\"finished_at\":\"%s\"}\\n' \"$status\" \"$rc\" \"$finished\" > \"$tmp\"\nmv -f -- \"$tmp\" \"$terminal\"\nexit \"$rc\"\n"@
}

/// The command that puts the script on the host.
pub open spec fn deploy_of(plan: SubmissionPlanView) -> Seq<char> {
    "umask 077 && mkdir -p -- "@
        + text::shell_word(plan.run_dir)
        + " && printf '%s' "@
        + text::shell_word(encoding::base64_text(encode_utf8(wrapper_of(plan))))
        + " | base64 -d > "@
        + text::shell_word(plan.script_path)
        + " && chmod 700 -- "@
        + text::shell_word(plan.script_path)
}

/// How the job's number is read from what the scheduler printed.
pub open spec fn job_parser(runner: RunnerKind) -> Seq<char> {
    if runner == RunnerKind::Slurm {
        "job=${out%%;*}; job=${job%%$'\\n'*}"@
    } else {
        "job=$(printf '%s\\n' \"$out\" | sed -n 's/.*Job <\\([0-9][0-9]*\\)>.*/\\1/p' | head -n 1)"@
    }
}

/// A flag with its value, where there is one.
pub open spec fn option_args(flag: Seq<char>, value: Option<Seq<char>>) -> Seq<Seq<char>> {
    match value {
        Some(value) => seq![flag, text::shell_word(value)],
        None => Seq::empty(),
    }
}

/// A flag that is written together with its number, where there is one.
pub open spec fn count_arg(flag: Seq<char>, count: Option<u32>) -> Seq<Seq<char>> {
    match count {
        Some(count) => seq![flag + text::decimal(count as nat)],
        None => Seq::empty(),
    }
}

/// How Slurm is asked to start the script.
pub open spec fn slurm_args(plan: SubmissionPlanView) -> Seq<Seq<char>> {
    let resources = plan.spec.resources;
    slurm_job_args(plan) + option_args("--time"@, resources.time) + option_args(
        "--partition"@,
        resources.partition,
    ) + option_args("--account"@, resources.account) + count_arg(
        "--cpus-per-task="@,
        resources.cpus,
    ) + memory_arg(resources.mem) + count_arg("--gpus="@, resources.gpus) + seq![
        text::shell_word(plan.script_path),
    ]
}

pub open spec fn slurm_job_args(plan: SubmissionPlanView) -> Seq<Seq<char>> {
    seq![
        "sbatch"@,
        "--parsable"@,
        "--job-name"@,
        text::shell_word(plan.job_name),
        "--chdir"@,
        text::shell_word(plan.spec.workspace.cwd),
        "--output"@,
        text::shell_word(plan.stdout_path),
        "--error"@,
        text::shell_word(plan.stderr_path),
    ]
}

pub open spec fn memory_arg(mem: Option<Seq<char>>) -> Seq<Seq<char>> {
    match mem {
        Some(mem) => seq!["--mem="@ + text::shell_word(mem)],
        None => Seq::empty(),
    }
}

/// How LSF is asked to start what it reads.
pub open spec fn lsf_args(plan: SubmissionPlanView) -> Seq<Seq<char>> {
    let resources = plan.spec.resources;
    lsf_job_args(plan) + option_args("-W"@, resources.time) + option_args("-q"@, resources.queue)
        + option_args("-P"@, resources.account) + cpu_args(resources.cpus) + option_args(
        "-M"@,
        resources.mem,
    ) + gpu_args(resources.gpus)
}

pub open spec fn lsf_job_args(plan: SubmissionPlanView) -> Seq<Seq<char>> {
    seq![
        "bsub"@,
        "-J"@,
        text::shell_word(plan.job_name),
        "-oo"@,
        text::shell_word(plan.stdout_path),
        "-eo"@,
        text::shell_word(plan.stderr_path),
    ]
}

pub open spec fn cpu_args(cpus: Option<u32>) -> Seq<Seq<char>> {
    match cpus {
        Some(cpus) => seq!["-n"@, text::decimal(cpus as nat)],
        None => Seq::empty(),
    }
}

pub open spec fn gpu_args(gpus: Option<u32>) -> Seq<Seq<char>> {
    match gpus {
        Some(gpus) => seq!["-gpu"@, text::shell_word("num="@ + text::decimal(gpus as nat))],
        None => Seq::empty(),
    }
}

pub open spec fn slurm_submit_of(plan: SubmissionPlanView) -> Result<Seq<char>, Seq<char>> {
    if plan.spec.resources.queue is Some {
        Err("Slurm submission uses resources.partition, not resources.queue"@)
    } else {
        Ok(text::joined(slurm_args(plan), " "@))
    }
}

pub open spec fn lsf_submit_of(plan: SubmissionPlanView) -> Result<Seq<char>, Seq<char>> {
    if plan.spec.resources.partition is Some {
        Err("LSF submission uses resources.queue, not resources.partition"@)
    } else {
        Ok(text::joined(lsf_args(plan), " "@) + " < "@ + text::shell_word(plan.script_path))
    }
}

/// The command that starts the job unless the receipt says that it was started,
/// and prints the number of the job.
pub open spec fn guarded_submit(plan: SubmissionPlanView, submit: Seq<char>) -> Seq<char> {
    "receipt="@
        + text::shell_word(plan.receipt_path)
        + "; if [ -s \"$receipt\" ]; then head -n 1 -- \"$receipt\"; exit 0; fi; out=$("@
        + submit
        + " 2>&1); rc=$?; if [ \"$rc\" -ne 0 ]; then printf '%s\\n' \"$out\" >&2; exit \"$rc\"; fi; "@
        + job_parser(plan.spec.runner)
        + "; case \"$job\" in ''|*[!0-9_]* ) printf 'invalid scheduler job id: %s\\n' \"$out\" >&2; exit 65;; esac; tmp=\"${receipt}.tmp.$$\"; printf '%s\\n' \"$job\" > \"$tmp\" && mv -f -- \"$tmp\" \"$receipt\"; printf '%s\\n' \"$job\""@
}

pub open spec fn submit_of(plan: SubmissionPlanView) -> Result<Seq<char>, Seq<char>> {
    let submit = match plan.spec.runner {
        RunnerKind::Slurm => slurm_submit_of(plan),
        RunnerKind::Lsf => lsf_submit_of(plan),
        other => Err(
            "Remote Execution v2 does not support runner "@ + runner_name(other) + " yet"@,
        ),
    };
    match submit {
        Ok(submit) => Ok(guarded_submit(plan, submit)),
        Err(reason) => Err(reason),
    }
}

/// The characters of either text.
pub open spec fn text_result(result: Result<String, String>) -> Result<Seq<char>, Seq<char>> {
    match result {
        Ok(value) => Ok(value@),
        Err(reason) => Err(reason@),
    }
}

fn push_arg(args: &mut Vec<String>, arg: String)
    ensures
        text::texts(final(args)@) == text::texts(old(args)@).push(arg@),
{
    proof {
        text::lemma_texts_push(args@, arg);
    }
    args.push(arg);
}

fn push_option(args: &mut Vec<String>, flag: &str, value: &Option<String>)
    ensures
        text::texts(final(args)@) == text::texts(old(args)@) + option_args(
            flag@,
            text::text_opt(*value),
        ),
{
    if let Some(value) = value {
        push_arg(args, flag.to_owned());
        push_arg(args, shell_quote(value.as_str()));
    }
    assert(text::texts(args@) =~= text::texts(old(args)@) + option_args(
        flag@,
        text::text_opt(*value),
    ));
}

fn push_count(args: &mut Vec<String>, flag: &str, count: Option<u32>)
    ensures
        text::texts(final(args)@) == text::texts(old(args)@) + count_arg(flag@, count),
{
    if let Some(count) = count {
        let mut arg = flag.to_owned();
        arg.append(decimal_text(count as u64).as_str());
        push_arg(args, arg);
    }
    assert(text::texts(args@) =~= text::texts(old(args)@) + count_arg(flag@, count));
}

fn push_cpus(args: &mut Vec<String>, cpus: Option<u32>)
    ensures
        text::texts(final(args)@) == text::texts(old(args)@) + cpu_args(cpus),
{
    if let Some(cpus) = cpus {
        push_arg(args, "-n".to_owned());
        push_arg(args, decimal_text(cpus as u64));
    }
    assert(text::texts(args@) =~= text::texts(old(args)@) + cpu_args(cpus));
}

fn push_gpus(args: &mut Vec<String>, gpus: Option<u32>)
    ensures
        text::texts(final(args)@) == text::texts(old(args)@) + gpu_args(gpus),
{
    if let Some(gpus) = gpus {
        let mut number = "num=".to_owned();
        number.append(decimal_text(gpus as u64).as_str());
        push_arg(args, "-gpu".to_owned());
        push_arg(args, shell_quote(number.as_str()));
    }
    assert(text::texts(args@) =~= text::texts(old(args)@) + gpu_args(gpus));
}

fn push_memory(args: &mut Vec<String>, mem: &Option<String>)
    ensures
        text::texts(final(args)@) == text::texts(old(args)@) + memory_arg(text::text_opt(*mem)),
{
    if let Some(mem) = mem {
        let mut arg = "--mem=".to_owned();
        arg.append(shell_quote(mem.as_str()).as_str());
        push_arg(args, arg);
    }
    assert(text::texts(args@) =~= text::texts(old(args)@) + memory_arg(text::text_opt(*mem)));
}

impl SubmissionPlan {
    pub fn build(spec: SubmitRunSpec) -> (result: Result<SubmissionPlan, String>)
        ensures
            match result {
                Ok(plan) => spec_refusal(spec@) is None && plan@ == planned(spec@),
                Err(reason) => spec_refusal(spec@) == Some(reason@),
            },
    {
        if let Err(reason) = validate_spec(&spec) {
            return Err(reason);
        }
        let mut run_dir = trim_end_matches(spec.workspace.cwd.as_str(), '/');
        run_dir.append("/.runwatch/");
        run_dir.append(spec.run_id.as_str());
        Ok(
            SubmissionPlan {
                attempt_no: 1,
                job_name: scheduler_job_name(spec.run_id.as_str(), 1),
                script_path: run_dir.clone().concat("/attempt-1.sh"),
                stdout_path: run_dir.clone().concat("/stdout.log"),
                stderr_path: run_dir.clone().concat("/stderr.log"),
                terminal_path: run_dir.clone().concat("/terminal.json"),
                receipt_path: run_dir.clone().concat("/submission.receipt"),
                run_dir,
                spec,
            },
        )
    }

    pub fn run_and_attempt(&self, now: Timestamp) -> (rows: (RunRecord, RunAttemptRecord))
        ensures
            rows.0@ == planned_run(self@, now),
            rows.1@ == planned_attempt(self@, now),
    {
        let mut run = RunRecord::new(
            self.spec.run_id.clone(),
            self.spec.workspace.host_alias.clone(),
            self.spec.runner,
            now,
        );
        run.name = clone_text(&self.spec.name);
        run.status = RunStatus::Submitting;
        run.workspace = Some(self.spec.workspace.clone());
        run.attempt_no = Some(self.attempt_no);
        run.remote_terminal = Some(self.terminal_path.clone());
        if let Some(binding) = &self.spec.continuation {
            run.session_id = Some(binding.session_id.clone());
            run.agent = Some(binding.agent_kind.clone());
            run.project_root = Some(binding.project_root.clone());
        }
        let attempt = RunAttemptRecord {
            run_id: self.spec.run_id.clone(),
            attempt_no: self.attempt_no,
            runner: self.spec.runner,
            host: self.spec.workspace.host_alias.clone(),
            workdir: self.spec.workspace.cwd.clone(),
            command: self.spec.command.clone(),
            resources: self.spec.resources.clone(),
            job_name: self.job_name.clone(),
            job_id: None,
            script_path: self.script_path.clone(),
            stdout_path: self.stdout_path.clone(),
            stderr_path: self.stderr_path.clone(),
            terminal_path: self.terminal_path.clone(),
            receipt_path: self.receipt_path.clone(),
            status: RunStatus::Submitting,
            created_at: now,
            updated_at: now,
            error: None,
        };
        (run, attempt)
    }

    pub fn wrapper_script(&self) -> (script: String)
        ensures
            script@ == wrapper_of(self@),
    {
        let mut script = "#!/usr/bin/env bash\nset +e\ncd -- ".to_owned();
        script.append(shell_quote(self.spec.workspace.cwd.as_str()).as_str());
        script.append(" || exit 111\n(\n");
        script.append(self.spec.command.as_str());
        script.append("\n)\nrc=$?\nif [ \"$rc\" -eq 0 ]; then status=succeeded; else status=failed; fi\nfinished=$(date -u +'%Y-%m-%dT%H:%M:%SZ')\nterminal=");
        script.append(shell_quote(self.terminal_path.as_str()).as_str());
        script.append("\ntmp=\"${terminal}.tmp.$$\"\nprintf '{\"schema_version\":1,\"run_id\":\"");
        script.append(self.spec.run_id.as_str());
        script.append("\",\"attempt_no\":");
        script.append(decimal_text(self.attempt_no as u64).as_str());
        script.append(",\"status\":\"%s\",\"exit_code\":%d,\"finished_at\":\"%s\"}\\n' \"$status\" \"$rc\" \"$finished\" > \"$tmp\"\nmv -f -- \"$tmp\" \"$terminal\"\nexit \"$rc\"\n");
        script
    }

    pub fn deploy_command(&self) -> (command: String)
        ensures
            command@ == deploy_of(self@),
    {
        let script = self.wrapper_script();
        let encoded = encode_base64(script.as_str().as_bytes());
        let mut command = "umask 077 && mkdir -p -- ".to_owned();
        command.append(shell_quote(self.run_dir.as_str()).as_str());
        command.append(" && printf '%s' ");
        command.append(shell_quote(encoded.as_str()).as_str());
        command.append(" | base64 -d > ");
        command.append(shell_quote(self.script_path.as_str()).as_str());
        command.append(" && chmod 700 -- ");
        command.append(shell_quote(self.script_path.as_str()).as_str());
        command
    }

    fn slurm_job(&self) -> (args: Vec<String>)
        ensures
            text::texts(args@) == slurm_job_args(self@),
    {
        let mut args: Vec<String> = Vec::new();
        push_arg(&mut args, "sbatch".to_owned());
        push_arg(&mut args, "--parsable".to_owned());
        push_arg(&mut args, "--job-name".to_owned());
        push_arg(&mut args, shell_quote(self.job_name.as_str()));
        push_arg(&mut args, "--chdir".to_owned());
        push_arg(&mut args, shell_quote(self.spec.workspace.cwd.as_str()));
        push_arg(&mut args, "--output".to_owned());
        push_arg(&mut args, shell_quote(self.stdout_path.as_str()));
        push_arg(&mut args, "--error".to_owned());
        push_arg(&mut args, shell_quote(self.stderr_path.as_str()));
        assert(text::texts(args@) =~= slurm_job_args(self@));
        args
    }

    pub fn slurm_submit_command(&self) -> (result: Result<String, String>)
        ensures
            text_result(result) == slurm_submit_of(self@),
    {
        if self.spec.resources.queue.is_some() {
            return Err("Slurm submission uses resources.partition, not resources.queue".to_owned());
        }
        let mut args = self.slurm_job();
        push_option(&mut args, "--time", &self.spec.resources.time);
        push_option(&mut args, "--partition", &self.spec.resources.partition);
        push_option(&mut args, "--account", &self.spec.resources.account);
        push_count(&mut args, "--cpus-per-task=", self.spec.resources.cpus);
        push_memory(&mut args, &self.spec.resources.mem);
        push_count(&mut args, "--gpus=", self.spec.resources.gpus);
        let ghost before = text::texts(args@);
        push_arg(&mut args, shell_quote(self.script_path.as_str()));
        assert(text::texts(args@) =~= before + seq![text::shell_word(self@.script_path)]);
        Ok(join(&args, " "))
    }

    fn lsf_job(&self) -> (args: Vec<String>)
        ensures
            text::texts(args@) == lsf_job_args(self@),
    {
        let mut args: Vec<String> = Vec::new();
        push_arg(&mut args, "bsub".to_owned());
        push_arg(&mut args, "-J".to_owned());
        push_arg(&mut args, shell_quote(self.job_name.as_str()));
        push_arg(&mut args, "-oo".to_owned());
        push_arg(&mut args, shell_quote(self.stdout_path.as_str()));
        push_arg(&mut args, "-eo".to_owned());
        push_arg(&mut args, shell_quote(self.stderr_path.as_str()));
        assert(text::texts(args@) =~= lsf_job_args(self@));
        args
    }

    pub fn lsf_submit_command(&self) -> (result: Result<String, String>)
        ensures
            text_result(result) == lsf_submit_of(self@),
    {
        if self.spec.resources.partition.is_some() {
            return Err("LSF submission uses resources.queue, not resources.partition".to_owned());
        }
        let mut args = self.lsf_job();
        push_option(&mut args, "-W", &self.spec.resources.time);
        push_option(&mut args, "-q", &self.spec.resources.queue);
        push_option(&mut args, "-P", &self.spec.resources.account);
        push_cpus(&mut args, self.spec.resources.cpus);
        push_option(&mut args, "-M", &self.spec.resources.mem);
        push_gpus(&mut args, self.spec.resources.gpus);
        let mut command = join(&args, " ");
        command.append(" < ");
        command.append(shell_quote(self.script_path.as_str()).as_str());
        Ok(command)
    }

    pub fn scheduler_submit_command(&self) -> (result: Result<String, String>)
        ensures
            text_result(result) == submit_of(self@),
    {
        let submit = match self.spec.runner {
            RunnerKind::Slurm => match self.slurm_submit_command() {
                Ok(submit) => submit,
                Err(reason) => return Err(reason),
            },
            RunnerKind::Lsf => match self.lsf_submit_command() {
                Ok(submit) => submit,
                Err(reason) => return Err(reason),
            },
            other => {
                let mut reason = "Remote Execution v2 does not support runner ".to_owned();
                reason.append(show_runner(other).as_str());
                reason.append(" yet");
                return Err(reason);
            },
        };
        let parser = if self.spec.runner == RunnerKind::Slurm {
            "job=${out%%;*}; job=${job%%$'\\n'*}".to_owned()
        } else {
            "job=$(printf '%s\\n' \"$out\" | sed -n 's/.*Job <\\([0-9][0-9]*\\)>.*/\\1/p' | head -n 1)".to_owned()
        };
        let mut command = "receipt=".to_owned();
        command.append(shell_quote(self.receipt_path.as_str()).as_str());
        command.append("; if [ -s \"$receipt\" ]; then head -n 1 -- \"$receipt\"; exit 0; fi; out=$(");
        command.append(submit.as_str());
        command.append(" 2>&1); rc=$?; if [ \"$rc\" -ne 0 ]; then printf '%s\\n' \"$out\" >&2; exit \"$rc\"; fi; ");
        command.append(parser.as_str());
        command.append("; case \"$job\" in ''|*[!0-9_]* ) printf 'invalid scheduler job id: %s\\n' \"$out\" >&2; exit 65;; esac; tmp=\"${receipt}.tmp.$$\"; printf '%s\\n' \"$job\" > \"$tmp\" && mv -f -- \"$tmp\" \"$receipt\"; printf '%s\\n' \"$job\"");
        Ok(command)
    }
}

// ---------------------------------------------------------------------------
// What is made of the answers
// ---------------------------------------------------------------------------

/// Holds of the lines that are not blank.
pub open spec fn filled_line() -> spec_fn(Seq<char>) -> bool {
    |line: Seq<char>| !text::is_blank(line)
}

/// The first line that is not blank, without the white at its ends.
pub open spec fn first_filled(stdout: Seq<char>) -> Seq<char> {
    match seqs::first(text::lines_of(stdout), filled_line()) {
        Some(line) => text::trimmed(line),
        None => text::trimmed(Seq::empty()),
    }
}

pub open spec fn is_job_char(ch: char) -> bool {
    text::is_digit(ch) || ch == '_' || ch == '.'
}

/// The number of the job, where the answer is nothing but that.
pub open spec fn job_id_of(stdout: Seq<char>) -> Result<Seq<char>, Seq<char>> {
    let job = first_filled(stdout);
    if job.len() > 0 && forall|i: int| 0 <= i < job.len() ==> is_job_char(#[trigger] job[i]) {
        Ok(job)
    } else {
        Err("invalid scheduler job id in submission output: "@ + encoding::debug_text(stdout))
    }
}

fn read_first_filled(stdout: &str) -> (line: String)
    ensures
        line@ == first_filled(stdout@),
{
    let all = lines(stdout);
    let ghost read = text::lines_of(stdout@);
    let mut i: usize = 0;
    assert(text::texts(all@).len() == all@.len());
    while i < all.len()
        invariant
            i <= all@.len(),
            all@.len() == read.len(),
            text::texts(all@) == read,
            read == text::lines_of(stdout@),
            forall|j: int| 0 <= j < i ==> !filled_line()(#[trigger] read[j]),
        decreases all@.len() - i,
    {
        assert(text::texts(all@)[i as int] == all@[i as int]@);
        if !blank(all[i].as_str()) {
            proof {
                seqs::lemma_until(read, filled_line(), i as nat);
            }
            return trim(all[i].as_str());
        }
        i += 1;
    }
    proof {
        seqs::lemma_until(read, filled_line(), i as nat);
    }
    trim(String::new().as_str())
}

pub fn scheduler_job_id(stdout: &str) -> (result: Result<String, String>)
    ensures
        text_result(result) == job_id_of(stdout@),
{
    let job = read_first_filled(stdout);
    let chars = chars_of(job.as_str());
    let mut valid = !job.as_str().is_empty();
    let mut i: usize = 0;
    while i < chars.len() && valid
        invariant
            i <= chars@.len(),
            chars@ == job@,
            valid ==> job@.len() > 0 && forall|j: int|
                0 <= j < i ==> is_job_char(#[trigger] job@[j]),
            !valid ==> job@.len() == 0 || exists|j: int|
                0 <= j < job@.len() && !is_job_char(#[trigger] job@[j]),
        decreases chars@.len() - i,
    {
        let ch = chars[i];
        if !digit(ch) && ch != '_' && ch != '.' {
            assert(!is_job_char(job@[i as int]));
            valid = false;
        }
        i += 1;
    }
    if valid {
        Ok(job)
    } else {
        let mut reason = "invalid scheduler job id in submission output: ".to_owned();
        reason.append(show_text(stdout).as_str());
        Err(reason)
    }
}

/// Whether two attempts are the same execution.
pub open spec fn same_request(existing: RunAttemptRecordView, desired: RunAttemptRecordView) -> bool {
    &&& existing.attempt_no == desired.attempt_no
    &&& existing.runner == desired.runner
    &&& existing.host == desired.host
    &&& existing.workdir == desired.workdir
    &&& existing.command == desired.command
    &&& existing.resources == desired.resources
    &&& existing.job_name == desired.job_name
}

pub fn submission_identity_matches(
    existing: &RunAttemptRecord,
    desired: &RunAttemptRecord,
) -> (yes: bool)
    ensures
        yes == same_request(existing@, desired@),
{
    existing.attempt_no == desired.attempt_no && existing.runner == desired.runner && existing.host
        == desired.host && existing.workdir == desired.workdir && existing.command
        == desired.command && existing.resources.same(&desired.resources) && existing.job_name
        == desired.job_name
}

/// How a submission goes on after the run was entered or found.
pub enum SubmissionStart {
    /// Nothing is left to do.
    Settled(RunRecord),
    /// The script is to be put on the host and the job started.
    Proceed(RunRecord, RunAttemptRecord),
}

/// How a submission goes on, by what the ledger held before it.
pub open spec fn start_of(s: StoreView, plan: SubmissionPlanView, now: Timestamp) -> Result<
    (RunRecordView, Option<RunAttemptRecordView>),
    Seq<char>,
> {
    let run = planned_run(plan, now);
    let attempt = planned_attempt(plan, now);
    match (
        submissions::intent_refusal(s, run, attempt, plan.spec.continuation),
        s.run(plan.spec.run_id),
    ) {
        (Some(reason), _) => Err(reason),
        (None, None) => Ok((run, Some(attempt))),
        (None, Some(current)) => match s.attempt(plan.spec.run_id, plan.attempt_no) {
            None => Err("submission run exists without attempt 1"@),
            Some(existing) => if !same_request(existing, attempt) {
                Err(
                    "run_id "@ + plan.spec.run_id
                        + " already exists with a different submission spec"@,
                )
            } else if existing.job_id is Some || current.status != RunStatus::Submitting {
                Ok((current, None))
            } else {
                Ok((current, Some(existing)))
            },
        },
    }
}

/// Enters the run before anything is sent to its host, or finds it as an
/// earlier submission left it.
pub fn start_remote_submission(
    store: &mut RunStore,
    plan: &SubmissionPlan,
    now: Timestamp,
) -> (result: Result<SubmissionStart, String>)
    ensures
        match result {
            Ok(SubmissionStart::Settled(run)) => start_of(old(store)@, plan@, now) == Ok::<
                (RunRecordView, Option<RunAttemptRecordView>),
                Seq<char>,
            >((run@, None)),
            Ok(SubmissionStart::Proceed(run, attempt)) => start_of(old(store)@, plan@, now)
                == Ok::<(RunRecordView, Option<RunAttemptRecordView>), Seq<char>>(
                (run@, Some(attempt@)),
            ),
            Err(reason) => start_of(old(store)@, plan@, now) == Err::<
                (RunRecordView, Option<RunAttemptRecordView>),
                Seq<char>,
            >(reason@),
        },
        final(store)@ == submissions::after_intent(
            old(store)@,
            planned_run(plan@, now),
            planned_attempt(plan@, now),
            plan@.spec.continuation,
        ),
        old(store)@.sound() ==> final(store)@.sound(),
{
    let (desired_run, desired_attempt) = plan.run_and_attempt(now);
    let binding = match &plan.spec.continuation {
        Some(binding) => Some(binding),
        None => None,
    };
    let created = match store.create_submission_intent(&desired_run, &desired_attempt, binding) {
        Ok(created) => created,
        Err(reason) => return Err(reason),
    };
    if created {
        return Ok(SubmissionStart::Proceed(desired_run, desired_attempt));
    }
    let found_run = store.get(plan.spec.run_id.as_str());
    let found_attempt = store.get_attempt(plan.spec.run_id.as_str(), plan.attempt_no);
    match (found_run, found_attempt) {
        (Some(run), Some(attempt)) => {
            if !submission_identity_matches(&attempt, &desired_attempt) {
                let mut reason = "run_id ".to_owned();
                reason.append(plan.spec.run_id.as_str());
                reason.append(" already exists with a different submission spec");
                return Err(reason);
            }
            if attempt.job_id.is_some() || run.status != RunStatus::Submitting {
                Ok(SubmissionStart::Settled(run))
            } else {
                Ok(SubmissionStart::Proceed(run, attempt))
            }
        },
        _ => Err("submission run exists without attempt 1".to_owned()),
    }
}

/// A run whose submission failed.
pub open spec fn failed_run(run: RunRecordView, error: Seq<char>, now: Timestamp) -> RunRecordView {
    RunRecordView { status: RunStatus::Failed, updated_at: now, note: Some(error), ..run }
}

pub open spec fn failed_attempt(
    attempt: RunAttemptRecordView,
    error: Seq<char>,
    now: Timestamp,
) -> RunAttemptRecordView {
    RunAttemptRecordView { status: RunStatus::Failed, updated_at: now, error: Some(error), ..attempt }
}

/// The ledger in which a submission is given up.
pub open spec fn given_up(
    s: StoreView,
    run: RunRecordView,
    attempt: RunAttemptRecordView,
    error: Seq<char>,
    event_kind: Seq<char>,
    now: Timestamp,
) -> StoreView {
    runs::recorded(s, failed_run(run, error, now), failed_attempt(attempt, error, now), event_kind)
}

pub fn mark_submission_failed(
    store: &mut RunStore,
    run: &RunRecord,
    attempt: &RunAttemptRecord,
    error: &str,
    event_kind: &str,
    now: Timestamp,
)
    ensures
        final(store)@ == given_up(old(store)@, run@, attempt@, error@, event_kind@, now),
        old(store)@.sound() ==> final(store)@.sound(),
{
    let mut run = run.clone();
    let mut attempt = attempt.clone();
    run.status = RunStatus::Failed;
    run.updated_at = now;
    run.note = Some(error.to_owned());
    attempt.status = RunStatus::Failed;
    attempt.updated_at = now;
    attempt.error = Some(error.to_owned());
    store.persist_run_attempt_event(&run, &attempt, event_kind);
}

/// The exit code with everything that was printed.
pub open spec fn exit_report(what: Seq<char>, output: ExecOutputView) -> Seq<char> {
    what + " with exit "@ + text::shown_option(output.code) + ": "@ + output.stdout + output.stderr
}

pub fn report_exit(what: &str, output: &ExecOutput) -> (report: String)
    ensures
        report@ == exit_report(what@, output@),
{
    let mut report = what.to_owned();
    report.append(" with exit ");
    report.append(show_option(output.code).as_str());
    report.append(": ");
    report.append(output.stdout.as_str());
    report.append(output.stderr.as_str());
    report
}

/// Why the script could not be put on the host.
pub open spec fn deploy_failure(result: ExecResultView) -> Option<Seq<char>> {
    match result {
        ExecResultView::Output(output) => if output.code == Some(0u32) {
            None
        } else {
            Some(exit_report("deploy wrapper failed"@, output))
        },
        ExecResultView::Failure(error) => Some("deploy wrapper failed: "@ + error.full),
    }
}

/// Takes the answer to `deploy_command`. Where it failed, the submission is
/// given up.
pub fn finish_deploy(
    store: &mut RunStore,
    run: &RunRecord,
    attempt: &RunAttemptRecord,
    result: &ExecResult,
    now: Timestamp,
) -> (outcome: Result<(), String>)
    ensures
        match outcome {
            Ok(_) => deploy_failure(result@) is None && final(store)@ == old(store)@,
            Err(message) => deploy_failure(result@) == Some(message@) && final(store)@ == given_up(
                old(store)@,
                run@,
                attempt@,
                message@,
                "submission_failed"@,
                now,
            ),
        },
        old(store)@.sound() ==> final(store)@.sound(),
{
    let message = match result {
        ExecResult::Output(output) => {
            if output.code == Some(0u32) {
                return Ok(());
            }
            report_exit("deploy wrapper failed", output)
        },
        ExecResult::Failure(error) => {
            let mut message = "deploy wrapper failed: ".to_owned();
            message.append(error.full.as_str());
            message
        },
    };
    mark_submission_failed(store, run, attempt, message.as_str(), "submission_failed", now);
    Err(message)
}

/// What the scheduler's answer means for a run.
pub enum SubmitVerdict {
    /// The job has this number.
    Accepted(Seq<char>),
    /// The answer cannot be read; the run stays as it is.
    Unreadable(Seq<char>),
    /// The scheduler refused.
    Refused(Seq<char>),
    /// It is not known whether the job was started.
    Ambiguous(Seq<char>),
}

pub open spec fn submit_verdict(result: ExecResultView) -> SubmitVerdict {
    match result {
        ExecResultView::Output(output) => if output.code == Some(0u32) {
            match job_id_of(output.stdout) {
                Ok(job) => SubmitVerdict::Accepted(job),
                Err(reason) => SubmitVerdict::Unreadable(reason),
            }
        } else {
            SubmitVerdict::Refused(exit_report("scheduler submit failed"@, output))
        },
        ExecResultView::Failure(error) => SubmitVerdict::Ambiguous(
            "ambiguous scheduler submission transport failure: "@ + error.full,
        ),
    }
}

/// The run with the number of its job.
pub open spec fn accepted_run(
    run: RunRecordView,
    job: Seq<char>,
    status: RunStatus,
    now: Timestamp,
) -> RunRecordView {
    RunRecordView { job_id: Some(job), status, updated_at: now, note: None, ..run }
}

pub open spec fn accepted_attempt(
    attempt: RunAttemptRecordView,
    job: Seq<char>,
    status: RunStatus,
    now: Timestamp,
) -> RunAttemptRecordView {
    RunAttemptRecordView { job_id: Some(job), status, updated_at: now, error: None, ..attempt }
}

/// The ledger after the scheduler's answer.
pub open spec fn answered(
    s: StoreView,
    run: RunRecordView,
    attempt: RunAttemptRecordView,
    result: ExecResultView,
    now: Timestamp,
) -> StoreView {
    match submit_verdict(result) {
        SubmitVerdict::Accepted(job) => runs::recorded(
            s,
            accepted_run(run, job, RunStatus::Queued, now),
            accepted_attempt(attempt, job, RunStatus::Queued, now),
            "scheduler_submitted"@,
        ),
        SubmitVerdict::Unreadable(_) => s,
        SubmitVerdict::Refused(message) => given_up(
            s,
            run,
            attempt,
            message,
            "submission_failed"@,
            now,
        ),
        SubmitVerdict::Ambiguous(message) => runs::recorded(
            s,
            RunRecordView { updated_at: now, note: Some(message), ..run },
            RunAttemptRecordView { updated_at: now, error: Some(message), ..attempt },
            "submission_ambiguous"@,
        ),
    }
}

/// Takes the answer to `scheduler_submit_command`. Where the connection broke,
/// the run stays in submission: the receipt on the host lets the same run be
/// submitted again without starting a second job.
pub fn finish_submit(
    store: &mut RunStore,
    run: &RunRecord,
    attempt: &RunAttemptRecord,
    result: &ExecResult,
    now: Timestamp,
) -> (outcome: Result<RunRecord, String>)
    ensures
        match (submit_verdict(result@), outcome) {
            (SubmitVerdict::Accepted(job), Ok(queued)) => queued@ == accepted_run(
                run@,
                job,
                RunStatus::Queued,
                now,
            ),
            (SubmitVerdict::Unreadable(reason), Err(message)) => message@ == reason,
            (SubmitVerdict::Refused(reason), Err(message)) => message@ == reason,
            (SubmitVerdict::Ambiguous(_), Err(message)) => result@ matches ExecResultView::Failure(
                error,
            ) && message@ == "scheduler submit transport failed; retry the same run_id: "@
                + error.full,
            _ => false,
        },
        final(store)@ == answered(old(store)@, run@, attempt@, result@, now),
        old(store)@.sound() ==> final(store)@.sound(),
{
    let output = match result {
        ExecResult::Output(output) => output,
        ExecResult::Failure(error) => {
            let mut note = "ambiguous scheduler submission transport failure: ".to_owned();
            note.append(error.full.as_str());
            let mut run = run.clone();
            let mut attempt = attempt.clone();
            attempt.updated_at = now;
            attempt.error = Some(note.clone());
            run.updated_at = now;
            run.note = Some(note);
            store.persist_run_attempt_event(&run, &attempt, "submission_ambiguous");
            let mut message = "scheduler submit transport failed; retry the same run_id: ".to_owned();
            message.append(error.full.as_str());
            return Err(message);
        },
    };
    if output.code != Some(0u32) {
        let message = report_exit("scheduler submit failed", output);
        mark_submission_failed(store, run, attempt, message.as_str(), "submission_failed", now);
        return Err(message);
    }
    let job = match scheduler_job_id(output.stdout.as_str()) {
        Ok(job) => job,
        Err(reason) => return Err(reason),
    };
    let mut run = run.clone();
    let mut attempt = attempt.clone();
    run.job_id = Some(job.clone());
    run.status = RunStatus::Queued;
    run.updated_at = now;
    run.note = None;
    attempt.job_id = Some(job);
    attempt.status = RunStatus::Queued;
    attempt.updated_at = now;
    attempt.error = None;
    store.persist_run_attempt_event(&run, &attempt, "scheduler_submitted");
    Ok(run)
}

/// Which way a run is started.
#[derive(Debug, Clone, Copy, PartialEq, Eq, Structural)]
pub enum SubmissionRoute {
    Local,
    Remote,
}

/// Which way runs of a kind are started, where they can be.
pub fn submission_route(runner: RunnerKind) -> (route: Result<SubmissionRoute, String>)
    ensures
        match route {
            Ok(SubmissionRoute::Local) => runner == RunnerKind::Process,
            Ok(SubmissionRoute::Remote) => runner == RunnerKind::Slurm || runner
                == RunnerKind::Lsf,
            Err(reason) => {
                &&& runner != RunnerKind::Process
                &&& runner != RunnerKind::Slurm
                &&& runner != RunnerKind::Lsf
                &&& reason@ == "submit_run_v2 does not support runner "@ + runner_name(runner)
            },
        },
{
    match runner {
        RunnerKind::Process => Ok(SubmissionRoute::Local),
        RunnerKind::Slurm | RunnerKind::Lsf => Ok(SubmissionRoute::Remote),
        other => {
            let mut reason = "submit_run_v2 does not support runner ".to_owned();
            reason.append(show_runner(other).as_str());
            Err(reason)
        },
    }
}

// ---------------------------------------------------------------------------
// Laws
// ---------------------------------------------------------------------------

/// A run whose submission broke off is still in submission, so that the same
/// submission goes on with it.
pub proof fn broken_submission_can_be_repeated(
    s: StoreView,
    plan: SubmissionPlanView,
    error: TransportErrorView,
    now: Timestamp,
    later: Timestamp,
)
    requires
        s.run(plan.spec.run_id) is None,
        submissions::intent_refusal(
            s,
            planned_run(plan, now),
            planned_attempt(plan, now),
            plan.spec.continuation,
        ) is None,
    ensures
        ({
            let run = planned_run(plan, now);
            let attempt = planned_attempt(plan, now);
            let entered = submissions::intended(s, run, attempt, plan.spec.continuation);
            let t = answered(entered, run, attempt, ExecResultView::Failure(error), now);
            start_of(t, plan, later) matches Ok((found, Some(again))) && found.status
                == RunStatus::Submitting && same_request(again, attempt) && again.job_id is None
        }),
{
    let run = planned_run(plan, now);
    let attempt = planned_attempt(plan, now);
    let entered = submissions::intended(s, run, attempt, plan.spec.continuation);
    let t = answered(entered, run, attempt, ExecResultView::Failure(error), now);
    let message = "ambiguous scheduler submission transport failure: "@ + error.full;
    let noted = RunRecordView { updated_at: now, note: Some(message), ..run };
    let noted_attempt = RunAttemptRecordView { updated_at: now, error: Some(message), ..attempt };
    crate::store::laws::stored_run_is_read_back(entered, noted, noted.run_id);
    crate::store::laws::stored_attempt_is_read_back(
        entered.with_run(noted),
        noted_attempt,
        noted_attempt.run_id,
        noted_attempt.attempt_no,
    );
    assert(t.run(plan.spec.run_id) == Some(noted));
    assert(t.attempt(plan.spec.run_id, plan.attempt_no) == Some(noted_attempt));
}

/// A submission that passes its checks names a run that is safe in a path and
/// in a shell.
pub proof fn accepted_spec_has_safe_name(spec: SubmitRunSpecView, i: int)
    requires
        spec_refusal(spec) is None,
        0 <= i < spec.run_id.len(),
    ensures
        0 < spec.run_id.len(),
        text::is_alphanumeric(spec.run_id[i]) || spec.run_id[i] == '_' || spec.run_id[i] == '-'
            || spec.run_id[i] == '.',
{
    assert(is_id_char(spec.run_id[i]));
}

} // verus!
