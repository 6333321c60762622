//! Runs that are processes on this machine: how they are named, started,
//! recognised again and told to stop.
pub mod laws;

use crate::encoding;
use crate::encoding::{encode_base64, hex16, parse_hex_u64, show_text, utf16le};
use crate::paths;
use crate::paths::{join_path, PathStyle};
use crate::probe;
use crate::probe::parse_terminal;
use crate::store::runs;
use crate::store::submissions;
use crate::store::{RunStore, StoreView};
use crate::submission;
use crate::submission::{
    check_command, check_run_id, is_empty_or_broken, mark_submission_failed, SubmissionStart,
};
use crate::text;
use crate::text::{
    blank, contains_break, decimal_text, parse_u32, replace, same, split, starts_with, trim,
};
use crate::time::Timestamp;
use crate::types::{
    clone_text, same_text, ContinuationBinding, ContinuationBindingView, RemoteWorkspaceRef,
    RemoteWorkspaceRefView, RunAttemptRecord, RunAttemptRecordView, RunRecord, RunRecordView,
    RunResources, RunStatus, RunnerKind, SubmitRunSpec, SubmitRunSpecView,
};
use vstd::prelude::*;
use vstd::string::*;

verus! {

pub const LOCAL_HOST_ALIAS: &'static str = "local";

/// The exit code that a process has while it runs.
pub const STILL_ACTIVE_EXIT_CODE: u32 = 259;

// ---------------------------------------------------------------------------
// Handles
// ---------------------------------------------------------------------------

/// A process: its number, and when it was made, since numbers are used again.
#[derive(Debug, Clone, Copy, PartialEq, Eq, Structural)]
pub struct LocalProcessHandle {
    pub pid: u32,
    pub creation_time: u64,
}

/// How a process stands.
#[derive(Debug, Clone, Copy, PartialEq, Eq, Structural)]
pub enum LocalProcessState {
    Running,
    Exited(u32),
    Missing,
    Reused,
}

/// The handle as text.
pub open spec fn handle_text(handle: LocalProcessHandle) -> Seq<char> {
    "local:"@ + text::decimal(handle.pid as nat) + ":"@ + encoding::hex_digits(
        handle.creation_time as nat,
        16,
    )
}

/// The handle that a text stands for, or why it stands for none.
pub open spec fn handle_of(value: Seq<char>) -> Result<LocalProcessHandle, Seq<char>> {
    let parts = text::split_on(value, ':');
    let invalid = "invalid local process handle "@ + encoding::debug_text(value);
    if parts.len() == 0 || parts[0] != "local"@ {
        Err(invalid)
    } else if parts.len() < 2 {
        Err("local process handle is missing pid"@)
    } else {
        match text::parse_up_to(parts[1], u32::MAX as nat) {
            None => Err("parse local process pid"@),
            Some(pid) => if parts.len() < 3 {
                Err("local process handle is missing creation time"@)
            } else {
                match encoding::parse_hex(parts[2]) {
                    None => Err("parse local process creation time"@),
                    Some(creation_time) => if parts.len() > 3 || pid == 0 {
                        Err(invalid)
                    } else {
                        Ok(LocalProcessHandle { pid: pid as u32, creation_time })
                    },
                }
            },
        }
    }
}

fn invalid_handle(value: &str) -> (reason: String)
    ensures
        reason@ == "invalid local process handle "@ + encoding::debug_text(value@),
{
    let mut reason = "invalid local process handle ".to_owned();
    reason.append(show_text(value).as_str());
    reason
}

impl LocalProcessHandle {
    pub fn encode(self) -> (value: String)
        ensures
            value@ == handle_text(self),
    {
        let mut value = "local:".to_owned();
        value.append(decimal_text(self.pid as u64).as_str());
        value.append(":");
        value.append(hex16(self.creation_time).as_str());
        value
    }

    pub fn parse(value: &str) -> (result: Result<LocalProcessHandle, String>)
        ensures
            match result {
                Ok(handle) => handle_of(value@) == Ok::<LocalProcessHandle, Seq<char>>(handle),
                Err(reason) => handle_of(value@) == Err::<LocalProcessHandle, Seq<char>>(reason@),
            },
    {
        let parts = split(value, ':');
        assert(text::texts(parts@).len() == parts@.len());
        assert(forall|i: int|
            0 <= i < parts@.len() ==> text::texts(parts@)[i] == (#[trigger] parts@[i])@);
        if parts.len() == 0 || !same(parts[0].as_str(), "local") {
            return Err(invalid_handle(value));
        }
        if parts.len() < 2 {
            return Err("local process handle is missing pid".to_owned());
        }
        let pid = match parse_u32(parts[1].as_str()) {
            Some(pid) => pid,
            None => return Err("parse local process pid".to_owned()),
        };
        if parts.len() < 3 {
            return Err("local process handle is missing creation time".to_owned());
        }
        let creation_time = match parse_hex_u64(parts[2].as_str()) {
            Some(creation_time) => creation_time,
            None => return Err("parse local process creation time".to_owned()),
        };
        if parts.len() > 3 || pid == 0 {
            return Err(invalid_handle(value));
        }
        Ok(LocalProcessHandle { pid, creation_time })
    }
}

/// How the process of a handle stands, by what the system knows of its number.
pub open spec fn process_state(
    handle: LocalProcessHandle,
    seen: Option<(LocalProcessHandle, u32)>,
) -> LocalProcessState {
    match seen {
        None => LocalProcessState::Missing,
        Some((actual, exit_code)) => if actual.creation_time != handle.creation_time {
            LocalProcessState::Reused
        } else if exit_code == STILL_ACTIVE_EXIT_CODE {
            LocalProcessState::Running
        } else {
            LocalProcessState::Exited(exit_code)
        },
    }
}

pub fn query_handle(
    handle: LocalProcessHandle,
    seen: Option<(LocalProcessHandle, u32)>,
) -> (state: LocalProcessState)
    ensures
        state == process_state(handle, seen),
{
    match seen {
        None => LocalProcessState::Missing,
        Some((actual, exit_code)) => if actual.creation_time != handle.creation_time {
            LocalProcessState::Reused
        } else if exit_code == STILL_ACTIVE_EXIT_CODE {
            LocalProcessState::Running
        } else {
            LocalProcessState::Exited(exit_code)
        },
    }
}

// ---------------------------------------------------------------------------
// What is checked
// ---------------------------------------------------------------------------

pub fn validate_run_id(run_id: &str) -> (result: Result<(), String>)
    ensures
        match result {
            Ok(_) => submission::valid_run_id(run_id@),
            Err(reason) => !submission::valid_run_id(run_id@) && reason@
                == "run_id must be 1..96 ASCII letters/digits/._-"@,
        },
{
    if check_run_id(run_id) {
        Ok(())
    } else {
        Err("run_id must be 1..96 ASCII letters/digits/._-".to_owned())
    }
}

/// Why a binding does not go with a workspace on this machine.
pub open spec fn local_binding_refusal(
    binding: ContinuationBindingView,
    workspace: RemoteWorkspaceRefView,
) -> Option<Seq<char>> {
    if binding.agent_kind != "pi"@ || text::is_blank(binding.session_id) || text::has_break(
        binding.project_root,
    ) || binding.workspace != workspace {
        Some("continuation binding is invalid or does not match the submitted workspace"@)
    } else if submission::empty_or_broken(binding.session_file) || submission::empty_or_broken(
        binding.origin_leaf_id,
    ) || submission::empty_or_broken(binding.adapter_path) {
        Some("continuation binding contains invalid multiline/NUL identity data"@)
    } else {
        None
    }
}

pub fn validate_binding(
    binding: &ContinuationBinding,
    workspace: &RemoteWorkspaceRef,
) -> (result: Result<(), String>)
    ensures
        match result {
            Ok(_) => local_binding_refusal(binding@, workspace@) is None,
            Err(reason) => local_binding_refusal(binding@, workspace@) == Some(reason@),
        },
{
    if !same(binding.agent_kind.as_str(), "pi") || blank(binding.session_id.as_str())
        || contains_break(binding.project_root.as_str()) || !binding.workspace.same(workspace) {
        return Err(
            "continuation binding is invalid or does not match the submitted workspace".to_owned(),
        );
    }
    if is_empty_or_broken(&binding.session_file) || is_empty_or_broken(&binding.origin_leaf_id)
        || is_empty_or_broken(&binding.adapter_path) {
        return Err(
            "continuation binding contains invalid multiline/NUL identity data".to_owned(),
        );
    }
    Ok(())
}

/// Why a run cannot be started on this machine. `cwd_is_directory` tells
/// whether the workspace is the absolute path of a directory that is there.
pub open spec fn local_refusal(
    spec: SubmitRunSpecView,
    style: PathStyle,
    cwd_is_directory: bool,
) -> Option<Seq<char>> {
    if style != PathStyle::Windows {
        Some("Local Process v1 is currently supported on Windows only"@)
    } else if !submission::valid_run_id(spec.run_id) {
        Some("run_id must be 1..96 ASCII letters/digits/._-"@)
    } else if spec.runner != RunnerKind::Process {
        Some("local submission requires runner=process"@)
    } else if submission::command_refusal(spec.command) is Some {
        submission::command_refusal(spec.command)
    } else if spec.workspace.host_alias != LOCAL_HOST_ALIAS@ {
        Some("local Process workspace.host_alias must be 'local'"@)
    } else if text::has_break(spec.workspace.cwd) {
        Some("local Process workspace.cwd must be a single-line absolute path"@)
    } else if !cwd_is_directory {
        Some("local Process workspace.cwd must be an existing absolute directory"@)
    } else if spec.resources != RunResources::none_view() {
        Some("local Process v1 does not accept scheduler resource requests"@)
    } else {
        match spec.continuation {
            Some(binding) => local_binding_refusal(binding, spec.workspace),
            None => None,
        }
    }
}

pub fn validate_local_spec(
    spec: &SubmitRunSpec,
    style: PathStyle,
    cwd_is_directory: bool,
) -> (result: Result<(), String>)
    ensures
        match result {
            Ok(_) => local_refusal(spec@, style, cwd_is_directory) is None,
            Err(reason) => local_refusal(spec@, style, cwd_is_directory) == Some(reason@),
        },
{
    if style != PathStyle::Windows {
        return Err("Local Process v1 is currently supported on Windows only".to_owned());
    }
    if let Err(reason) = validate_run_id(spec.run_id.as_str()) {
        return Err(reason);
    }
    if spec.runner != RunnerKind::Process {
        return Err("local submission requires runner=process".to_owned());
    }
    if let Some(reason) = check_command(spec.command.as_str()) {
        return Err(reason);
    }
    if !same(spec.workspace.host_alias.as_str(), LOCAL_HOST_ALIAS) {
        return Err("local Process workspace.host_alias must be 'local'".to_owned());
    }
    if contains_break(spec.workspace.cwd.as_str()) {
        return Err("local Process workspace.cwd must be a single-line absolute path".to_owned());
    }
    if !cwd_is_directory {
        return Err(
            "local Process workspace.cwd must be an existing absolute directory".to_owned(),
        );
    }
    if !spec.resources.same(&RunResources::default()) {
        return Err("local Process v1 does not accept scheduler resource requests".to_owned());
    }
    match &spec.continuation {
        Some(binding) => validate_binding(binding, &spec.workspace),
        None => Ok(()),
    }
}

// ---------------------------------------------------------------------------
// What is planned
// ---------------------------------------------------------------------------

/// `value` between single quotes, each single quote inside it doubled: one
/// literal to PowerShell.
pub open spec fn ps_word(value: Seq<char>) -> Seq<char> {
    "'"@ + text::replaced(value, '\'', "''"@) + "'"@
}

pub fn ps_quote(value: &str) -> (word: String)
    ensures
        word@ == ps_word(value@),
{
    let mut word = "'".to_owned();
    word.append(replace(value, '\'', "''").as_str());
    word.append("'");
    word
}

/// The command as PowerShell takes an encoded one: its UTF-16 in base64.
pub open spec fn powershell_payload(command: Seq<char>) -> Seq<char> {
    encoding::base64_text(encoding::little_endian(encoding::utf16_units(command)))
}

pub fn encode_powershell(command: &str) -> (payload: String)
    ensures
        payload@ == powershell_payload(command@),
{
    let bytes = utf16le(command);
    encode_base64(bytes.as_slice())
}

/// A run as it is to be started on this machine, and the files it will have.
#[derive(Debug, PartialEq, Eq)]
pub struct LocalPlan {
    pub spec: SubmitRunSpec,
    pub attempt_no: u32,
    pub run_dir: String,
    pub wrapper_path: String,
    pub stdout_path: String,
    pub stderr_path: String,
    pub terminal_path: String,
    pub receipt_path: String,
    pub started_path: String,
    pub armed_path: String,
}

/// What a `LocalPlan` says.
pub struct LocalPlanView {
    pub spec: SubmitRunSpecView,
    pub attempt_no: u32,
    pub run_dir: Seq<char>,
    pub wrapper_path: Seq<char>,
    pub stdout_path: Seq<char>,
    pub stderr_path: Seq<char>,
    pub terminal_path: Seq<char>,
    pub receipt_path: Seq<char>,
    pub started_path: Seq<char>,
    pub armed_path: Seq<char>,
}

impl View for LocalPlan {
    type V = LocalPlanView;

    open spec fn view(&self) -> LocalPlanView {
        LocalPlanView {
            spec: self.spec@,
            attempt_no: self.attempt_no,
            run_dir: self.run_dir@,
            wrapper_path: self.wrapper_path@,
            stdout_path: self.stdout_path@,
            stderr_path: self.stderr_path@,
            terminal_path: self.terminal_path@,
            receipt_path: self.receipt_path@,
            started_path: self.started_path@,
            armed_path: self.armed_path@,
        }
    }
}

impl DeepView for LocalPlan {
    type V = LocalPlanView;

    open spec fn deep_view(&self) -> LocalPlanView {
        self.view()
    }
}

impl Clone for LocalPlan {
    fn clone(&self) -> (copy: Self)
        ensures
            copy@ == self@,
    {
        LocalPlan {
            spec: self.spec.clone(),
            attempt_no: self.attempt_no,
            run_dir: self.run_dir.clone(),
            wrapper_path: self.wrapper_path.clone(),
            stdout_path: self.stdout_path.clone(),
            stderr_path: self.stderr_path.clone(),
            terminal_path: self.terminal_path.clone(),
            receipt_path: self.receipt_path.clone(),
            started_path: self.started_path.clone(),
            armed_path: self.armed_path.clone(),
        }
    }
}

/// The plan for the first attempt of a run.
pub open spec fn local_planned(spec: SubmitRunSpecView) -> LocalPlanView {
    let style = PathStyle::Windows;
    let dir = paths::joined_path(
        paths::joined_path(spec.workspace.cwd, ".runwatch"@, style),
        spec.run_id,
        style,
    );
    LocalPlanView {
        spec,
        attempt_no: 1,
        run_dir: dir,
        wrapper_path: paths::joined_path(dir, "attempt-1.ps1"@, style),
        stdout_path: paths::joined_path(dir, "stdout.log"@, style),
        stderr_path: paths::joined_path(dir, "stderr.log"@, style),
        terminal_path: paths::joined_path(dir, "terminal.json"@, style),
        receipt_path: paths::joined_path(dir, "submission.receipt"@, style),
        started_path: paths::joined_path(dir, "started.json"@, style),
        armed_path: paths::joined_path(dir, "armed"@, style),
    }
}

/// The run as it is entered before its process is started.
pub open spec fn local_run(plan: LocalPlanView, now: Timestamp) -> RunRecordView {
    let binding = plan.spec.continuation;
    RunRecordView {
        run_id: plan.spec.run_id,
        name: plan.spec.name,
        host: LOCAL_HOST_ALIAS@,
        job_id: None,
        runner: RunnerKind::Process,
        remote_terminal: Some(plan.terminal_path),
        status: RunStatus::Submitting,
        workspace: Some(plan.spec.workspace),
        attempt_no: Some(plan.attempt_no),
        session_id: match binding {
            Some(binding) => Some(binding.session_id),
            None => None,
        },
        project_root: match binding {
            Some(binding) => Some(binding.project_root),
            None => None,
        },
        agent: match binding {
            Some(binding) => Some(binding.agent_kind),
            None => None,
        },
        updated_at: now,
        note: None,
    }
}

/// The attempt as it is entered before its process is started.
pub open spec fn local_attempt(plan: LocalPlanView, now: Timestamp) -> RunAttemptRecordView {
    RunAttemptRecordView {
        run_id: plan.spec.run_id,
        attempt_no: plan.attempt_no,
        runner: RunnerKind::Process,
        host: LOCAL_HOST_ALIAS@,
        workdir: plan.spec.workspace.cwd,
        command: plan.spec.command,
        resources: plan.spec.resources,
        job_name: "rw-local-"@ + plan.spec.run_id + "-a"@ + text::decimal(plan.attempt_no as nat),
        job_id: None,
        script_path: plan.wrapper_path,
        stdout_path: plan.stdout_path,
        stderr_path: plan.stderr_path,
        terminal_path: plan.terminal_path,
        receipt_path: plan.receipt_path,
        status: RunStatus::Submitting,
        created_at: now,
        updated_at: now,
        error: None,
    }
}

/// The script that waits until it is armed, runs the command and leaves its end
/// in a file, whole or not at all.
pub open spec fn local_wrapper(plan: LocalPlanView) -> Seq<char> {
    "$ErrorActionPreference='Stop'\n$started="@
        + ps_word(plan.started_path)
        + "\n$armed="@
        + ps_word(plan.armed_path)
        + "\n$terminal="@
        + ps_word(plan.terminal_path)
        + "\n$stdout="@
        + ps_word(plan.stdout_path)
        + "\n$stderr="@
        + ps_word(plan.stderr_path)
        + "\nfunction Write-AtomicJson([string]$path,[hashtable]$value) {\n$tmp=\"$path.tmp.$PID\"\n$json=$value | ConvertTo-Json -Compress\n[IO.File]::WriteAllText($tmp,$json,[Text.UTF8Encoding]::new($false))\nMove-Item -LiteralPath $tmp -Destination $path -Force\n}\nWrite-AtomicJson $started @{schema_version=1;run_id="@
        + ps_word(plan.spec.run_id)
        + ";attempt_no="@
        + text::decimal(plan.attempt_no as nat)
        + ";pid=$PID}\n$deadline=[DateTime]::UtcNow.AddHours(24)\nwhile(-not (Test-Path -LiteralPath $armed)) {\nif([DateTime]::UtcNow -ge $deadline) {\nWrite-AtomicJson $terminal @{schema_version=1;run_id="@
        + ps_word(plan.spec.run_id)
        + ";attempt_no="@
        + text::decimal(plan.attempt_no as nat)
        + ";status='failed';exit_code=124;finished_at=[DateTime]::UtcNow.ToString('o')}\nexit 124\n}\nStart-Sleep -Milliseconds 200\n}\n$ErrorActionPreference='Continue'\n$pwsh=Join-Path $PSHOME 'pwsh.exe'\n& $pwsh -NoLogo -NoProfile -NonInteractive -EncodedCommand "@
        + ps_word(powershell_payload(plan.spec.command))
        + " 1> $stdout 2> $stderr\n$rc=$LASTEXITCODE\nif($rc -eq 0) {$status='succeeded'} else {$status='failed'}\nWrite-AtomicJson $terminal @{schema_version=1;run_id="@
        + ps_word(plan.spec.run_id)
        + ";attempt_no="@
        + text::decimal(plan.attempt_no as nat)
        + ";status=$status;exit_code=$rc;finished_at=[DateTime]::UtcNow.ToString('o')}\nexit $rc\n"@
}

impl LocalPlan {
    pub fn build(spec: SubmitRunSpec, style: PathStyle, cwd_is_directory: bool) -> (result: Result<
        LocalPlan,
        String,
    >)
        ensures
            match result {
                Ok(plan) => {
                    &&& local_refusal(spec@, style, cwd_is_directory) is None
                    &&& plan@ == local_planned(spec@)
                },
                Err(reason) => local_refusal(spec@, style, cwd_is_directory) == Some(reason@),
            },
    {
        if let Err(reason) = validate_local_spec(&spec, style, cwd_is_directory) {
            return Err(reason);
        }
        let root = join_path(spec.workspace.cwd.as_str(), ".runwatch", style);
        let run_dir = join_path(root.as_str(), spec.run_id.as_str(), style);
        let dir = run_dir.as_str();
        Ok(
            LocalPlan {
                attempt_no: 1,
                wrapper_path: join_path(dir, "attempt-1.ps1", style),
                stdout_path: join_path(dir, "stdout.log", style),
                stderr_path: join_path(dir, "stderr.log", style),
                terminal_path: join_path(dir, "terminal.json", style),
                receipt_path: join_path(dir, "submission.receipt", style),
                started_path: join_path(dir, "started.json", style),
                armed_path: join_path(dir, "armed", style),
                run_dir: run_dir.clone(),
                spec,
            },
        )
    }

    pub fn run_and_attempt(&self, now: Timestamp) -> (rows: (RunRecord, RunAttemptRecord))
        ensures
            rows.0@ == local_run(self@, now),
            rows.1@ == local_attempt(self@, now),
    {
        let mut run = RunRecord::new(
            self.spec.run_id.clone(),
            LOCAL_HOST_ALIAS.to_owned(),
            RunnerKind::Process,
            now,
        );
        run.name = clone_text(&self.spec.name);
        run.status = RunStatus::Submitting;
        run.workspace = Some(self.spec.workspace.clone());
        run.attempt_no = Some(self.attempt_no);
        run.remote_terminal = Some(self.terminal_path.clone());
        if let Some(binding) = &self.spec.continuation {
            run.session_id = Some(binding.session_id.clone());
            run.agent = Some(binding.agent_kind.clone());
            run.project_root = Some(binding.project_root.clone());
        }
        let mut job_name = "rw-local-".to_owned();
        job_name.append(self.spec.run_id.as_str());
        job_name.append("-a");
        job_name.append(decimal_text(self.attempt_no as u64).as_str());
        let attempt = RunAttemptRecord {
            run_id: self.spec.run_id.clone(),
            attempt_no: self.attempt_no,
            runner: RunnerKind::Process,
            host: LOCAL_HOST_ALIAS.to_owned(),
            workdir: self.spec.workspace.cwd.clone(),
            command: self.spec.command.clone(),
            resources: self.spec.resources.clone(),
            job_name,
            job_id: None,
            script_path: self.wrapper_path.clone(),
            stdout_path: self.stdout_path.clone(),
            stderr_path: self.stderr_path.clone(),
            terminal_path: self.terminal_path.clone(),
            receipt_path: self.receipt_path.clone(),
            status: RunStatus::Submitting,
            created_at: now,
            updated_at: now,
            error: None,
        };
        (run, attempt)
    }

    pub fn wrapper_script(&self) -> (script: String)
        ensures
            script@ == local_wrapper(self@),
    {
        let payload = encode_powershell(self.spec.command.as_str());
        let run_id = ps_quote(self.spec.run_id.as_str());
        let number = decimal_text(self.attempt_no as u64);
        let mut script = "$ErrorActionPreference='Stop'\n$started=".to_owned();
        script.append(ps_quote(self.started_path.as_str()).as_str());
        script.append("\n$armed=");
        script.append(ps_quote(self.armed_path.as_str()).as_str());
        script.append("\n$terminal=");
        script.append(ps_quote(self.terminal_path.as_str()).as_str());
        script.append("\n$stdout=");
        script.append(ps_quote(self.stdout_path.as_str()).as_str());
        script.append("\n$stderr=");
        script.append(ps_quote(self.stderr_path.as_str()).as_str());
        script.append("\nfunction Write-AtomicJson([string]$path,[hashtable]$value) {\n$tmp=\"$path.tmp.$PID\"\n$json=$value | ConvertTo-Json -Compress\n[IO.File]::WriteAllText($tmp,$json,[Text.UTF8Encoding]::new($false))\nMove-Item -LiteralPath $tmp -Destination $path -Force\n}\nWrite-AtomicJson $started @{schema_version=1;run_id=");
        script.append(run_id.as_str());
        script.append(";attempt_no=");
        script.append(number.as_str());
        script.append(";pid=$PID}\n$deadline=[DateTime]::UtcNow.AddHours(24)\nwhile(-not (Test-Path -LiteralPath $armed)) {\nif([DateTime]::UtcNow -ge $deadline) {\nWrite-AtomicJson $terminal @{schema_version=1;run_id=");
        script.append(run_id.as_str());
        script.append(";attempt_no=");
        script.append(number.as_str());
        script.append(";status='failed';exit_code=124;finished_at=[DateTime]::UtcNow.ToString('o')}\nexit 124\n}\nStart-Sleep -Milliseconds 200\n}\n$ErrorActionPreference='Continue'\n$pwsh=Join-Path $PSHOME 'pwsh.exe'\n& $pwsh -NoLogo -NoProfile -NonInteractive -EncodedCommand ");
        script.append(ps_quote(payload.as_str()).as_str());
        script.append(" 1> $stdout 2> $stderr\n$rc=$LASTEXITCODE\nif($rc -eq 0) {$status='succeeded'} else {$status='failed'}\nWrite-AtomicJson $terminal @{schema_version=1;run_id=");
        script.append(run_id.as_str());
        script.append(";attempt_no=");
        script.append(number.as_str());
        script.append(";status=$status;exit_code=$rc;finished_at=[DateTime]::UtcNow.ToString('o')}\nexit $rc\n");
        script
    }
}

// ---------------------------------------------------------------------------
// Starting
// ---------------------------------------------------------------------------

/// Whether two attempts are the same execution.
pub open spec fn same_local_request(
    existing: RunAttemptRecordView,
    desired: RunAttemptRecordView,
) -> bool {
    &&& existing.attempt_no == desired.attempt_no
    &&& existing.runner == desired.runner
    &&& existing.host == desired.host
    &&& existing.workdir == desired.workdir
    &&& existing.command == desired.command
    &&& existing.resources == desired.resources
}

fn submission_identity_matches(
    existing: &RunAttemptRecord,
    desired: &RunAttemptRecord,
) -> (yes: bool)
    ensures
        yes == same_local_request(existing@, desired@),
{
    existing.attempt_no == desired.attempt_no && existing.runner == desired.runner && existing.host
        == desired.host && existing.workdir == desired.workdir && existing.command
        == desired.command && existing.resources.same(&desired.resources)
}

/// How a start goes on, by what the ledger held before it.
pub open spec fn local_start_of(s: StoreView, plan: LocalPlanView, now: Timestamp) -> Result<
    (RunRecordView, Option<RunAttemptRecordView>),
    Seq<char>,
> {
    let run = local_run(plan, now);
    let attempt = local_attempt(plan, now);
    match (
        submissions::intent_refusal(s, run, attempt, plan.spec.continuation),
        s.run(plan.spec.run_id),
    ) {
        (Some(reason), _) => Err(reason),
        (None, None) => Ok((run, Some(attempt))),
        (None, Some(current)) => match s.attempt(plan.spec.run_id, plan.attempt_no) {
            None => Err("local submission Run exists without attempt 1"@),
            Some(existing) => if !same_local_request(existing, attempt) {
                Err(
                    "run_id "@ + plan.spec.run_id
                        + " already exists with a different local submission spec"@,
                )
            } else if existing.job_id is Some && current.status != RunStatus::Submitting {
                Ok((current, None))
            } else {
                Ok((current, Some(existing)))
            },
        },
    }
}

/// Enters the run before its process is started, or finds it as an earlier
/// start left it.
pub fn start_local_submission(store: &mut RunStore, plan: &LocalPlan, now: Timestamp) -> (result:
    Result<SubmissionStart, String>)
    ensures
        match result {
            Ok(SubmissionStart::Settled(run)) => local_start_of(old(store)@, plan@, now) == Ok::<
                (RunRecordView, Option<RunAttemptRecordView>),
                Seq<char>,
            >((run@, None)),
            Ok(SubmissionStart::Proceed(run, attempt)) => local_start_of(old(store)@, plan@, now)
                == Ok::<(RunRecordView, Option<RunAttemptRecordView>), Seq<char>>(
                (run@, Some(attempt@)),
            ),
            Err(reason) => local_start_of(old(store)@, plan@, now) == Err::<
                (RunRecordView, Option<RunAttemptRecordView>),
                Seq<char>,
            >(reason@),
        },
        final(store)@ == submissions::after_intent(
            old(store)@,
            local_run(plan@, now),
            local_attempt(plan@, now),
            plan@.spec.continuation,
        ),
        old(store)@.sound() ==> final(store)@.sound(),
{
    let (desired_run, desired_attempt) = plan.run_and_attempt(now);
    let binding = match &plan.spec.continuation {
        Some(binding) => Some(binding),
        None => None,
    };
    let created = match store.create_submission_intent(&desired_run, &desired_attempt, binding) {
        Ok(created) => created,
        Err(reason) => return Err(reason),
    };
    if created {
        return Ok(SubmissionStart::Proceed(desired_run, desired_attempt));
    }
    let found_run = store.get(plan.spec.run_id.as_str());
    let found_attempt = store.get_attempt(plan.spec.run_id.as_str(), plan.attempt_no);
    match (found_run, found_attempt) {
        (Some(run), Some(attempt)) => {
            if !submission_identity_matches(&attempt, &desired_attempt) {
                let mut reason = "run_id ".to_owned();
                reason.append(plan.spec.run_id.as_str());
                reason.append(" already exists with a different local submission spec");
                return Err(reason);
            }
            if attempt.job_id.is_some() && run.status != RunStatus::Submitting {
                Ok(SubmissionStart::Settled(run))
            } else {
                Ok(SubmissionStart::Proceed(run, attempt))
            }
        },
        _ => Err("local submission Run exists without attempt 1".to_owned()),
    }
}

/// The handle that was written down for an attempt: in the ledger, or else in
/// its receipt.
pub open spec fn recorded_handle_of(
    attempt: RunAttemptRecordView,
    receipt: Option<Seq<char>>,
) -> Result<Option<LocalProcessHandle>, Seq<char>> {
    let written = match (attempt.job_id, receipt) {
        (Some(job), _) => Some(job),
        (None, Some(receipt)) => Some(text::trimmed(receipt)),
        (None, None) => None,
    };
    match written {
        None => Ok(None),
        Some(value) => match handle_of(value) {
            Ok(handle) => Ok(Some(handle)),
            Err(reason) => Err(reason),
        },
    }
}

pub fn recorded_handle(attempt: &RunAttemptRecord, receipt: &Option<String>) -> (result: Result<
    Option<LocalProcessHandle>,
    String,
>)
    ensures
        match result {
            Ok(handle) => recorded_handle_of(attempt@, text::text_opt(*receipt)) == Ok::<
                Option<LocalProcessHandle>,
                Seq<char>,
            >(handle),
            Err(reason) => recorded_handle_of(attempt@, text::text_opt(*receipt)) == Err::<
                Option<LocalProcessHandle>,
                Seq<char>,
            >(reason@),
        },
{
    let written = match (&attempt.job_id, receipt) {
        (Some(job), _) => job.clone(),
        (None, Some(receipt)) => trim(receipt.as_str()),
        (None, None) => return Ok(None),
    };
    match LocalProcessHandle::parse(written.as_str()) {
        Ok(handle) => Ok(Some(handle)),
        Err(reason) => Err(reason),
    }
}

/// Whether a process that was found is still the one that was started.
pub fn still_usable(state: LocalProcessState) -> (yes: bool)
    ensures
        yes == (state != LocalProcessState::Missing && state != LocalProcessState::Reused),
{
    match state {
        LocalProcessState::Missing | LocalProcessState::Reused => false,
        _ => true,
    }
}

/// What is to be done about the receipt of a process: it is written where there
/// is none, and must name the same process where there is one.
pub fn check_receipt(
    existing: Option<LocalProcessHandle>,
    handle: LocalProcessHandle,
) -> (result: Result<bool, String>)
    ensures
        match result {
            Ok(missing) => missing == (existing is None) && (existing is Some ==> existing == Some(
                handle,
            )),
            Err(reason) => existing is Some && existing != Some(handle) && reason@
                == "local submission receipt conflicts with live process identity"@,
        },
{
    match existing {
        None => Ok(true),
        Some(found) => if found == handle {
            Ok(false)
        } else {
            Err("local submission receipt conflicts with live process identity".to_owned())
        },
    }
}

/// What a failed start of the wrapper is put down to.
pub open spec fn spawn_error_text(raw_os_error: Option<i32>, error: Seq<char>) -> Seq<char> {
    if raw_os_error == Some(5i32) {
        "spawn local Process wrapper denied Windows job breakaway (ERROR_ACCESS_DENIED); refusing a non-durable launch. Start runwatch through `runwatch supervise` / Task Scheduler autostart, or another host process whose Job Object permits breakaway: "@
            + error
    } else {
        "spawn local Process wrapper: "@ + error
    }
}

pub fn local_process_spawn_error(raw_os_error: Option<i32>, error: &str) -> (message: String)
    ensures
        message@ == spawn_error_text(raw_os_error, error@),
{
    let mut message = if raw_os_error == Some(5i32) {
        "spawn local Process wrapper denied Windows job breakaway (ERROR_ACCESS_DENIED); refusing a non-durable launch. Start runwatch through `runwatch supervise` / Task Scheduler autostart, or another host process whose Job Object permits breakaway: ".to_owned()
    } else {
        "spawn local Process wrapper: ".to_owned()
    };
    message.append(error);
    message
}

/// Gives a start up because its process could not be made.
pub fn fail_local_start(
    store: &mut RunStore,
    run: &RunRecord,
    attempt: &RunAttemptRecord,
    error: &str,
    now: Timestamp,
) -> (message: String)
    ensures
        message@ == "local Process launch failed: "@ + error@,
        final(store)@ == submission::given_up(
            old(store)@,
            run@,
            attempt@,
            message@,
            "local_submission_failed"@,
            now,
        ),
        old(store)@.sound() ==> final(store)@.sound(),
{
    let mut message = "local Process launch failed: ".to_owned();
    message.append(error);
    mark_submission_failed(store, run, attempt, message.as_str(), "local_submission_failed", now);
    message
}

/// Records the process that was started or found.
pub fn finish_local_start(
    store: &mut RunStore,
    run: &RunRecord,
    attempt: &RunAttemptRecord,
    handle: LocalProcessHandle,
    now: Timestamp,
) -> (running: RunRecord)
    ensures
        running@ == submission::accepted_run(
            run@,
            handle_text(handle),
            RunStatus::Running,
            now,
        ),
        final(store)@ == runs::recorded(
            old(store)@,
            running@,
            submission::accepted_attempt(
                attempt@,
                handle_text(handle),
                RunStatus::Running,
                now,
            ),
            "local_process_started"@,
        ),
        old(store)@.sound() ==> final(store)@.sound(),
{
    let job = handle.encode();
    let mut run = run.clone();
    let mut attempt = attempt.clone();
    run.job_id = Some(job.clone());
    run.status = RunStatus::Running;
    run.updated_at = now;
    run.note = None;
    attempt.job_id = Some(job);
    attempt.status = RunStatus::Running;
    attempt.updated_at = now;
    attempt.error = None;
    store.persist_run_attempt_event(&run, &attempt, "local_process_started");
    run
}

// ---------------------------------------------------------------------------
// Observing
// ---------------------------------------------------------------------------

pub open spec fn observed_attempt(s: StoreView, run: RunRecordView) -> Result<
    RunAttemptRecordView,
    Seq<char>,
> {
    match run.attempt_no {
        None => Err("local Process Run has no attempt metadata"@),
        Some(number) => match s.attempt(run.run_id, number) {
            None => Err("local Process attempt metadata is missing"@),
            Some(attempt) => Ok(attempt),
        },
    }
}

/// The attempt that is looked at.
pub fn find_observed_attempt(store: &RunStore, run: &RunRecord) -> (result: Result<
    RunAttemptRecord,
    String,
>)
    ensures
        match result {
            Ok(attempt) => observed_attempt(store@, run@) == Ok::<RunAttemptRecordView, Seq<char>>(
                attempt@,
            ),
            Err(reason) => observed_attempt(store@, run@) == Err::<RunAttemptRecordView, Seq<char>>(
                reason@,
            ),
        },
{
    match run.attempt_no {
        None => Err("local Process Run has no attempt metadata".to_owned()),
        Some(number) => match store.get_attempt(run.run_id.as_str(), number) {
            None => Err("local Process attempt metadata is missing".to_owned()),
            Some(attempt) => Ok(attempt),
        },
    }
}

/// The end that the terminal file tells of; one that cannot be read is a
/// failure.
pub open spec fn local_end(body: Seq<char>) -> RunStatus {
    match probe::terminal_status(body) {
        Some(status) => status,
        None => RunStatus::Failed,
    }
}

pub fn read_local_end(body: &str) -> (status: RunStatus)
    ensures
        status == local_end(body@),
{
    match parse_terminal(body) {
        Some(status) => status,
        None => RunStatus::Failed,
    }
}

/// The run with the handle of its process.
pub open spec fn adopted_run(run: RunRecordView, handle: LocalProcessHandle, now: Timestamp) -> RunRecordView {
    RunRecordView { job_id: Some(handle_text(handle)), updated_at: now, ..run }
}

pub open spec fn adopted_attempt(
    attempt: RunAttemptRecordView,
    handle: LocalProcessHandle,
    now: Timestamp,
) -> RunAttemptRecordView {
    RunAttemptRecordView { job_id: Some(handle_text(handle)), updated_at: now, ..attempt }
}

/// Whether both rows carry the handle.
pub open spec fn carries_handle(
    run: RunRecordView,
    attempt: RunAttemptRecordView,
    handle: LocalProcessHandle,
) -> bool {
    run.job_id == Some(handle_text(handle)) && attempt.job_id == Some(handle_text(handle))
}

/// Writes the handle of a process that was found into the ledger, where it is
/// not there yet.
pub fn adopt_handle(
    store: &mut RunStore,
    run: &RunRecord,
    attempt: &RunAttemptRecord,
    handle: LocalProcessHandle,
    now: Timestamp,
) -> (adopted: RunRecord)
    ensures
        carries_handle(run@, attempt@, handle) ==> adopted@ == run@ && final(store)@ == old(
            store,
        )@,
        !carries_handle(run@, attempt@, handle) ==> adopted@ == adopted_run(run@, handle, now)
            && final(store)@ == runs::recorded(
            old(store)@,
            adopted_run(run@, handle, now),
            adopted_attempt(attempt@, handle, now),
            "local_process_adopted"@,
        ),
        old(store)@.sound() ==> final(store)@.sound(),
{
    let encoded = Some(handle.encode());
    let mut run = run.clone();
    if same_text(&run.job_id, &encoded) && same_text(&attempt.job_id, &encoded) {
        return run;
    }
    let mut attempt = attempt.clone();
    run.job_id = clone_text(&encoded);
    run.updated_at = now;
    attempt.job_id = encoded;
    attempt.updated_at = now;
    store.persist_run_attempt_event(&run, &attempt, "local_process_adopted");
    run
}

/// Whether the run was asked to stop.
pub open spec fn cancel_noted(run: RunRecordView) -> bool {
    run.note matches Some(note) && text::has_prefix(note, "local process cancel requested"@)
}

pub fn cancel_requested(run: &RunRecord) -> (yes: bool)
    ensures
        yes == cancel_noted(run@),
{
    match &run.note {
        Some(note) => starts_with(note.as_str(), "local process cancel requested"),
        None => false,
    }
}

/// The status of a run by its process, and by the terminal file where that is
/// there by now.
pub open spec fn local_status(
    run: RunRecordView,
    state: LocalProcessState,
    terminal: Option<Seq<char>>,
) -> RunStatus {
    if state == LocalProcessState::Running {
        RunStatus::Running
    } else {
        match terminal {
            Some(body) => local_end(body),
            None => if cancel_noted(run) {
                RunStatus::Cancelled
            } else {
                RunStatus::Failed
            },
        }
    }
}

pub fn judge_local_process(
    run: &RunRecord,
    state: LocalProcessState,
    terminal: &Option<String>,
) -> (status: RunStatus)
    ensures
        status == local_status(run@, state, text::text_opt(*terminal)),
{
    if state == LocalProcessState::Running {
        return RunStatus::Running;
    }
    match terminal {
        Some(body) => read_local_end(body.as_str()),
        None => if cancel_requested(run) {
            RunStatus::Cancelled
        } else {
            RunStatus::Failed
        },
    }
}

// ---------------------------------------------------------------------------
// Stopping
// ---------------------------------------------------------------------------

/// The process that a run is to be asked to stop.
pub open spec fn cancel_target(run: RunRecordView, style: PathStyle) -> Result<
    LocalProcessHandle,
    Seq<char>,
> {
    if style != PathStyle::Windows {
        Err("Local Process v1 is currently supported on Windows only"@)
    } else {
        match run.job_id {
            None => Err("local Process Run has no process handle"@),
            Some(job) => handle_of(job),
        }
    }
}

pub fn find_cancel_target(run: &RunRecord, style: PathStyle) -> (result: Result<
    LocalProcessHandle,
    String,
>)
    ensures
        match result {
            Ok(handle) => cancel_target(run@, style) == Ok::<LocalProcessHandle, Seq<char>>(handle),
            Err(reason) => cancel_target(run@, style) == Err::<LocalProcessHandle, Seq<char>>(
                reason@,
            ),
        },
{
    if style != PathStyle::Windows {
        return Err("Local Process v1 is currently supported on Windows only".to_owned());
    }
    match &run.job_id {
        None => Err("local Process Run has no process handle".to_owned()),
        Some(job) => LocalProcessHandle::parse(job.as_str()),
    }
}

/// The run with a note that it was asked to stop.
pub open spec fn cancelling_run(run: RunRecordView, handle: LocalProcessHandle, now: Timestamp) -> RunRecordView {
    RunRecordView {
        updated_at: now,
        note: Some("local process cancel requested for "@ + handle_text(handle)),
        ..run
    }
}

/// Why the process is not asked to stop.
pub open spec fn cancel_refusal(
    s: StoreView,
    run: RunRecordView,
    state: LocalProcessState,
) -> Option<Seq<char>> {
    if state != LocalProcessState::Running {
        Some("local Process is no longer running; wait for observation before cancelling"@)
    } else {
        match run.attempt_no {
            None => Some("local Process has no attempt metadata"@),
            Some(number) => match s.attempt(run.run_id, number) {
                None => Some("local Process attempt metadata is missing"@),
                Some(_) => None,
            },
        }
    }
}

/// Notes that the process is about to be asked to stop.
pub fn request_cancel(
    store: &mut RunStore,
    run: &RunRecord,
    handle: LocalProcessHandle,
    state: LocalProcessState,
    now: Timestamp,
) -> (result: Result<RunRecord, String>)
    ensures
        match result {
            Ok(noted) => {
                &&& cancel_refusal(old(store)@, run@, state) is None
                &&& noted@ == cancelling_run(run@, handle, now)
                &&& run@.attempt_no matches Some(number) && old(store)@.attempt(
                    run@.run_id,
                    number,
                ) matches Some(attempt) && final(store)@ == runs::recorded(
                    old(store)@,
                    noted@,
                    attempt,
                    "cancel_requested"@,
                )
            },
            Err(reason) => {
                &&& cancel_refusal(old(store)@, run@, state) == Some(reason@)
                &&& final(store)@ == old(store)@
            },
        },
        old(store)@.sound() ==> final(store)@.sound(),
{
    if state != LocalProcessState::Running {
        return Err(
            "local Process is no longer running; wait for observation before cancelling".to_owned(),
        );
    }
    let number = match run.attempt_no {
        Some(number) => number,
        None => return Err("local Process has no attempt metadata".to_owned()),
    };
    let attempt = match store.get_attempt(run.run_id.as_str(), number) {
        Some(attempt) => attempt,
        None => return Err("local Process attempt metadata is missing".to_owned()),
    };
    let mut note = "local process cancel requested for ".to_owned();
    note.append(handle.encode().as_str());
    let mut noted = run.clone();
    noted.updated_at = now;
    noted.note = Some(note);
    store.persist_run_attempt_event(&noted, &attempt, "cancel_requested");
    Ok(noted)
}

// ---------------------------------------------------------------------------
// Laws
// ---------------------------------------------------------------------------

/// A handle is read back as it was written.
pub proof fn handle_is_read_back(handle: LocalProcessHandle)
    requires
        handle.pid != 0,
    ensures
        handle_of(handle_text(handle)) == Ok::<LocalProcessHandle, Seq<char>>(handle),
{
    let number = text::decimal(handle.pid as nat);
    let stamp = encoding::hex_digits(handle.creation_time as nat, 16);
    text::decimal_is_read_back(handle.pid as nat);
    text::lemma_decimal_digits(handle.pid as nat);
    encoding::hex_is_read_back(handle.creation_time);
    encoding::lemma_hex_text(handle.creation_time as nat, 16);
    reveal_strlit("local");
    reveal_strlit("local:");
    reveal_strlit(":");
    let rest = number + ":"@ + stamp;
    let tail = stamp;
    assert("local:"@ =~= "local"@ + seq![':']);
    assert(handle_text(handle) =~= "local"@ + seq![':'] + rest);
    assert(rest =~= number + seq![':'] + tail);
    text::lemma_split_head("local"@, rest, ':');
    text::lemma_split_head(number, tail, ':');
    text::lemma_split_single(tail, ':');
    let parts = text::split_on(handle_text(handle), ':');
    assert(parts =~= seq!["local"@, number, stamp]);
}

/// A process whose number was given to another one is never taken for it.
pub proof fn reused_number_is_not_the_process(
    handle: LocalProcessHandle,
    actual: LocalProcessHandle,
    exit_code: u32,
)
    requires
        actual.creation_time != handle.creation_time,
    ensures
        process_state(handle, Some((actual, exit_code))) == LocalProcessState::Reused,
{
}

/// How far PowerShell has read a literal in single quotes: before it, in it, or
/// behind a quote that ends it or stands doubled.
pub enum LiteralReading {
    Before,
    Inside(Seq<char>),
    Behind(Seq<char>),
    Lost,
}

/// The characters that PowerShell takes for a single quote.
pub open spec fn is_single_quote(ch: char) -> bool {
    ch == '\'' || is_curled_quote(ch)
}

pub open spec fn is_curled_quote(ch: char) -> bool {
    ch == '\u{2018}' || ch == '\u{2019}' || ch == '\u{201A}' || ch == '\u{201B}'
}

pub open spec fn literal_step(state: LiteralReading, ch: char) -> LiteralReading {
    match state {
        LiteralReading::Before => if is_single_quote(ch) {
            LiteralReading::Inside(Seq::empty())
        } else {
            LiteralReading::Lost
        },
        LiteralReading::Inside(value) => if is_single_quote(ch) {
            LiteralReading::Behind(value)
        } else {
            LiteralReading::Inside(value.push(ch))
        },
        LiteralReading::Behind(value) => if is_single_quote(ch) {
            LiteralReading::Inside(value.push(ch))
        } else {
            LiteralReading::Lost
        },
        LiteralReading::Lost => LiteralReading::Lost,
    }
}

pub open spec fn literal_reading(text: Seq<char>) -> LiteralReading
    decreases text.len(),
{
    if text.len() == 0 {
        LiteralReading::Before
    } else {
        literal_step(literal_reading(text.drop_last()), text.last())
    }
}

proof fn lemma_literal_push(text: Seq<char>, ch: char)
    ensures
        literal_reading(text.push(ch)) == literal_step(literal_reading(text), ch),
{
    assert(text.push(ch).drop_last() =~= text);
}

proof fn lemma_literal_inside(value: Seq<char>)
    requires
        forall|i: int| 0 <= i < value.len() ==> !is_curled_quote(#[trigger] value[i]),
    ensures
        literal_reading("'"@ + text::replaced(value, '\'', "''"@)) == LiteralReading::Inside(value),
    decreases value.len(),
{
    reveal_strlit("'");
    reveal_strlit("''");
    if value.len() == 0 {
        assert("'"@ + text::replaced(value, '\'', "''"@) =~= Seq::empty().push('\''));
        lemma_literal_push(Seq::empty(), '\'');
        assert(value =~= Seq::empty());
    } else {
        let head = "'"@ + text::replaced(value.drop_last(), '\'', "''"@);
        assert forall|i: int| 0 <= i < value.drop_last().len() implies !is_curled_quote(
            #[trigger] value.drop_last()[i],
        ) by {
            assert(value.drop_last()[i] == value[i]);
        }
        lemma_literal_inside(value.drop_last());
        assert(value.drop_last().push(value.last()) =~= value);
        assert(!is_curled_quote(value[value.len() - 1]));
        if value.last() == '\'' {
            assert("'"@ + text::replaced(value, '\'', "''"@) =~= head.push('\'').push('\''));
            lemma_literal_push(head, '\'');
            lemma_literal_push(head.push('\''), '\'');
        } else {
            assert("'"@ + text::replaced(value, '\'', "''"@) =~= head.push(value.last()));
            lemma_literal_push(head, value.last());
        }
    }
}

/// To PowerShell a quoted value is one literal, and the literal is the value,
/// unless it holds a curled quote: PowerShell ends a literal at one of those.
pub proof fn quoted_value_is_one_literal(value: Seq<char>)
    requires
        forall|i: int| 0 <= i < value.len() ==> !is_curled_quote(#[trigger] value[i]),
    ensures
        literal_reading(ps_word(value)) == LiteralReading::Behind(value),
{
    reveal_strlit("'");
    let head = "'"@ + text::replaced(value, '\'', "''"@);
    lemma_literal_inside(value);
    assert(ps_word(value) =~= head.push('\''));
    lemma_literal_push(head, '\'');
}

} // verus!
