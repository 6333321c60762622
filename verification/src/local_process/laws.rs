//! What holds of a process on this machine from its start to its end.
use crate::local_process;
use crate::local_process::{LocalPlanView, LocalProcessHandle, LocalProcessState};
use crate::paths;
use crate::paths::PathStyle;
use crate::probe;
use crate::seqs;
use crate::store;
use crate::store::StoreView;
use crate::submission;
use crate::submission::laws::{lemma_recorded, read_as, single_line};
use crate::text;
use crate::time::Timestamp;
use crate::types::{
    RunAttemptRecordView, RunRecordView, RunResources, RunStatus, RunnerKind, SubmitRunSpecView,
};
use vstd::prelude::*;

verus! {

// ---------------------------------------------------------------------------
// The script
// ---------------------------------------------------------------------------

/// Whether the script runs the command with its two outputs in their files and
/// then takes one of two words by its exit code.
pub open spec fn branches_on_exit(
    script: Seq<char>,
    plan: LocalPlanView,
    good: Seq<char>,
    bad: Seq<char>,
) -> bool {
    text::has_part(
        script,
        local_process::ps_word(local_process::powershell_payload(plan.spec.command))
            + " 1> $stdout 2> $stderr\n$rc=$LASTEXITCODE\nif($rc -eq 0) {$status='"@ + good
            + "'} else {$status='"@ + bad + "'}\n"@,
    )
}

/// The script runs the command and writes down its end: the word for the exit
/// code zero is one that the reader of these files takes for a success, and the
/// word for every other code is one that it takes for a failure.
#[verifier::spinoff_prover]
#[verifier::rlimit(60)]
pub proof fn local_script_tells_the_end(plan: LocalPlanView)
    ensures
        exists|good: Seq<char>, bad: Seq<char>|
            {
                &&& read_as(good, RunStatus::Succeeded)
                &&& read_as(bad, RunStatus::Failed)
                &&& #[trigger] branches_on_exit(
                    local_process::local_wrapper(plan),
                    plan,
                    good,
                    bad,
                )
            },
{
    submission::laws::lemma_words_read();
    let lit = " 1> $stdout 2> $stderr\n$rc=$LASTEXITCODE\nif($rc -eq 0) {$status='succeeded'} else {$status='failed'}\nWrite-AtomicJson $terminal @{schema_version=1;run_id="@;
    let head = " 1> $stdout 2> $stderr\n$rc=$LASTEXITCODE\nif($rc -eq 0) {$status='"@;
    let tail = "Write-AtomicJson $terminal @{schema_version=1;run_id="@;
    let branch = head + "succeeded"@ + "'} else {$status='"@ + "failed"@ + "'}\n"@;
    assert(lit == branch + tail) by {
        reveal_strlit(" 1> $stdout 2> $stderr\n$rc=$LASTEXITCODE\nif($rc -eq 0) {$status='succeeded'} else {$status='failed'}\nWrite-AtomicJson $terminal @{schema_version=1;run_id=");
        reveal_strlit(" 1> $stdout 2> $stderr\n$rc=$LASTEXITCODE\nif($rc -eq 0) {$status='");
        reveal_strlit("succeeded");
        reveal_strlit("'} else {$status='");
        reveal_strlit("failed");
        reveal_strlit("'}\n");
        reveal_strlit("Write-AtomicJson $terminal @{schema_version=1;run_id=");
        assert(lit =~= branch + tail);
    }
    let word = local_process::ps_word(local_process::powershell_payload(plan.spec.command));
    let script = local_process::local_wrapper(plan);
    lemma_script_parts(plan);
    let front = script_front(plan);
    let back = script_back(plan);
    let part = word + branch;
    assert(script =~= front + part + (tail + back));
    text::lemma_part_within(front, part, tail + back);
    assert(part =~= word + head + "succeeded"@ + "'} else {$status='"@ + "failed"@ + "'}\n"@);
    assert(branches_on_exit(script, plan, "succeeded"@, "failed"@));
}

/// The script before its command.
spec fn script_front(plan: LocalPlanView) -> Seq<char> {
    let all = local_process::local_wrapper(plan);
    all.take(all.len() - script_rest(plan).len())
}

spec fn script_back(plan: LocalPlanView) -> Seq<char> {
    local_process::ps_word(plan.spec.run_id) + ";attempt_no="@ + text::decimal(
        plan.attempt_no as nat,
    )
        + ";status=$status;exit_code=$rc;finished_at=[DateTime]::UtcNow.ToString('o')}\nexit $rc\n"@
}

/// The script from its command on.
spec fn script_rest(plan: LocalPlanView) -> Seq<char> {
    local_process::ps_word(local_process::powershell_payload(plan.spec.command))
        + " 1> $stdout 2> $stderr\n$rc=$LASTEXITCODE\nif($rc -eq 0) {$status='succeeded'} else {$status='failed'}\nWrite-AtomicJson $terminal @{schema_version=1;run_id="@
        + script_back(plan)
}

proof fn lemma_script_parts(plan: LocalPlanView)
    ensures
        local_process::local_wrapper(plan) == script_front(plan) + script_rest(plan),
{
    let all = local_process::local_wrapper(plan);
    let rest = script_rest(plan);
    assert(all.skip(all.len() - rest.len()) =~= rest);
    assert(all =~= all.take(all.len() - rest.len()) + rest);
}

/// The end goes to the file of the run's end, under the name of the run and the
/// number of the attempt, with the word and the exit code of the command.
#[verifier::spinoff_prover]
#[verifier::rlimit(60)]
pub proof fn local_script_leaves_its_end(plan: LocalPlanView)
    ensures
        text::has_part(
            local_process::local_wrapper(plan),
            "Write-AtomicJson $terminal @{schema_version=1;run_id="@ + local_process::ps_word(
                plan.spec.run_id,
            ) + ";attempt_no="@ + text::decimal(plan.attempt_no as nat)
                + ";status=$status;exit_code=$rc;finished_at=[DateTime]::UtcNow.ToString('o')}\nexit $rc\n"@,
        ),
        text::has_prefix(
            local_process::local_wrapper(plan),
            "$ErrorActionPreference='Stop'\n$started="@ + local_process::ps_word(plan.started_path)
                + "\n$armed="@ + local_process::ps_word(plan.armed_path) + "\n$terminal="@
                + local_process::ps_word(plan.terminal_path) + "\n$stdout="@
                + local_process::ps_word(plan.stdout_path) + "\n$stderr="@ + local_process::ps_word(
                plan.stderr_path,
            ),
        ),
{
    lemma_script_head(plan);
    lemma_script_parts(plan);
    lemma_script_end(local_process::local_wrapper(plan), script_front(plan), plan);
}

#[verifier::spinoff_prover]
#[verifier::rlimit(60)]
proof fn lemma_script_end(script: Seq<char>, front: Seq<char>, plan: LocalPlanView)
    requires
        script == front + script_rest(plan),
    ensures
        text::has_part(
            script,
            "Write-AtomicJson $terminal @{schema_version=1;run_id="@ + local_process::ps_word(
                plan.spec.run_id,
            ) + ";attempt_no="@ + text::decimal(plan.attempt_no as nat)
                + ";status=$status;exit_code=$rc;finished_at=[DateTime]::UtcNow.ToString('o')}\nexit $rc\n"@,
        ),
{
    let lit = " 1> $stdout 2> $stderr\n$rc=$LASTEXITCODE\nif($rc -eq 0) {$status='succeeded'} else {$status='failed'}\nWrite-AtomicJson $terminal @{schema_version=1;run_id="@;
    let cut = " 1> $stdout 2> $stderr\n$rc=$LASTEXITCODE\nif($rc -eq 0) {$status='succeeded'} else {$status='failed'}\n"@;
    let tail = "Write-AtomicJson $terminal @{schema_version=1;run_id="@;
    lemma_end_words();
    let word = local_process::ps_word(local_process::powershell_payload(plan.spec.command));
    let start = front + word + cut;
    let part = tail + script_back(plan);
    lemma_regrouped(front, word, cut, tail, script_back(plan));
    assert(script == start + part + Seq::<char>::empty());
    text::lemma_part_within(start, part, Seq::empty());
    lemma_spread(
        tail,
        local_process::ps_word(plan.spec.run_id),
        ";attempt_no="@,
        text::decimal(plan.attempt_no as nat),
        ";status=$status;exit_code=$rc;finished_at=[DateTime]::UtcNow.ToString('o')}\nexit $rc\n"@,
    );
}

proof fn lemma_regrouped(
    a: Seq<char>,
    b: Seq<char>,
    c: Seq<char>,
    d: Seq<char>,
    e: Seq<char>,
)
    ensures
        a + (b + (c + d) + e) == (a + b + c) + (d + e) + Seq::<char>::empty(),
{
    assert(a + (b + (c + d) + e) =~= (a + b + c) + (d + e) + Seq::<char>::empty());
}

proof fn lemma_spread(a: Seq<char>, b: Seq<char>, c: Seq<char>, d: Seq<char>, e: Seq<char>)
    ensures
        a + (b + c + d + e) == a + b + c + d + e,
{
    assert(a + (b + c + d + e) =~= a + b + c + d + e);
}

#[verifier::spinoff_prover]
#[verifier::rlimit(60)]
proof fn lemma_end_words()
    ensures
        " 1> $stdout 2> $stderr\n$rc=$LASTEXITCODE\nif($rc -eq 0) {$status='succeeded'} else {$status='failed'}\nWrite-AtomicJson $terminal @{schema_version=1;run_id="@
            == " 1> $stdout 2> $stderr\n$rc=$LASTEXITCODE\nif($rc -eq 0) {$status='succeeded'} else {$status='failed'}\n"@
            + "Write-AtomicJson $terminal @{schema_version=1;run_id="@,
{
    reveal_strlit(" 1> $stdout 2> $stderr\n$rc=$LASTEXITCODE\nif($rc -eq 0) {$status='succeeded'} else {$status='failed'}\nWrite-AtomicJson $terminal @{schema_version=1;run_id=");
    reveal_strlit(" 1> $stdout 2> $stderr\n$rc=$LASTEXITCODE\nif($rc -eq 0) {$status='succeeded'} else {$status='failed'}\n");
    reveal_strlit("Write-AtomicJson $terminal @{schema_version=1;run_id=");
    assert(" 1> $stdout 2> $stderr\n$rc=$LASTEXITCODE\nif($rc -eq 0) {$status='succeeded'} else {$status='failed'}\nWrite-AtomicJson $terminal @{schema_version=1;run_id="@
        =~= " 1> $stdout 2> $stderr\n$rc=$LASTEXITCODE\nif($rc -eq 0) {$status='succeeded'} else {$status='failed'}\n"@
        + "Write-AtomicJson $terminal @{schema_version=1;run_id="@);
}

#[verifier::spinoff_prover]
#[verifier::rlimit(60)]
proof fn lemma_script_head(plan: LocalPlanView)
    ensures
        text::has_prefix(
            local_process::local_wrapper(plan),
            "$ErrorActionPreference='Stop'\n$started="@ + local_process::ps_word(plan.started_path)
                + "\n$armed="@ + local_process::ps_word(plan.armed_path) + "\n$terminal="@
                + local_process::ps_word(plan.terminal_path) + "\n$stdout="@
                + local_process::ps_word(plan.stdout_path) + "\n$stderr="@ + local_process::ps_word(
                plan.stderr_path,
            ),
        ),
{
    let script = local_process::local_wrapper(plan);
    let head = "$ErrorActionPreference='Stop'\n$started="@ + local_process::ps_word(
        plan.started_path,
    ) + "\n$armed="@ + local_process::ps_word(plan.armed_path) + "\n$terminal="@
        + local_process::ps_word(plan.terminal_path) + "\n$stdout="@ + local_process::ps_word(
        plan.stdout_path,
    ) + "\n$stderr="@ + local_process::ps_word(plan.stderr_path);
    assert(script.take(head.len() as int) =~= head);
}

// ---------------------------------------------------------------------------
// The process
// ---------------------------------------------------------------------------

/// A process is told by its number and the time of its start: one that has the
/// number and another start is another process. One that is there runs as long
/// as it has the exit code of a running process, which is 259.
pub proof fn process_is_told_by_its_start(
    handle: LocalProcessHandle,
    seen: Option<(LocalProcessHandle, u32)>,
)
    ensures
        ({
            let state = local_process::process_state(handle, seen);
            &&& state is Missing <==> seen is None
            &&& state is Reused <==> seen is Some && (seen->0).0.creation_time
                != handle.creation_time
            &&& state is Running <==> seen is Some && (seen->0).0.creation_time
                == handle.creation_time && (seen->0).1 == 259
            &&& state is Exited <==> seen is Some && (seen->0).0.creation_time
                == handle.creation_time && (seen->0).1 != 259
            &&& state matches LocalProcessState::Exited(code) ==> seen is Some && code
                == (seen->0).1
        }),
{
}

/// What a run on this machine is: running as long as its process runs; then what
/// the file of its end says, a failure where the file says nothing that is
/// understood; and without such a file cancelled where it was told to stop and
/// otherwise failed.
pub proof fn local_run_is_judged(
    run: RunRecordView,
    state: LocalProcessState,
    terminal: Option<Seq<char>>,
)
    ensures
        ({
            let status = local_process::local_status(run, state, terminal);
            &&& state is Running ==> status == RunStatus::Running
            &&& status == RunStatus::Running ==> state is Running
            &&& !(state is Running) && terminal is Some ==> (match probe::terminal_status(
                terminal->0,
            ) {
                Some(end) => status == end,
                None => status == RunStatus::Failed,
            })
            &&& !(state is Running) && terminal is None && told_to_stop(run) ==> status
                == RunStatus::Cancelled
            &&& !(state is Running) && terminal is None && !told_to_stop(run) ==> status
                == RunStatus::Failed
        }),
{
    if let Some(body) = terminal {
        probe::terminal_status_is_terminal(body);
    }
}

/// Whether the note of a run says that its process was told to stop.
pub open spec fn told_to_stop(run: RunRecordView) -> bool {
    match run.note {
        Some(note) => text::has_prefix(note, "local process cancel requested"@),
        None => false,
    }
}

/// Who tells a process to stop and who judges its end agree: a run that was told
/// to stop, and whose process is then gone without a word, was cancelled. Until
/// then its status stays, and nothing else of it changes.
pub proof fn stopped_process_was_cancelled(
    run: RunRecordView,
    handle: LocalProcessHandle,
    now: Timestamp,
    state: LocalProcessState,
)
    requires
        !(state is Running),
    ensures
        ({
            let noted = local_process::cancelling_run(run, handle, now);
            &&& local_process::local_status(noted, state, None) == RunStatus::Cancelled
            &&& noted.status == run.status
            &&& noted.job_id == run.job_id
            &&& noted.run_id == run.run_id
            &&& noted.attempt_no == run.attempt_no
            &&& noted.runner == run.runner
        }),
{
    let noted = local_process::cancelling_run(run, handle, now);
    reveal_strlit("local process cancel requested for ");
    reveal_strlit("local process cancel requested");
    let note = noted.note->0;
    assert(note.take("local process cancel requested"@.len() as int)
        =~= "local process cancel requested"@);
}

/// Only a process that runs, of a run whose attempt is known, is told to stop.
pub proof fn only_a_running_process_is_stopped(
    s: StoreView,
    run: RunRecordView,
    state: LocalProcessState,
)
    ensures
        local_process::cancel_refusal(s, run, state) is None <==> state is Running
            && run.attempt_no is Some && s.attempt(run.run_id, run.attempt_no->0) is Some,
{
}

/// A process that was started is the run's from that moment on: the ledger has
/// the run and its attempt as running, under the handle of the process, and the
/// handle is read back from there.
pub proof fn started_process_is_recorded(
    s: StoreView,
    run: RunRecordView,
    attempt: RunAttemptRecordView,
    handle: LocalProcessHandle,
    now: Timestamp,
)
    requires
        attempt.run_id == run.run_id,
        handle.pid > 0,
    ensures
        ({
            let job = local_process::handle_text(handle);
            let running = submission::accepted_run(run, job, RunStatus::Running, now);
            let t = store::runs::recorded(
                s,
                running,
                submission::accepted_attempt(attempt, job, RunStatus::Running, now),
                "local_process_started"@,
            );
            &&& t.run(run.run_id) matches Some(after) && after.status == RunStatus::Running
                && after.job_id == Some(job)
            &&& t.attempt(run.run_id, attempt.attempt_no) matches Some(after) && after.status
                == RunStatus::Running && after.job_id == Some(job)
            &&& local_process::handle_of(job) == Ok::<LocalProcessHandle, Seq<char>>(handle)
        }),
{
    let job = local_process::handle_text(handle);
    lemma_recorded(
        s,
        submission::accepted_run(run, job, RunStatus::Running, now),
        submission::accepted_attempt(attempt, job, RunStatus::Running, now),
        "local_process_started"@,
    );
    local_process::handle_is_read_back(handle);
}

/// The handle of a process is the one in the ledger, and where the ledger has
/// none the one on the receipt.
pub proof fn ledger_comes_before_the_receipt(
    attempt: RunAttemptRecordView,
    receipt: Option<Seq<char>>,
    handle: LocalProcessHandle,
)
    requires
        handle.pid > 0,
    ensures
        attempt.job_id == Some(local_process::handle_text(handle))
            ==> local_process::recorded_handle_of(attempt, receipt) == Ok::<
            Option<LocalProcessHandle>,
            Seq<char>,
        >(Some(handle)),
        attempt.job_id is None && receipt is None ==> local_process::recorded_handle_of(
            attempt,
            receipt,
        ) == Ok::<Option<LocalProcessHandle>, Seq<char>>(None),
        attempt.job_id is None && receipt is Some && text::trimmed(receipt->0)
            == local_process::handle_text(handle) ==> local_process::recorded_handle_of(
            attempt,
            receipt,
        ) == Ok::<Option<LocalProcessHandle>, Seq<char>>(Some(handle)),
{
    local_process::handle_is_read_back(handle);
}

// ---------------------------------------------------------------------------
// The rows and the files of a run
// ---------------------------------------------------------------------------

/// A run on this machine and its attempt are entered as they were asked for.
pub proof fn entered_local_run_is_the_one_asked_for(spec: SubmitRunSpecView, now: Timestamp)
    ensures
        ({
            let plan = local_process::local_planned(spec);
            let run = local_process::local_run(plan, now);
            let attempt = local_process::local_attempt(plan, now);
            &&& plan.spec == spec
            &&& run.run_id == spec.run_id && attempt.run_id == spec.run_id
            &&& run.name == spec.name
            &&& run.host == "local"@ && attempt.host == "local"@
            &&& run.runner == RunnerKind::Process && attempt.runner == RunnerKind::Process
            &&& run.workspace == Some(spec.workspace)
            &&& run.status == RunStatus::Submitting && attempt.status == RunStatus::Submitting
            &&& run.job_id is None && attempt.job_id is None
            &&& run.attempt_no == Some(1u32) && attempt.attempt_no == 1
            &&& attempt.workdir == spec.workspace.cwd
            &&& attempt.command == spec.command
            &&& attempt.resources == spec.resources
            &&& run.remote_terminal == Some(attempt.terminal_path)
            &&& attempt.script_path == plan.wrapper_path
            &&& attempt.stdout_path == plan.stdout_path
            &&& attempt.stderr_path == plan.stderr_path
            &&& attempt.terminal_path == plan.terminal_path
            &&& attempt.receipt_path == plan.receipt_path
            &&& spec.continuation matches Some(binding) ==> run.session_id == Some(
                binding.session_id,
            ) && run.agent == Some(binding.agent_kind) && run.project_root == Some(
                binding.project_root,
            )
            &&& spec.continuation is None ==> run.session_id is None && run.agent is None
                && run.project_root is None
        }),
{
}

/// All files of a run on this machine lie in a directory of its own below its
/// working directory, each under its own name.
pub proof fn local_files_lie_in_the_run_directory(spec: SubmitRunSpecView)
    ensures
        ({
            let plan = local_process::local_planned(spec);
            let style = PathStyle::Windows;
            let base = paths::joined_path(spec.workspace.cwd, ".runwatch"@, style);
            &&& plan.run_dir == paths::joined_path(base, spec.run_id, style)
            &&& plan.wrapper_path == paths::joined_path(plan.run_dir, "attempt-1.ps1"@, style)
            &&& plan.stdout_path == paths::joined_path(plan.run_dir, "stdout.log"@, style)
            &&& plan.stderr_path == paths::joined_path(plan.run_dir, "stderr.log"@, style)
            &&& plan.terminal_path == paths::joined_path(plan.run_dir, "terminal.json"@, style)
            &&& plan.receipt_path == paths::joined_path(plan.run_dir, "submission.receipt"@, style)
            &&& plan.started_path == paths::joined_path(plan.run_dir, "started.json"@, style)
            &&& plan.armed_path == paths::joined_path(plan.run_dir, "armed"@, style)
        }),
{
}

/// What a submission to this machine must keep to: each condition that is not met
/// refuses it, and nothing else does.
pub proof fn local_submission_is_checked(
    spec: SubmitRunSpecView,
    style: PathStyle,
    cwd_is_directory: bool,
)
    ensures
        local_process::local_refusal(spec, style, cwd_is_directory) is None <==> ({
            &&& style == PathStyle::Windows
            &&& 0 < spec.run_id.len()
            &&& text::byte_len(spec.run_id) <= 96
            &&& forall|i: int|
                0 <= i < spec.run_id.len() ==> submission::is_id_char(#[trigger] spec.run_id[i])
            &&& spec.runner == RunnerKind::Process
            &&& text::trimmed(spec.command).len() > 0
            &&& text::byte_len(spec.command) <= 65536
            &&& !spec.command.contains('\0')
            &&& spec.workspace.host_alias == "local"@
            &&& single_line(spec.workspace.cwd)
            &&& cwd_is_directory
            &&& spec.resources == RunResources::none_view()
            &&& spec.continuation matches Some(binding) ==> ({
                &&& binding.agent_kind == "pi"@
                &&& text::trimmed(binding.session_id).len() > 0
                &&& single_line(binding.project_root)
                &&& binding.workspace == spec.workspace
                &&& binding.session_file matches Some(value) ==> single_line(value) && value.len()
                    > 0
                &&& binding.origin_leaf_id matches Some(value) ==> single_line(value) && value.len()
                    > 0
                &&& binding.adapter_path matches Some(value) ==> single_line(value) && value.len()
                    > 0
            })
        }),
{
}

/// A submission to this machine under a name that is taken goes on with what is
/// there where it asks for the same, and is refused where it asks for something
/// else.
pub proof fn repeated_local_submission_goes_on(
    s: StoreView,
    plan: LocalPlanView,
    current: RunRecordView,
    existing: RunAttemptRecordView,
    now: Timestamp,
)
    requires
        s.run(plan.spec.run_id) == Some(current),
        s.attempt(plan.spec.run_id, plan.attempt_no) == Some(existing),
    ensures
        ({
            let wanted = local_process::local_attempt(plan, now);
            let start = local_process::local_start_of(s, plan, now);
            let same = existing.attempt_no == wanted.attempt_no && existing.runner == wanted.runner
                && existing.host == wanted.host && existing.workdir == wanted.workdir
                && existing.command == wanted.command && existing.resources == wanted.resources;
            let done = existing.job_id is Some && current.status != RunStatus::Submitting;
            &&& !same ==> start is Err
            &&& same && done ==> start == Ok::<
                (RunRecordView, Option<RunAttemptRecordView>),
                Seq<char>,
            >((current, None))
            &&& same && !done ==> start == Ok::<
                (RunRecordView, Option<RunAttemptRecordView>),
                Seq<char>,
            >((current, Some(existing)))
        }),
{
}

/// A process that is found is the run's from that moment on, and nothing else of
/// the run changes.
pub proof fn found_process_is_adopted(
    run: RunRecordView,
    attempt: RunAttemptRecordView,
    handle: LocalProcessHandle,
    now: Timestamp,
)
    ensures
        ({
            let after = local_process::adopted_run(run, handle, now);
            let tried = local_process::adopted_attempt(attempt, handle, now);
            &&& after.job_id == Some(local_process::handle_text(handle))
            &&& after.status == run.status
            &&& after.run_id == run.run_id
            &&& after.note == run.note
            &&& tried.job_id == Some(local_process::handle_text(handle))
            &&& tried.status == attempt.status
            &&& tried.run_id == attempt.run_id
            &&& tried.attempt_no == attempt.attempt_no
            &&& local_process::carries_handle(after, tried, handle)
        }),
{
}

/// What is stopped is the process that the ledger has for the run.
pub proof fn stopped_process_is_the_runs(
    run: RunRecordView,
    handle: LocalProcessHandle,
    style: PathStyle,
)
    requires
        handle.pid > 0,
        run.job_id == Some(local_process::handle_text(handle)),
    ensures
        style == PathStyle::Windows ==> local_process::cancel_target(run, style) == Ok::<
            LocalProcessHandle,
            Seq<char>,
        >(handle),
        style == PathStyle::Posix ==> local_process::cancel_target(run, style) is Err,
{
    local_process::handle_is_read_back(handle);
}

// ---------------------------------------------------------------------------
// A start that is never armed
// ---------------------------------------------------------------------------

/// Whether the script waits a day for the file that arms it and then writes the
/// word down as the end of the run, with the exit code 124.
pub open spec fn gives_up(script: Seq<char>, plan: LocalPlanView, word: Seq<char>) -> bool {
    text::has_part(
        script,
        "$deadline=[DateTime]::UtcNow.AddHours(24)\nwhile(-not (Test-Path -LiteralPath $armed)) {\nif([DateTime]::UtcNow -ge $deadline) {\nWrite-AtomicJson $terminal @{schema_version=1;run_id="@
            + local_process::ps_word(plan.spec.run_id) + ";attempt_no="@ + text::decimal(
            plan.attempt_no as nat,
        ) + ";status='"@ + word + "';exit_code=124;"@,
    )
}

/// A script that is not armed within a day leaves the end of its run as one that
/// the reader of these files takes for a failure, and runs no command.
#[verifier::spinoff_prover]
#[verifier::rlimit(60)]
pub proof fn unarmed_script_fails(plan: LocalPlanView)
    ensures
        exists|word: Seq<char>|
            read_as(word, RunStatus::Failed) && #[trigger] gives_up(
                local_process::local_wrapper(plan),
                plan,
                word,
            ),
{
    submission::laws::lemma_words_read();
    lemma_wait_words();
    lemma_give_up_words();
    let script = local_process::local_wrapper(plan);
    let head = waiting_head(plan);
    lemma_waiting_head(plan);
    let front = script_start(plan);
    let name = local_process::ps_word(plan.spec.run_id);
    let number = text::decimal(plan.attempt_no as nat);
    let wait = "$deadline=[DateTime]::UtcNow.AddHours(24)\nwhile(-not (Test-Path -LiteralPath $armed)) {\nif([DateTime]::UtcNow -ge $deadline) {\nWrite-AtomicJson $terminal @{schema_version=1;run_id="@;
    let rest = "finished_at=[DateTime]::UtcNow.ToString('o')}\nexit 124\n}\nStart-Sleep -Milliseconds 200\n}\n$ErrorActionPreference='Continue'\n$pwsh=Join-Path $PSHOME 'pwsh.exe'\n& $pwsh -NoLogo -NoProfile -NonInteractive -EncodedCommand "@;
    let part = wait + name + ";attempt_no="@ + number + ";status='"@ + "failed"@
        + "';exit_code=124;"@;
    lemma_wait_regrouped(
        front,
        ";pid=$PID}\n"@,
        wait,
        name,
        ";attempt_no="@,
        number,
        ";status='"@,
        "failed"@,
        "';exit_code=124;"@,
        rest,
    );
    text::lemma_part_within(front + ";pid=$PID}\n"@, part, rest);
    assert(text::has_part(head, part));
    text::lemma_part_kept(head, part, script.skip(head.len() as int));
    assert(script == head + script.skip(head.len() as int));
    assert(gives_up(script, plan, "failed"@));
}

/// The script up to the number of its own process.
spec fn script_start(plan: LocalPlanView) -> Seq<char> {
    "$ErrorActionPreference='Stop'\n$started="@ + local_process::ps_word(plan.started_path)
        + "\n$armed="@ + local_process::ps_word(plan.armed_path) + "\n$terminal="@
        + local_process::ps_word(plan.terminal_path) + "\n$stdout="@ + local_process::ps_word(
        plan.stdout_path,
    ) + "\n$stderr="@ + local_process::ps_word(plan.stderr_path)
        + "\nfunction Write-AtomicJson([string]$path,[hashtable]$value) {\n$tmp=\"$path.tmp.$PID\"\n$json=$value | ConvertTo-Json -Compress\n[IO.File]::WriteAllText($tmp,$json,[Text.UTF8Encoding]::new($false))\nMove-Item -LiteralPath $tmp -Destination $path -Force\n}\nWrite-AtomicJson $started @{schema_version=1;run_id="@
        + local_process::ps_word(plan.spec.run_id) + ";attempt_no="@ + text::decimal(
        plan.attempt_no as nat,
    )
}

/// The script up to its command.
spec fn waiting_head(plan: LocalPlanView) -> Seq<char> {
    script_start(plan)
        + ";pid=$PID}\n$deadline=[DateTime]::UtcNow.AddHours(24)\nwhile(-not (Test-Path -LiteralPath $armed)) {\nif([DateTime]::UtcNow -ge $deadline) {\nWrite-AtomicJson $terminal @{schema_version=1;run_id="@
        + local_process::ps_word(plan.spec.run_id) + ";attempt_no="@ + text::decimal(
        plan.attempt_no as nat,
    )
        + ";status='failed';exit_code=124;finished_at=[DateTime]::UtcNow.ToString('o')}\nexit 124\n}\nStart-Sleep -Milliseconds 200\n}\n$ErrorActionPreference='Continue'\n$pwsh=Join-Path $PSHOME 'pwsh.exe'\n& $pwsh -NoLogo -NoProfile -NonInteractive -EncodedCommand "@
}

#[verifier::spinoff_prover]
#[verifier::rlimit(60)]
proof fn lemma_waiting_head(plan: LocalPlanView)
    ensures
        ({
            let script = local_process::local_wrapper(plan);
            let head = waiting_head(plan);
            script == head + script.skip(head.len() as int)
        }),
{
    let script = local_process::local_wrapper(plan);
    let head = waiting_head(plan);
    assert(script.take(head.len() as int) =~= head);
    assert(script =~= script.take(head.len() as int) + script.skip(head.len() as int));
}

proof fn lemma_wait_regrouped(
    a: Seq<char>,
    p: Seq<char>,
    q: Seq<char>,
    w: Seq<char>,
    c: Seq<char>,
    n: Seq<char>,
    s: Seq<char>,
    b: Seq<char>,
    e: Seq<char>,
    t: Seq<char>,
)
    ensures
        a + (p + q) + w + c + n + (s + b + e + t) == (a + p) + (q + w + c + n + s + b + e) + t,
{
    assert(a + (p + q) + w + c + n + (s + b + e + t) =~= (a + p) + (q + w + c + n + s + b + e)
        + t);
}

#[verifier::spinoff_prover]
#[verifier::rlimit(60)]
proof fn lemma_wait_words()
    ensures
        ";pid=$PID}\n$deadline=[DateTime]::UtcNow.AddHours(24)\nwhile(-not (Test-Path -LiteralPath $armed)) {\nif([DateTime]::UtcNow -ge $deadline) {\nWrite-AtomicJson $terminal @{schema_version=1;run_id="@
            == ";pid=$PID}\n"@
            + "$deadline=[DateTime]::UtcNow.AddHours(24)\nwhile(-not (Test-Path -LiteralPath $armed)) {\nif([DateTime]::UtcNow -ge $deadline) {\nWrite-AtomicJson $terminal @{schema_version=1;run_id="@,
{
    reveal_strlit(";pid=$PID}\n$deadline=[DateTime]::UtcNow.AddHours(24)\nwhile(-not (Test-Path -LiteralPath $armed)) {\nif([DateTime]::UtcNow -ge $deadline) {\nWrite-AtomicJson $terminal @{schema_version=1;run_id=");
    reveal_strlit(";pid=$PID}\n");
    reveal_strlit("$deadline=[DateTime]::UtcNow.AddHours(24)\nwhile(-not (Test-Path -LiteralPath $armed)) {\nif([DateTime]::UtcNow -ge $deadline) {\nWrite-AtomicJson $terminal @{schema_version=1;run_id=");
    assert(";pid=$PID}\n$deadline=[DateTime]::UtcNow.AddHours(24)\nwhile(-not (Test-Path -LiteralPath $armed)) {\nif([DateTime]::UtcNow -ge $deadline) {\nWrite-AtomicJson $terminal @{schema_version=1;run_id="@
        =~= ";pid=$PID}\n"@
        + "$deadline=[DateTime]::UtcNow.AddHours(24)\nwhile(-not (Test-Path -LiteralPath $armed)) {\nif([DateTime]::UtcNow -ge $deadline) {\nWrite-AtomicJson $terminal @{schema_version=1;run_id="@);
}

#[verifier::spinoff_prover]
#[verifier::rlimit(100)]
proof fn lemma_give_up_words()
    ensures
        ";status='failed';exit_code=124;finished_at=[DateTime]::UtcNow.ToString('o')}\nexit 124\n}\nStart-Sleep -Milliseconds 200\n}\n$ErrorActionPreference='Continue'\n$pwsh=Join-Path $PSHOME 'pwsh.exe'\n& $pwsh -NoLogo -NoProfile -NonInteractive -EncodedCommand "@
            == ";status='"@ + "failed"@ + "';exit_code=124;"@
            + "finished_at=[DateTime]::UtcNow.ToString('o')}\nexit 124\n}\nStart-Sleep -Milliseconds 200\n}\n$ErrorActionPreference='Continue'\n$pwsh=Join-Path $PSHOME 'pwsh.exe'\n& $pwsh -NoLogo -NoProfile -NonInteractive -EncodedCommand "@,
{
    reveal_strlit(";status='failed';exit_code=124;finished_at=[DateTime]::UtcNow.ToString('o')}\nexit 124\n}\nStart-Sleep -Milliseconds 200\n}\n$ErrorActionPreference='Continue'\n$pwsh=Join-Path $PSHOME 'pwsh.exe'\n& $pwsh -NoLogo -NoProfile -NonInteractive -EncodedCommand ");
    reveal_strlit(";status='");
    reveal_strlit("failed");
    reveal_strlit("';exit_code=124;");
    reveal_strlit("finished_at=[DateTime]::UtcNow.ToString('o')}\nexit 124\n}\nStart-Sleep -Milliseconds 200\n}\n$ErrorActionPreference='Continue'\n$pwsh=Join-Path $PSHOME 'pwsh.exe'\n& $pwsh -NoLogo -NoProfile -NonInteractive -EncodedCommand ");
    assert(";status='failed';exit_code=124;finished_at=[DateTime]::UtcNow.ToString('o')}\nexit 124\n}\nStart-Sleep -Milliseconds 200\n}\n$ErrorActionPreference='Continue'\n$pwsh=Join-Path $PSHOME 'pwsh.exe'\n& $pwsh -NoLogo -NoProfile -NonInteractive -EncodedCommand "@
        =~= ";status='"@ + "failed"@ + "';exit_code=124;"@
        + "finished_at=[DateTime]::UtcNow.ToString('o')}\nexit 124\n}\nStart-Sleep -Milliseconds 200\n}\n$ErrorActionPreference='Continue'\n$pwsh=Join-Path $PSHOME 'pwsh.exe'\n& $pwsh -NoLogo -NoProfile -NonInteractive -EncodedCommand "@);
}

// ---------------------------------------------------------------------------
// The attempt that is looked at
// ---------------------------------------------------------------------------

/// What is looked at is the attempt that the run names, as the ledger has it.
pub proof fn looked_at_attempt_is_the_runs(s: StoreView, run: RunRecordView)
    ensures
        local_process::observed_attempt(s, run) is Ok <==> run.attempt_no is Some && s.attempt(
            run.run_id,
            run.attempt_no->0,
        ) is Some,
        local_process::observed_attempt(s, run) matches Ok(attempt) ==> attempt.run_id
            == run.run_id && Some(attempt.attempt_no) == run.attempt_no && Some(attempt)
            == s.attempt(run.run_id, attempt.attempt_no),
{
    if let Some(number) = run.attempt_no {
        if s.attempt(run.run_id, number) is Some {
            seqs::lemma_present(s.attempts, store::by_attempt(run.run_id, number));
        }
    }
}

} // verus!
