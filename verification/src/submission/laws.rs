//! What a submission leaves on its host and in the ledger.
use crate::encoding;
use crate::probe;
use crate::seqs;
use crate::store::laws;
use crate::store::StoreView;
use crate::submission;
use crate::submission::{ExecOutputView, ExecResultView, SubmissionPlanView, TransportErrorView};
use crate::text;
use crate::time::Timestamp;
use crate::types::{
    RunAttemptRecordView, RunRecordView, RunStatus, RunnerKind, SubmitRunSpecView,
};
use vstd::prelude::*;
use vstd::utf8::*;

verus! {

// ---------------------------------------------------------------------------
// The script
// ---------------------------------------------------------------------------

/// Whether the reader of the files of runs' ends takes a document with this word
/// as its status for this end.
pub open spec fn read_as(word: Seq<char>, status: RunStatus) -> bool {
    &&& probe::terminal_word(word) == Some(status)
    &&& forall|document: Seq<char>|
        #[trigger] probe::json_text_member(document, "status"@) == Some(word) && text::has_prefix(
            document,
            "{"@,
        ) && text::trimmed(document) == document && word.len() < document.len()
            ==> probe::terminal_status(document) == Some(status)
}

pub proof fn lemma_words_read()
    ensures
        read_as("succeeded"@, RunStatus::Succeeded),
        read_as("failed"@, RunStatus::Failed),
{
    reveal_strlit("succeeded");
    reveal_strlit("failed");
    reveal_strlit("{");
    assert(text::ascii_lower("succeeded"@) =~= "succeeded"@);
    assert(text::ascii_lower("failed"@) =~= "failed"@);
    probe::laws::lemma_plain_end("succeeded"@);
    probe::laws::lemma_plain_end("failed"@);
    probe::laws::terminal_words("succeeded"@);
    probe::laws::terminal_words("failed"@);
}

/// The script runs the command in its directory and, whatever it gave, writes
/// down its end: behind the command stands a branch on the exit code. The word
/// for the code zero is one that the reader of these files takes for a success,
/// and the word for every other code is one that it takes for a failure.
#[verifier::spinoff_prover]
#[verifier::rlimit(40)]
pub proof fn script_tells_the_end(plan: SubmissionPlanView)
    ensures
        exists|good: Seq<char>, bad: Seq<char>|
            {
                &&& read_as(good, RunStatus::Succeeded)
                &&& read_as(bad, RunStatus::Failed)
                &&& #[trigger] branches_on_exit(submission::wrapper_of(plan), plan, good, bad)
            },
{
    lemma_words_read();
    let lit = "\n)\nrc=$?\nif [ \"$rc\" -eq 0 ]; then status=succeeded; else status=failed; fi\nfinished=$(date -u +'%Y-%m-%dT%H:%M:%SZ')\nterminal="@;
    let head = "\n)\nrc=$?\nif [ \"$rc\" -eq 0 ]; then status="@;
    let tail = "finished=$(date -u +'%Y-%m-%dT%H:%M:%SZ')\nterminal="@;
    let branch = head + "succeeded"@ + "; else status="@ + "failed"@ + "; fi\n"@;
    assert(lit == branch + tail) by {
        reveal_strlit("\n)\nrc=$?\nif [ \"$rc\" -eq 0 ]; then status=succeeded; else status=failed; fi\nfinished=$(date -u +'%Y-%m-%dT%H:%M:%SZ')\nterminal=");
        reveal_strlit("\n)\nrc=$?\nif [ \"$rc\" -eq 0 ]; then status=");
        reveal_strlit("succeeded");
        reveal_strlit("failed");
        reveal_strlit("; else status=");
        reveal_strlit("; fi\n");
        reveal_strlit("finished=$(date -u +'%Y-%m-%dT%H:%M:%SZ')\nterminal=");
        assert(lit =~= branch + tail);
    }
    let start = "#!/usr/bin/env bash\nset +e\ncd -- "@ + text::shell_word(plan.spec.workspace.cwd)
        + " || exit 111\n(\n"@ + plan.spec.command;
    let script = submission::wrapper_of(plan);
    assert(text::has_prefix(script, start + branch)) by {
        let whole = start + branch;
        assert(script.take(whole.len() as int) =~= whole);
    }
    assert(start + branch =~= "#!/usr/bin/env bash\nset +e\ncd -- "@ + text::shell_word(
        plan.spec.workspace.cwd,
    ) + " || exit 111\n(\n"@ + plan.spec.command
        + "\n)\nrc=$?\nif [ \"$rc\" -eq 0 ]; then status="@ + "succeeded"@ + "; else status="@
        + "failed"@ + "; fi\n"@);
    assert(branches_on_exit(script, plan, "succeeded"@, "failed"@));
}

/// Whether the script runs the command of the plan in its directory and then
/// takes one of two words by the exit code of the command.
pub open spec fn branches_on_exit(
    script: Seq<char>,
    plan: SubmissionPlanView,
    good: Seq<char>,
    bad: Seq<char>,
) -> bool {
    text::has_prefix(
        script,
        "#!/usr/bin/env bash\nset +e\ncd -- "@ + text::shell_word(plan.spec.workspace.cwd)
            + " || exit 111\n(\n"@ + plan.spec.command
            + "\n)\nrc=$?\nif [ \"$rc\" -eq 0 ]; then status="@ + good + "; else status="@ + bad
            + "; fi\n"@,
    )
}

/// The script writes the end of the run, under the name of the run and the
/// number of the attempt, to the file that the ledger has for it: first beside
/// it and then whole, and it leaves with the exit code of the command.
#[verifier::spinoff_prover]
#[verifier::rlimit(40)]
pub proof fn script_leaves_its_end(plan: SubmissionPlanView)
    ensures
        text::has_part(
            submission::wrapper_of(plan),
            text::shell_word(plan.terminal_path)
                + "\ntmp=\"${terminal}.tmp.$$\"\nprintf '{\"schema_version\":1,\"run_id\":\""@
                + plan.spec.run_id + "\",\"attempt_no\":"@ + text::decimal(plan.attempt_no as nat)
                + ",\"status\":\"%s\",\"exit_code\":%d,\"finished_at\":\"%s\"}\\n' \"$status\" \"$rc\" \"$finished\" > \"$tmp\"\nmv -f -- \"$tmp\" \"$terminal\"\nexit \"$rc\"\n"@,
        ),
{
    let head = "#!/usr/bin/env bash\nset +e\ncd -- "@ + text::shell_word(plan.spec.workspace.cwd)
        + " || exit 111\n(\n"@ + plan.spec.command
        + "\n)\nrc=$?\nif [ \"$rc\" -eq 0 ]; then status=succeeded; else status=failed; fi\nfinished=$(date -u +'%Y-%m-%dT%H:%M:%SZ')\nterminal="@;
    let end = text::shell_word(plan.terminal_path)
        + "\ntmp=\"${terminal}.tmp.$$\"\nprintf '{\"schema_version\":1,\"run_id\":\""@
        + plan.spec.run_id + "\",\"attempt_no\":"@ + text::decimal(plan.attempt_no as nat)
        + ",\"status\":\"%s\",\"exit_code\":%d,\"finished_at\":\"%s\"}\\n' \"$status\" \"$rc\" \"$finished\" > \"$tmp\"\nmv -f -- \"$tmp\" \"$terminal\"\nexit \"$rc\"\n"@;
    assert(submission::wrapper_of(plan) =~= head + end + Seq::<char>::empty());
    text::lemma_part_within(head, end, Seq::empty());
}

/// What is put on the host is the script, under the path from which the
/// scheduler is told to start it.
pub proof fn script_is_what_is_started(plan: SubmissionPlanView)
    ensures
        text::has_part(
            submission::deploy_of(plan),
            " && printf '%s' "@ + text::shell_word(
                encoding::base64_text(encode_utf8(submission::wrapper_of(plan))),
            ) + " | base64 -d > "@ + text::shell_word(plan.script_path) + " && chmod 700 -- "@
                + text::shell_word(plan.script_path),
        ),
        submission::slurm_args(plan).last() == text::shell_word(plan.script_path),
        submission::lsf_submit_of(plan) matches Ok(submit) ==> exists|order: Seq<char>|
            submit == #[trigger] (order + " < "@ + text::shell_word(plan.script_path)),
{
    let head = "umask 077 && mkdir -p -- "@ + text::shell_word(plan.run_dir);
    let part = " && printf '%s' "@ + text::shell_word(
        encoding::base64_text(encode_utf8(submission::wrapper_of(plan))),
    ) + " | base64 -d > "@ + text::shell_word(plan.script_path) + " && chmod 700 -- "@
        + text::shell_word(plan.script_path);
    assert(submission::deploy_of(plan) =~= head + part + Seq::<char>::empty());
    text::lemma_part_within(head, part, Seq::empty());
}

// ---------------------------------------------------------------------------
// What the scheduler is asked for
// ---------------------------------------------------------------------------

/// An option with its value, where there is one.
pub open spec fn option_text(flag: Seq<char>, value: Option<Seq<char>>) -> Seq<char> {
    match value {
        Some(value) => flag + text::shell_word(value),
        None => Seq::empty(),
    }
}

/// An option with its number, where there is one.
pub open spec fn count_text(flag: Seq<char>, count: Option<u32>) -> Seq<char> {
    match count {
        Some(count) => flag + text::decimal(count as nat),
        None => Seq::empty(),
    }
}

proof fn lemma_joined_option(args: Seq<Seq<char>>, flag: Seq<char>, value: Option<Seq<char>>)
    requires
        args.len() > 0,
    ensures
        text::joined(args + submission::option_args(flag, value), " "@) == text::joined(args, " "@)
            + option_text(" "@ + flag + " "@, value),
{
    if let Some(value) = value {
        let word = text::shell_word(value);
        assert(args + seq![flag, word] =~= args.push(flag).push(word));
        text::lemma_joined_push(args, flag, " "@);
        text::lemma_joined_push(args.push(flag), word, " "@);
        assert(text::joined(args, " "@) + " "@ + flag + " "@ + word =~= text::joined(args, " "@) + (
        " "@ + flag + " "@ + word));
    } else {
        assert(args + Seq::<Seq<char>>::empty() =~= args);
        assert(text::joined(args, " "@) + Seq::<char>::empty() =~= text::joined(args, " "@));
    }
}

proof fn lemma_joined_count(args: Seq<Seq<char>>, flag: Seq<char>, count: Option<u32>)
    requires
        args.len() > 0,
    ensures
        text::joined(args + submission::count_arg(flag, count), " "@) == text::joined(args, " "@)
            + count_text(" "@ + flag, count),
{
    if let Some(count) = count {
        let word = flag + text::decimal(count as nat);
        assert(args + seq![word] =~= args.push(word));
        text::lemma_joined_push(args, word, " "@);
        assert(text::joined(args, " "@) + " "@ + word =~= text::joined(args, " "@) + (" "@ + flag
            + text::decimal(count as nat)));
    } else {
        assert(args + Seq::<Seq<char>>::empty() =~= args);
        assert(text::joined(args, " "@) + Seq::<char>::empty() =~= text::joined(args, " "@));
    }
}

proof fn lemma_joined_memory(args: Seq<Seq<char>>, mem: Option<Seq<char>>)
    requires
        args.len() > 0,
    ensures
        text::joined(args + submission::memory_arg(mem), " "@) == text::joined(args, " "@)
            + option_text(" --mem="@, mem),
{
    reveal_strlit(" --mem=");
    reveal_strlit("--mem=");
    reveal_strlit(" ");
    assert(" --mem="@ =~= " "@ + "--mem="@);
    if let Some(mem) = mem {
        let word = "--mem="@ + text::shell_word(mem);
        assert(args + seq![word] =~= args.push(word));
        text::lemma_joined_push(args, word, " "@);
        assert(text::joined(args, " "@) + " "@ + word =~= text::joined(args, " "@) + (" --mem="@
            + text::shell_word(mem)));
    } else {
        assert(args + Seq::<Seq<char>>::empty() =~= args);
        assert(text::joined(args, " "@) + Seq::<char>::empty() =~= text::joined(args, " "@));
    }
}

/// Slurm is asked for the resources of the run and for no others: the time, the
/// partition, the account, the processors, the memory and the accelerators, each
/// under its own option and only where the run names it. The job has the name,
/// the directory and the two logs that the ledger has for it, and is the script.
#[verifier::spinoff_prover]
#[verifier::rlimit(40)]
pub proof fn slurm_is_asked_for_the_resources(plan: SubmissionPlanView)
    ensures
        ({
            let resources = plan.spec.resources;
            &&& submission::slurm_submit_of(plan) is Err <==> resources.queue is Some
            &&& submission::slurm_submit_of(plan) matches Ok(submit) ==> submit
                == "sbatch --parsable --job-name "@ + text::shell_word(plan.job_name)
                + " --chdir "@ + text::shell_word(plan.spec.workspace.cwd) + " --output "@
                + text::shell_word(plan.stdout_path) + " --error "@ + text::shell_word(
                plan.stderr_path,
            ) + option_text(" --time "@, resources.time) + option_text(
                " --partition "@,
                resources.partition,
            ) + option_text(" --account "@, resources.account) + count_text(
                " --cpus-per-task="@,
                resources.cpus,
            ) + option_text(" --mem="@, resources.mem) + count_text(" --gpus="@, resources.gpus)
                + " "@ + text::shell_word(plan.script_path)
        }),
{
    let resources = plan.spec.resources;
    let a = submission::slurm_job_args(plan);
    let b = a + submission::option_args("--time"@, resources.time);
    let c = b + submission::option_args("--partition"@, resources.partition);
    let d = c + submission::option_args("--account"@, resources.account);
    let e = d + submission::count_arg("--cpus-per-task="@, resources.cpus);
    let f = e + submission::memory_arg(resources.mem);
    let g = f + submission::count_arg("--gpus="@, resources.gpus);
    lemma_slurm_head(plan);
    lemma_joined_option(a, "--time"@, resources.time);
    lemma_joined_option(b, "--partition"@, resources.partition);
    lemma_joined_option(c, "--account"@, resources.account);
    lemma_joined_count(d, "--cpus-per-task="@, resources.cpus);
    lemma_joined_memory(e, resources.mem);
    lemma_joined_count(f, "--gpus="@, resources.gpus);
    assert(submission::slurm_args(plan) =~= g.push(text::shell_word(plan.script_path)));
    text::lemma_joined_push(g, text::shell_word(plan.script_path), " "@);
    lemma_spaced_flags();
}

#[verifier::spinoff_prover]
#[verifier::rlimit(40)]
proof fn lemma_spaced_flags()
    ensures
        " --time "@ == " "@ + "--time"@ + " "@,
        " --partition "@ == " "@ + "--partition"@ + " "@,
        " --account "@ == " "@ + "--account"@ + " "@,
        " --cpus-per-task="@ == " "@ + "--cpus-per-task="@,
        " --gpus="@ == " "@ + "--gpus="@,
        " -W "@ == " "@ + "-W"@ + " "@,
        " -q "@ == " "@ + "-q"@ + " "@,
        " -P "@ == " "@ + "-P"@ + " "@,
        " -M "@ == " "@ + "-M"@ + " "@,
        " -n "@ == " "@ + "-n"@ + " "@,
        " -gpu "@ == " "@ + "-gpu"@ + " "@,
{
    reveal_strlit(" ");
    reveal_strlit("--time");
    reveal_strlit(" --time ");
    reveal_strlit("--partition");
    reveal_strlit(" --partition ");
    reveal_strlit("--account");
    reveal_strlit(" --account ");
    reveal_strlit("--cpus-per-task=");
    reveal_strlit(" --cpus-per-task=");
    reveal_strlit("--gpus=");
    reveal_strlit(" --gpus=");
    reveal_strlit("-W");
    reveal_strlit(" -W ");
    reveal_strlit("-q");
    reveal_strlit(" -q ");
    reveal_strlit("-P");
    reveal_strlit(" -P ");
    reveal_strlit("-M");
    reveal_strlit(" -M ");
    reveal_strlit("-n");
    reveal_strlit(" -n ");
    reveal_strlit("-gpu");
    reveal_strlit(" -gpu ");
    assert(" --time "@ =~= " "@ + "--time"@ + " "@);
    assert(" --partition "@ =~= " "@ + "--partition"@ + " "@);
    assert(" --account "@ =~= " "@ + "--account"@ + " "@);
    assert(" --cpus-per-task="@ =~= " "@ + "--cpus-per-task="@);
    assert(" --gpus="@ =~= " "@ + "--gpus="@);
    assert(" -W "@ =~= " "@ + "-W"@ + " "@);
    assert(" -q "@ =~= " "@ + "-q"@ + " "@);
    assert(" -P "@ =~= " "@ + "-P"@ + " "@);
    assert(" -M "@ =~= " "@ + "-M"@ + " "@);
    assert(" -n "@ =~= " "@ + "-n"@ + " "@);
    assert(" -gpu "@ =~= " "@ + "-gpu"@ + " "@);
}

proof fn lemma_slurm_words()
    ensures
        "sbatch --parsable --job-name "@ == "sbatch"@ + " "@ + "--parsable"@ + " "@ + "--job-name"@
            + " "@,
        " --chdir "@ == " "@ + "--chdir"@ + " "@,
        " --output "@ == " "@ + "--output"@ + " "@,
        " --error "@ == " "@ + "--error"@ + " "@,
{
    reveal_strlit(" ");
    assert("sbatch --parsable --job-name "@ == "sbatch"@ + " "@ + "--parsable"@ + " "@
        + "--job-name"@ + " "@) by {
        reveal_strlit("sbatch");
        reveal_strlit("--parsable");
        reveal_strlit("--job-name");
        reveal_strlit("sbatch --parsable --job-name ");
        assert("sbatch --parsable --job-name "@ =~= "sbatch"@ + " "@ + "--parsable"@ + " "@
            + "--job-name"@ + " "@);
    }
    reveal_strlit("--chdir");
    reveal_strlit(" --chdir ");
    reveal_strlit("--output");
    reveal_strlit(" --output ");
    reveal_strlit("--error");
    reveal_strlit(" --error ");
    assert(" --chdir "@ =~= " "@ + "--chdir"@ + " "@);
    assert(" --output "@ =~= " "@ + "--output"@ + " "@);
    assert(" --error "@ =~= " "@ + "--error"@ + " "@);
}

#[verifier::spinoff_prover]
#[verifier::rlimit(40)]
proof fn lemma_slurm_head(plan: SubmissionPlanView)
    ensures
        text::joined(submission::slurm_job_args(plan), " "@) == "sbatch --parsable --job-name "@
            + text::shell_word(plan.job_name) + " --chdir "@ + text::shell_word(
            plan.spec.workspace.cwd,
        ) + " --output "@ + text::shell_word(plan.stdout_path) + " --error "@ + text::shell_word(
            plan.stderr_path,
        ),
{
    let args = submission::slurm_job_args(plan);
    let first = seq![args[0]];
    let a1 = first.push(args[1]);
    let a2 = a1.push(args[2]);
    let a3 = a2.push(args[3]);
    let a4 = a3.push(args[4]);
    let a5 = a4.push(args[5]);
    let a6 = a5.push(args[6]);
    let a7 = a6.push(args[7]);
    let a8 = a7.push(args[8]);
    let a9 = a8.push(args[9]);
    assert(args =~= a9);
    assert(text::joined(first, " "@) == args[0]);
    text::lemma_joined_push(first, args[1], " "@);
    text::lemma_joined_push(a1, args[2], " "@);
    text::lemma_joined_push(a2, args[3], " "@);
    text::lemma_joined_push(a3, args[4], " "@);
    text::lemma_joined_push(a4, args[5], " "@);
    text::lemma_joined_push(a5, args[6], " "@);
    text::lemma_joined_push(a6, args[7], " "@);
    text::lemma_joined_push(a7, args[8], " "@);
    text::lemma_joined_push(a8, args[9], " "@);
    lemma_slurm_words();
    let name = text::shell_word(plan.job_name);
    let cwd = text::shell_word(plan.spec.workspace.cwd);
    let out = text::shell_word(plan.stdout_path);
    let err = text::shell_word(plan.stderr_path);
    assert(text::joined(args, " "@) =~= "sbatch"@ + " "@ + "--parsable"@ + " "@ + "--job-name"@
        + " "@ + name + (" "@ + "--chdir"@ + " "@) + cwd + (" "@ + "--output"@ + " "@) + out + (" "@
        + "--error"@ + " "@) + err);
}

/// LSF is asked for the resources of the run and for no others: the time, the
/// queue, the project, the processors, the memory and the accelerators, each
/// under its own option and only where the run names it. The job has the name
/// and the two logs that the ledger has for it, and is the script.
#[verifier::spinoff_prover]
#[verifier::rlimit(40)]
pub proof fn lsf_is_asked_for_the_resources(plan: SubmissionPlanView)
    ensures
        ({
            let resources = plan.spec.resources;
            let gpus = match resources.gpus {
                Some(gpus) => Some("num="@ + text::decimal(gpus as nat)),
                None => None,
            };
            &&& submission::lsf_submit_of(plan) is Err <==> resources.partition is Some
            &&& submission::lsf_submit_of(plan) matches Ok(submit) ==> submit == "bsub -J "@
                + text::shell_word(plan.job_name) + " -oo "@ + text::shell_word(plan.stdout_path)
                + " -eo "@ + text::shell_word(plan.stderr_path) + option_text(
                " -W "@,
                resources.time,
            ) + option_text(" -q "@, resources.queue) + option_text(" -P "@, resources.account)
                + count_text(" -n "@, resources.cpus) + option_text(" -M "@, resources.mem)
                + option_text(" -gpu "@, gpus) + " < "@ + text::shell_word(plan.script_path)
        }),
{
    let resources = plan.spec.resources;
    let gpus = match resources.gpus {
        Some(gpus) => Some("num="@ + text::decimal(gpus as nat)),
        None => None,
    };
    let a = submission::lsf_job_args(plan);
    let b = a + submission::option_args("-W"@, resources.time);
    let c = b + submission::option_args("-q"@, resources.queue);
    let d = c + submission::option_args("-P"@, resources.account);
    let e = d + submission::cpu_args(resources.cpus);
    let f = e + submission::option_args("-M"@, resources.mem);
    lemma_lsf_head(plan);
    lemma_joined_option(a, "-W"@, resources.time);
    lemma_joined_option(b, "-q"@, resources.queue);
    lemma_joined_option(c, "-P"@, resources.account);
    lemma_joined_cpus(d, resources.cpus);
    lemma_joined_option(e, "-M"@, resources.mem);
    lemma_joined_option(f, "-gpu"@, gpus);
    assert(submission::gpu_args(resources.gpus) =~= submission::option_args("-gpu"@, gpus));
    lemma_spaced_flags();
}

proof fn lemma_joined_cpus(args: Seq<Seq<char>>, cpus: Option<u32>)
    requires
        args.len() > 0,
    ensures
        text::joined(args + submission::cpu_args(cpus), " "@) == text::joined(args, " "@)
            + count_text(" -n "@, cpus),
{
    lemma_spaced_flags();
    if let Some(cpus) = cpus {
        let word = text::decimal(cpus as nat);
        assert(args + seq!["-n"@, word] =~= args.push("-n"@).push(word));
        text::lemma_joined_push(args, "-n"@, " "@);
        text::lemma_joined_push(args.push("-n"@), word, " "@);
        assert(text::joined(args, " "@) + " "@ + "-n"@ + " "@ + word =~= text::joined(args, " "@) + (
        " "@ + "-n"@ + " "@ + word));
    } else {
        assert(args + Seq::<Seq<char>>::empty() =~= args);
        assert(text::joined(args, " "@) + Seq::<char>::empty() =~= text::joined(args, " "@));
    }
}

#[verifier::spinoff_prover]
#[verifier::rlimit(40)]
proof fn lemma_lsf_head(plan: SubmissionPlanView)
    ensures
        text::joined(submission::lsf_job_args(plan), " "@) == "bsub -J "@ + text::shell_word(
            plan.job_name,
        ) + " -oo "@ + text::shell_word(plan.stdout_path) + " -eo "@ + text::shell_word(
            plan.stderr_path,
        ),
{
    let args = submission::lsf_job_args(plan);
    let first = seq![args[0]];
    let a1 = first.push(args[1]);
    let a2 = a1.push(args[2]);
    let a3 = a2.push(args[3]);
    let a4 = a3.push(args[4]);
    let a5 = a4.push(args[5]);
    let a6 = a5.push(args[6]);
    assert(args =~= a6);
    assert(text::joined(first, " "@) == args[0]);
    text::lemma_joined_push(first, args[1], " "@);
    text::lemma_joined_push(a1, args[2], " "@);
    text::lemma_joined_push(a2, args[3], " "@);
    text::lemma_joined_push(a3, args[4], " "@);
    text::lemma_joined_push(a4, args[5], " "@);
    text::lemma_joined_push(a5, args[6], " "@);
    assert("bsub -J "@ == "bsub"@ + " "@ + "-J"@ + " "@ && " -oo "@ == " "@ + "-oo"@ + " "@
        && " -eo "@ == " "@ + "-eo"@ + " "@) by {
        reveal_strlit(" ");
        reveal_strlit("bsub");
        reveal_strlit("-J");
        reveal_strlit("bsub -J ");
        reveal_strlit("-oo");
        reveal_strlit(" -oo ");
        reveal_strlit("-eo");
        reveal_strlit(" -eo ");
        assert("bsub -J "@ =~= "bsub"@ + " "@ + "-J"@ + " "@);
        assert(" -oo "@ =~= " "@ + "-oo"@ + " "@);
        assert(" -eo "@ =~= " "@ + "-eo"@ + " "@);
    }
    let name = text::shell_word(plan.job_name);
    let out = text::shell_word(plan.stdout_path);
    let err = text::shell_word(plan.stderr_path);
    assert(text::joined(args, " "@) =~= "bsub"@ + " "@ + "-J"@ + " "@ + name + (" "@ + "-oo"@ + " "@)
        + out + (" "@ + "-eo"@ + " "@) + err);
}

/// A job is started only where no receipt says that it was: the command looks
/// for the receipt of the run before anything else, and where it is there prints
/// its first line and leaves. The number of a job that was started is written to
/// that receipt before it is printed.
#[verifier::spinoff_prover]
#[verifier::rlimit(40)]
pub proof fn receipt_guards_the_start(plan: SubmissionPlanView)
    ensures
        submission::submit_of(plan) matches Ok(command) ==> ({
            &&& text::has_prefix(
                command,
                "receipt="@ + text::shell_word(plan.receipt_path)
                    + "; if [ -s \"$receipt\" ]; then head -n 1 -- \"$receipt\"; exit 0; fi; out=$("@,
            )
            &&& plan.spec.runner == RunnerKind::Slurm ==> starts_once(
                command,
                plan,
                submission::slurm_submit_of(plan)->Ok_0,
            )
            &&& plan.spec.runner == RunnerKind::Lsf ==> starts_once(
                command,
                plan,
                submission::lsf_submit_of(plan)->Ok_0,
            )
        }),
        submission::submit_of(plan) is Ok ==> plan.spec.runner == RunnerKind::Slurm
            || plan.spec.runner == RunnerKind::Lsf,
{
    if let Ok(command) = submission::submit_of(plan) {
        let submit = match plan.spec.runner {
            RunnerKind::Slurm => submission::slurm_submit_of(plan)->Ok_0,
            _ => submission::lsf_submit_of(plan)->Ok_0,
        };
        let head = "receipt="@ + text::shell_word(plan.receipt_path)
            + "; if [ -s \"$receipt\" ]; then head -n 1 -- \"$receipt\"; exit 0; fi; out=$("@;
        assert(command.take(head.len() as int) =~= head);
        let parser = submission::job_parser(plan.spec.runner);
        assert(command == submission::guarded_submit(plan, submit));
        assert(command =~= head + submit
            + " 2>&1); rc=$?; if [ \"$rc\" -ne 0 ]; then printf '%s\\n' \"$out\" >&2; exit \"$rc\"; fi; "@
            + parser
            + "; case \"$job\" in ''|*[!0-9_]* ) printf 'invalid scheduler job id: %s\\n' \"$out\" >&2; exit 65;; esac; tmp=\"${receipt}.tmp.$$\"; printf '%s\\n' \"$job\" > \"$tmp\" && mv -f -- \"$tmp\" \"$receipt\"; printf '%s\\n' \"$job\""@);
    }
}

/// Whether the command starts the job where there is no receipt, gives up where
/// that fails or gives no number, and otherwise writes the receipt and prints the
/// number.
pub open spec fn starts_once(
    command: Seq<char>,
    plan: SubmissionPlanView,
    submit: Seq<char>,
) -> bool {
    exists|parser: Seq<char>|
        command == #[trigger] ("receipt="@ + text::shell_word(plan.receipt_path)
            + "; if [ -s \"$receipt\" ]; then head -n 1 -- \"$receipt\"; exit 0; fi; out=$("@ + submit
            + " 2>&1); rc=$?; if [ \"$rc\" -ne 0 ]; then printf '%s\\n' \"$out\" >&2; exit \"$rc\"; fi; "@
            + parser
            + "; case \"$job\" in ''|*[!0-9_]* ) printf 'invalid scheduler job id: %s\\n' \"$out\" >&2; exit 65;; esac; tmp=\"${receipt}.tmp.$$\"; printf '%s\\n' \"$job\" > \"$tmp\" && mv -f -- \"$tmp\" \"$receipt\"; printf '%s\\n' \"$job\""@)
}

/// How the number of a job is taken from what the scheduler printed: Slurm
/// prints it before the first semicolon, LSF as a number in angle brackets behind
/// the word Job.
pub proof fn job_is_parsed_by_its_scheduler(runner: RunnerKind)
    ensures
        runner == RunnerKind::Slurm ==> submission::job_parser(runner)
            == "job=${out%%;*}; job=${job%%$'\\n'*}"@,
        runner == RunnerKind::Lsf ==> submission::job_parser(runner)
            == "job=$(printf '%s\\n' \"$out\" | sed -n 's/.*Job <\\([0-9][0-9]*\\)>.*/\\1/p' | head -n 1)"@,
{
}

// ---------------------------------------------------------------------------
// The rows and the files of a run
// ---------------------------------------------------------------------------

/// A run and its first attempt are entered as they were asked for: under their
/// name, on their host, with their command, resources and directory, bound as was
/// said, and in submission. The file of the run's end is the one that the script
/// writes.
pub proof fn entered_run_is_the_one_asked_for(spec: SubmitRunSpecView, now: Timestamp)
    ensures
        ({
            let plan = submission::planned(spec);
            let run = submission::planned_run(plan, now);
            let attempt = submission::planned_attempt(plan, now);
            &&& plan.spec == spec
            &&& run.run_id == spec.run_id && attempt.run_id == spec.run_id
            &&& run.name == spec.name
            &&& run.host == spec.workspace.host_alias && attempt.host == spec.workspace.host_alias
            &&& run.runner == spec.runner && attempt.runner == spec.runner
            &&& run.workspace == Some(spec.workspace)
            &&& run.status == RunStatus::Submitting && attempt.status == RunStatus::Submitting
            &&& run.job_id is None && attempt.job_id is None
            &&& run.attempt_no == Some(1u32) && attempt.attempt_no == 1
            &&& run.note is None && attempt.error is None
            &&& run.updated_at == now && attempt.created_at == now && attempt.updated_at == now
            &&& attempt.workdir == spec.workspace.cwd
            &&& attempt.command == spec.command
            &&& attempt.resources == spec.resources
            &&& run.remote_terminal == Some(attempt.terminal_path)
            &&& attempt.script_path == plan.script_path
            &&& attempt.stdout_path == plan.stdout_path
            &&& attempt.stderr_path == plan.stderr_path
            &&& attempt.terminal_path == plan.terminal_path
            &&& attempt.receipt_path == plan.receipt_path
            &&& attempt.job_name == plan.job_name
            &&& spec.continuation matches Some(binding) ==> run.session_id == Some(
                binding.session_id,
            ) && run.agent == Some(binding.agent_kind) && run.project_root == Some(
                binding.project_root,
            )
            &&& spec.continuation is None ==> run.session_id is None && run.agent is None
                && run.project_root is None
        }),
{
}

/// All files of a run lie in a directory of its own below its working directory,
/// each under its own name.
pub proof fn files_lie_in_the_run_directory(spec: SubmitRunSpecView)
    ensures
        ({
            let plan = submission::planned(spec);
            let dir = text::trim_end_char(spec.workspace.cwd, '/') + "/.runwatch/"@ + spec.run_id;
            &&& plan.run_dir == dir
            &&& plan.script_path == dir + "/attempt-1.sh"@
            &&& plan.stdout_path == dir + "/stdout.log"@
            &&& plan.stderr_path == dir + "/stderr.log"@
            &&& plan.terminal_path == dir + "/terminal.json"@
            &&& plan.receipt_path == dir + "/submission.receipt"@
            &&& plan.stdout_path != plan.stderr_path
            &&& plan.stdout_path != plan.terminal_path
            &&& plan.stderr_path != plan.terminal_path
            &&& plan.receipt_path != plan.terminal_path
            &&& plan.script_path != plan.terminal_path
            &&& plan.receipt_path != plan.stdout_path
            &&& plan.receipt_path != plan.stderr_path
        }),
{
    let plan = submission::planned(spec);
    let at = plan.run_dir.len() as int + 1;
    reveal_strlit("/attempt-1.sh");
    reveal_strlit("/stdout.log");
    reveal_strlit("/stderr.log");
    reveal_strlit("/terminal.json");
    reveal_strlit("/submission.receipt");
    assert(plan.script_path[at] == 'a');
    assert(plan.stdout_path[at] == 's' && plan.stdout_path[at + 3] == 'o');
    assert(plan.stderr_path[at] == 's' && plan.stderr_path[at + 3] == 'e');
    assert(plan.terminal_path[at] == 't');
    assert(plan.receipt_path[at] == 's' && plan.receipt_path[at + 1] == 'u');
    assert(plan.stdout_path[at + 1] == 't' && plan.stderr_path[at + 1] == 't');
}

/// The name of a job is made of letters, digits and dashes alone, whatever the
/// run is called, and tells the attempt.
pub proof fn job_name_is_plain(run_id: Seq<char>, attempt_no: u32, i: int)
    ensures
        text::has_prefix(submission::job_name_of(run_id, attempt_no), "rw-"@),
        0 <= i < submission::job_name_of(run_id, attempt_no).len() ==> ({
            let ch = submission::job_name_of(run_id, attempt_no)[i];
            text::is_alphanumeric(ch) || ch == '-'
        }),
        submission::job_name_of(run_id, attempt_no).len() <= 3 + 48 + 2 + text::decimal(
            attempt_no as nat,
        ).len(),
        exists|head: Seq<char>|
            submission::job_name_of(run_id, attempt_no) == #[trigger] (head + text::decimal(
                attempt_no as nat,
            )),
{
    reveal_strlit("rw-");
    reveal_strlit("-a");
    let name = submission::job_name_of(run_id, attempt_no);
    let middle = text::first_chars(run_id, 48).map_values(|ch: char| submission::job_char(ch));
    let number = text::decimal(attempt_no as nat);
    text::lemma_decimal_digits(attempt_no as nat);
    assert(name.take(3) =~= "rw-"@);
    assert(name == ("rw-"@ + middle + "-a"@) + number);
    if 0 <= i < name.len() {
        if i < 3 {
            assert(name[i] == "rw-"@[i]);
        } else if i < 3 + middle.len() {
            assert(name[i] == middle[i - 3]);
        } else if i < 5 + middle.len() {
            assert(name[i] == "-a"@[i - 3 - middle.len()]);
        } else {
            assert(name[i] == number[i - 5 - middle.len()]);
            assert(text::is_digit(number[i - 5 - middle.len()]));
        }
    }
}

/// What a submission must keep to: each condition that is not met refuses it, and
/// nothing else does.
pub proof fn submission_is_checked(spec: SubmitRunSpecView)
    ensures
        submission::spec_refusal(spec) is None <==> ({
            &&& 0 < spec.run_id.len()
            &&& text::byte_len(spec.run_id) <= 96
            &&& forall|i: int|
                0 <= i < spec.run_id.len() ==> text::is_alphanumeric(#[trigger] spec.run_id[i])
                    || spec.run_id[i] == '_' || spec.run_id[i] == '-' || spec.run_id[i] == '.'
            &&& text::trimmed(spec.command).len() > 0
            &&& text::byte_len(spec.command) <= 65536
            &&& !spec.command.contains('\0')
            &&& text::trimmed(spec.workspace.host_alias).len() > 0
            &&& single_line(spec.workspace.host_alias)
            &&& text::has_prefix(spec.workspace.cwd, "/"@)
            &&& spec.workspace.cwd != "/"@
            &&& single_line(spec.workspace.cwd)
            &&& spec.runner == RunnerKind::Slurm || spec.runner == RunnerKind::Lsf
            &&& spec.continuation matches Some(binding) ==> ({
                &&& binding.agent_kind == "pi"@
                &&& text::trimmed(binding.session_id).len() > 0
                &&& single_line(binding.project_root)
                &&& binding.workspace == spec.workspace
                &&& binding.session_file matches Some(value) ==> single_line(value)
                &&& binding.origin_leaf_id matches Some(value) ==> single_line(value)
                &&& binding.adapter_path matches Some(value) ==> single_line(value) && value.len()
                    > 0
            })
            &&& wanted_line(spec.resources.time)
            &&& wanted_line(spec.resources.partition)
            &&& wanted_line(spec.resources.queue)
            &&& wanted_line(spec.resources.account)
            &&& wanted_line(spec.resources.mem)
            &&& spec.resources.cpus != Some(0u32)
            &&& spec.resources.gpus != Some(0u32)
        }),
{
    if submission::spec_refusal(spec) is None {
        assert forall|i: int| 0 <= i < spec.run_id.len() implies text::is_alphanumeric(
            #[trigger] spec.run_id[i],
        ) || spec.run_id[i] == '_' || spec.run_id[i] == '-' || spec.run_id[i] == '.' by {
            assert(submission::is_id_char(spec.run_id[i]));
        }
    }
}

/// Whether a text has neither a line break nor a NUL in it.
pub open spec fn single_line(value: Seq<char>) -> bool {
    !value.contains('\n') && !value.contains('\r') && !value.contains('\0')
}

/// Whether a text is one line that says something, where it is there at all.
pub open spec fn wanted_line(value: Option<Seq<char>>) -> bool {
    value matches Some(value) ==> single_line(value) && value.len() > 0
}

// ---------------------------------------------------------------------------
// What comes of a submission
// ---------------------------------------------------------------------------

/// The number of a job that a scheduler printed on a line of its own is the
/// number that is read.
pub proof fn printed_job_is_read(job: Seq<char>)
    requires
        job.len() > 0,
        forall|i: int|
            0 <= i < job.len() ==> text::is_digit(#[trigger] job[i]) || job[i] == '_' || job[i]
                == '.',
    ensures
        submission::job_id_of(job + "\n"@) == Ok::<Seq<char>, Seq<char>>(job),
{
    reveal_strlit("\n");
    assert("\n"@ =~= seq!['\n']);
    let whole = job + "\n"@;
    assert forall|j: int| 0 <= j < job.len() implies !text::is_char('\n')(#[trigger] whole[j]) by {
        assert(whole[j] == job[j]);
        assert(text::is_digit(job[j]) || job[j] == '_' || job[j] == '.');
    }
    assert(whole[job.len() as int] == '\n');
    seqs::lemma_until(whole, text::is_char('\n'), job.len());
    assert(whole.take(job.len() as int) =~= job);
    assert(job[job.len() - 1] != '\r') by {
        assert(text::is_digit(job[job.len() - 1]) || job[job.len() - 1] == '_' || job[job.len() - 1]
            == '.');
    }
    assert(text::without_return(job) == job);
    let rest = whole.skip((job.len() + 1) as int);
    assert(rest =~= Seq::<char>::empty());
    assert(text::lines_of(rest) =~= Seq::<Seq<char>>::empty());
    assert(text::lines_of(whole) =~= seq![job]);
    text::trimming_takes_only_white(job);
    let (before, after) = choose|before: Seq<char>, after: Seq<char>|
        job == #[trigger] (before + text::trimmed(job) + after) && text::all_white(before)
            && text::all_white(after);
    if before.len() > 0 {
        assert(job[0] == before[0]);
        assert(text::is_digit(job[0]) || job[0] == '_' || job[0] == '.');
    }
    if after.len() > 0 {
        assert(job[job.len() - 1] == after[after.len() - 1]);
    }
    assert(before + text::trimmed(job) + after =~= text::trimmed(job));
    assert(text::trimmed(job) == job);
    seqs::lemma_until(seq![job], submission::filled_line(), 0);
}

/// What is read as the number of a job is made of digits, underscores and dots.
pub proof fn read_job_is_a_number(stdout: Seq<char>, i: int)
    ensures
        submission::job_id_of(stdout) matches Ok(job) ==> job.len() > 0 && (0 <= i < job.len()
            ==> text::is_digit(job[i]) || job[i] == '_' || job[i] == '.'),
{
    if let Ok(job) = submission::job_id_of(stdout) {
        if 0 <= i < job.len() {
            assert(submission::is_job_char(job[i]));
        }
    }
}

/// What the scheduler answered is what the ledger has: an accepted run is queued
/// under the number of its job; a refused one has failed and says why; one whose
/// answer was lost or cannot be read is neither queued nor failed, and is still
/// what it was.
pub proof fn answer_is_recorded(
    s: StoreView,
    run: RunRecordView,
    attempt: RunAttemptRecordView,
    output: ExecOutputView,
    error: TransportErrorView,
    now: Timestamp,
)
    requires
        attempt.run_id == run.run_id,
    ensures
        ({
            let t = submission::answered(s, run, attempt, ExecResultView::Output(output), now);
            let job = submission::job_id_of(output.stdout);
            &&& output.code == Some(0u32) && job is Ok ==> ({
                &&& t.run(run.run_id) matches Some(after) && after.status == RunStatus::Queued
                    && after.job_id == Some(job->Ok_0) && after.note is None
                &&& t.attempt(run.run_id, attempt.attempt_no) matches Some(after) && after.status
                    == RunStatus::Queued && after.job_id == Some(job->Ok_0) && after.error is None
                &&& t.events.last().kind == "scheduler_submitted"@
            })
            &&& output.code == Some(0u32) && job is Err ==> t == s
            &&& output.code != Some(0u32) ==> ({
                &&& t.run(run.run_id) matches Some(after) && after.status == RunStatus::Failed
                    && after.job_id == run.job_id && after.note is Some
                &&& t.attempt(run.run_id, attempt.attempt_no) matches Some(after) && after.status
                    == RunStatus::Failed && after.job_id == attempt.job_id && after.error is Some
                &&& t.events.last().kind == "submission_failed"@
            })
        }),
        ({
            let t = submission::answered(s, run, attempt, ExecResultView::Failure(error), now);
            &&& t.run(run.run_id) matches Some(after) && after.status == run.status && after.job_id
                == run.job_id && after.note is Some
            &&& t.attempt(run.run_id, attempt.attempt_no) matches Some(after) && after.status
                == attempt.status && after.job_id == attempt.job_id && after.error is Some
            &&& t.events.last().kind == "submission_ambiguous"@
        }),
{
    let job = submission::job_id_of(output.stdout);
    if output.code == Some(0u32) {
        if let Ok(job) = job {
            lemma_recorded(
                s,
                submission::accepted_run(run, job, RunStatus::Queued, now),
                submission::accepted_attempt(attempt, job, RunStatus::Queued, now),
                "scheduler_submitted"@,
            );
        }
    } else {
        let message = submission::exit_report("scheduler submit failed"@, output);
        lemma_recorded(
            s,
            submission::failed_run(run, message, now),
            submission::failed_attempt(attempt, message, now),
            "submission_failed"@,
        );
    }
    let message = "ambiguous scheduler submission transport failure: "@ + error.full;
    lemma_recorded(
        s,
        RunRecordView { updated_at: now, note: Some(message), ..run },
        RunAttemptRecordView { updated_at: now, error: Some(message), ..attempt },
        "submission_ambiguous"@,
    );
}

/// A run and an attempt that were recorded are read back.
pub proof fn lemma_recorded(
    s: StoreView,
    run: RunRecordView,
    attempt: RunAttemptRecordView,
    kind: Seq<char>,
)
    ensures
        ({
            let t = crate::store::runs::recorded(s, run, attempt, kind);
            &&& t.run(run.run_id) == Some(run)
            &&& t.attempt(attempt.run_id, attempt.attempt_no) == Some(attempt)
            &&& t.events.len() == s.events.len() + 1
            &&& t.events.last().kind == kind
            &&& t.events.last().run_id == run.run_id
            &&& t.events.last().at == run.updated_at
        }),
{
    laws::stored_run_is_read_back(s, run, run.run_id);
    laws::stored_attempt_is_read_back(s.with_run(run), attempt, attempt.run_id, attempt.attempt_no);
    let t = crate::store::runs::recorded(s, run, attempt, kind);
    assert(t.runs == s.with_run(run).runs);
    assert(t.attempts == s.with_run(run).with_attempt(attempt).attempts);
}

/// A script that could not be put on the host ends the submission: the run and
/// its attempt have failed and say why. Where it could be put there, nothing
/// changes yet.
pub proof fn deployment_is_recorded(
    s: StoreView,
    run: RunRecordView,
    attempt: RunAttemptRecordView,
    result: ExecResultView,
    now: Timestamp,
)
    requires
        attempt.run_id == run.run_id,
    ensures
        submission::deploy_failure(result) is None <==> (match result {
            ExecResultView::Output(output) => output.code == Some(0u32),
            ExecResultView::Failure(_) => false,
        }),
        submission::deploy_failure(result) matches Some(message) ==> ({
            let t = submission::given_up(s, run, attempt, message, "submission_failed"@, now);
            &&& t.run(run.run_id) matches Some(after) && after.status == RunStatus::Failed
                && after.note == Some(message)
            &&& t.attempt(run.run_id, attempt.attempt_no) matches Some(after) && after.status
                == RunStatus::Failed && after.error == Some(message)
        }),
{
    if let Some(message) = submission::deploy_failure(result) {
        lemma_recorded(
            s,
            submission::failed_run(run, message, now),
            submission::failed_attempt(attempt, message, now),
            "submission_failed"@,
        );
    }
}

/// Two attempts are the same request where they agree in everything that is
/// asked of the scheduler, and only there.
pub proof fn same_request_asks_the_same(a: RunAttemptRecordView, b: RunAttemptRecordView)
    ensures
        submission::same_request(a, b) <==> a.attempt_no == b.attempt_no && a.runner == b.runner
            && a.host == b.host && a.workdir == b.workdir && a.command == b.command && a.resources
            == b.resources && a.job_name == b.job_name,
{
}

/// A submission under a name that is taken goes on with what is there where it
/// asks for the same, and is refused where it asks for something else. It is done
/// where the job was accepted or is no longer in submission; otherwise it goes on.
pub proof fn repeated_submission_goes_on(
    s: StoreView,
    plan: SubmissionPlanView,
    current: RunRecordView,
    existing: RunAttemptRecordView,
    now: Timestamp,
)
    requires
        s.run(plan.spec.run_id) == Some(current),
        s.attempt(plan.spec.run_id, plan.attempt_no) == Some(existing),
    ensures
        ({
            let wanted = submission::planned_attempt(plan, now);
            let start = submission::start_of(s, plan, now);
            let same = submission::same_request(existing, wanted);
            let done = existing.job_id is Some || current.status != RunStatus::Submitting;
            &&& !same ==> start is Err
            &&& same && done ==> start == Ok::<
                (RunRecordView, Option<RunAttemptRecordView>),
                Seq<char>,
            >((current, None))
            &&& same && !done ==> start == Ok::<
                (RunRecordView, Option<RunAttemptRecordView>),
                Seq<char>,
            >((current, Some(existing)))
        }),
{
}

/// A new name starts a new run, with the rows that are entered.
pub proof fn new_submission_starts(s: StoreView, plan: SubmissionPlanView, now: Timestamp)
    requires
        s.run(plan.spec.run_id) is None,
        s.attempt(plan.spec.run_id, plan.attempt_no) is None,
        s.binding(plan.spec.run_id) is None,
    ensures
        submission::start_of(s, plan, now) == Ok::<
            (RunRecordView, Option<RunAttemptRecordView>),
            Seq<char>,
        >((submission::planned_run(plan, now), Some(submission::planned_attempt(plan, now)))),
{
}

/// A command that failed is reported with its exit code and all that it printed.
pub proof fn failure_is_reported_in_full(what: Seq<char>, output: ExecOutputView)
    ensures
        output.code is Some ==> text::has_prefix(
            submission::exit_report(what, output),
            what + " with exit "@,
        ),
        exists|head: Seq<char>|
            submission::exit_report(what, output) == #[trigger] (head + output.stdout
                + output.stderr),
{
    let report = submission::exit_report(what, output);
    let head = what + " with exit "@;
    assert(report.take(head.len() as int) =~= head);
    let front = what + " with exit "@ + text::shown_option(output.code) + ": "@;
    assert(report == front + output.stdout + output.stderr);
}

} // verus!
