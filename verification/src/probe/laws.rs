//! What a question to a host has to do with the reading of its answer.
use crate::probe;
use crate::probe::{
    LsfScan, ProbeInterpretationView, SlurmScan, SlurmSection, BATCH_TERMINAL,
    LSF_BATCH_BJOBS_BEGIN, LSF_BATCH_BJOBS_END, SCHEDULER_MARKER, SENTINEL_MARKER,
    SLURM_BATCH_SACCT_BEGIN, SLURM_BATCH_SACCT_END, SLURM_BATCH_SQUEUE_BEGIN,
    SLURM_BATCH_SQUEUE_END,
};
use crate::seqs;
use crate::text;
use crate::types::{ObservationSource, RunRecordView, RunStatus, RunnerKind};
use vstd::prelude::*;

verus! {

// ---------------------------------------------------------------------------
// The words of the schedulers
// ---------------------------------------------------------------------------

/// The states of LSF: a run has succeeded where LSF says DONE or POST_DONE,
/// failed where it says EXIT or POST_ERR, waits where it says PEND or WAIT, runs
/// where it says RUN, PSUSP, USUSP or SSUSP, and nothing is known of it where it
/// says anything else. Neither the case of the letters nor the white around them
/// counts.
#[verifier::spinoff_prover]
#[verifier::rlimit(40)]
pub proof fn lsf_states(state: Seq<char>)
    ensures
        ({
            let word = text::ascii_upper(text::trimmed(state));
            let status = probe::lsf_status(state);
            &&& status == RunStatus::Succeeded <==> word == "DONE"@ || word == "POST_DONE"@
            &&& status == RunStatus::Failed <==> word == "EXIT"@ || word == "POST_ERR"@
            &&& status == RunStatus::Queued <==> word == "PEND"@ || word == "WAIT"@
            &&& status == RunStatus::Running <==> word == "RUN"@ || word == "PSUSP"@ || word
                == "USUSP"@ || word == "SSUSP"@
            &&& status == RunStatus::Unknown <==> !(word == "DONE"@ || word == "POST_DONE"@ || word
                == "EXIT"@ || word == "POST_ERR"@ || word == "PEND"@ || word == "WAIT"@ || word
                == "RUN"@ || word == "PSUSP"@ || word == "USUSP"@ || word == "SSUSP"@)
        }),
{
    reveal_strlit("DONE");
    reveal_strlit("POST_DONE");
    reveal_strlit("EXIT");
    reveal_strlit("POST_ERR");
    reveal_strlit("PEND");
    reveal_strlit("WAIT");
    reveal_strlit("RUN");
    reveal_strlit("PSUSP");
    reveal_strlit("USUSP");
    reveal_strlit("SSUSP");
    assert("DONE"@[0] == 'D' && "EXIT"@[0] == 'E' && "PEND"@[0] == 'P' && "WAIT"@[0] == 'W');
    assert("PSUSP"@[0] == 'P' && "USUSP"@[0] == 'U' && "SSUSP"@[0] == 'S');
    assert("POST_DONE"@.len() == 9 && "POST_ERR"@.len() == 8 && "RUN"@.len() == 3);
    assert("DONE"@.len() == 4 && "EXIT"@.len() == 4 && "PEND"@.len() == 4 && "WAIT"@.len() == 4);
    assert("PSUSP"@.len() == 5 && "USUSP"@.len() == 5 && "SSUSP"@.len() == 5);
    let word = text::ascii_upper(text::trimmed(state));
    assert(word == "DONE"@ ==> word.len() == 4 && word[0] == 'D');
    assert(word == "POST_DONE"@ ==> word.len() == 9);
    assert(word == "EXIT"@ ==> word.len() == 4 && word[0] == 'E');
    assert(word == "POST_ERR"@ ==> word.len() == 8);
    assert(word == "PEND"@ ==> word.len() == 4 && word[0] == 'P');
    assert(word == "WAIT"@ ==> word.len() == 4 && word[0] == 'W');
    assert(word == "RUN"@ ==> word.len() == 3);
    assert(word == "PSUSP"@ || word == "USUSP"@ || word == "SSUSP"@ ==> word.len() == 5);
}

/// What a scheduler says of a job means the same in small and in capital
/// letters, and with white around it.
pub proof fn states_ignore_case_and_white(before: Seq<char>, state: Seq<char>, after: Seq<char>)
    requires
        text::all_white(before),
        text::all_white(after),
    ensures
        probe::lsf_status(before + state + after) == probe::lsf_status(state),
        probe::lsf_status(text::ascii_lower(state)) == probe::lsf_status(state),
        probe::lsf_status(text::ascii_upper(state)) == probe::lsf_status(state),
        probe::slurm_status(before + state + after) == probe::slurm_status(state),
        probe::slurm_status(text::ascii_lower(state)) == probe::slurm_status(state),
        probe::slurm_status(text::ascii_upper(state)) == probe::slurm_status(state),
{
    text::trimming_ignores_outer_white(before, state, after);
    text::capitals_ignore_case(state);
    text::capitals_ignore_case(text::trimmed(state));
    assert(text::ascii_upper(text::ascii_upper(text::trimmed(state))) =~= text::ascii_upper(
        text::trimmed(state),
    ));
}

pub open spec fn slurm_success(word: Seq<char>) -> bool {
    text::has_prefix(word, "COMPLETED"@)
}

pub open spec fn slurm_failure(word: Seq<char>) -> bool {
    ||| text::has_prefix(word, "FAILED"@)
    ||| text::has_prefix(word, "TIMEOUT"@)
    ||| text::has_prefix(word, "NODE_FAIL"@)
    ||| text::has_prefix(word, "OUT_OF_MEMORY"@)
    ||| text::has_prefix(word, "PREEMPTED"@)
    ||| text::has_prefix(word, "BOOT_FAIL"@)
    ||| text::has_prefix(word, "DEADLINE"@)
    ||| text::has_prefix(word, "REVOKED"@)
    ||| text::has_prefix(word, "SPECIAL_EXIT"@)
}

pub open spec fn slurm_cancellation(word: Seq<char>) -> bool {
    text::has_prefix(word, "CANCELLED"@) || text::has_prefix(word, "CANCELED"@)
}

pub open spec fn slurm_running(word: Seq<char>) -> bool {
    ||| text::has_prefix(word, "RUNNING"@)
    ||| text::has_prefix(word, "COMPLETING"@)
    ||| text::has_prefix(word, "SUSPENDED"@)
    ||| text::has_prefix(word, "RESIZING"@)
}

pub open spec fn slurm_waiting(word: Seq<char>) -> bool {
    ||| text::has_prefix(word, "PENDING"@)
    ||| text::has_prefix(word, "CONFIGURING"@)
    ||| text::has_prefix(word, "REQUEUED"@)
    ||| text::has_prefix(word, "REQUEUE_FED"@)
    ||| text::has_prefix(word, "REQUEUE_HOLD"@)
}

/// The first characters of a text are those of its prefix.
proof fn lemma_prefix_chars(word: Seq<char>, prefix: Seq<char>)
    requires
        text::has_prefix(word, prefix),
    ensures
        word.len() >= prefix.len(),
        forall|k: int| 0 <= k < prefix.len() ==> word[k] == #[trigger] prefix[k],
{
    assert forall|k: int| 0 <= k < prefix.len() implies word[k] == #[trigger] prefix[k] by {
        assert(word.take(prefix.len() as int)[k] == word[k]);
    }
}

/// By its first letters a state of Slurm belongs to one class at most.
#[verifier::spinoff_prover]
#[verifier::rlimit(40)]
proof fn lemma_slurm_classes(word: Seq<char>)
    ensures
        slurm_success(word) ==> word[0] == 'C' && word[2] == 'M' && word[7] == 'E',
        slurm_failure(word) ==> word[0] == 'F' || word[0] == 'T' || word[0] == 'N' || word[0]
            == 'O' || (word[0] == 'P' && word[1] == 'R') || word[0] == 'B' || word[0] == 'D' || (
        word[0] == 'R' && word[2] == 'V') || (word[0] == 'S' && word[1] == 'P'),
        slurm_cancellation(word) ==> word[0] == 'C' && word[2] == 'N' && word[1] == 'A',
        slurm_running(word) ==> (word[0] == 'R' && (word[2] == 'N' || word[2] == 'S')) || (word[0]
            == 'C' && word[2] == 'M' && word[7] == 'I') || (word[0] == 'S' && word[1] == 'U'),
        slurm_waiting(word) ==> (word[0] == 'P' && word[1] == 'E') || (word[0] == 'C' && word[2]
            == 'N' && word[1] == 'O') || (word[0] == 'R' && word[2] == 'Q'),
{
    reveal_strlit("COMPLETED");
    reveal_strlit("FAILED");
    reveal_strlit("TIMEOUT");
    reveal_strlit("NODE_FAIL");
    reveal_strlit("OUT_OF_MEMORY");
    reveal_strlit("PREEMPTED");
    reveal_strlit("BOOT_FAIL");
    reveal_strlit("DEADLINE");
    reveal_strlit("REVOKED");
    reveal_strlit("SPECIAL_EXIT");
    reveal_strlit("CANCELLED");
    reveal_strlit("CANCELED");
    reveal_strlit("RUNNING");
    reveal_strlit("COMPLETING");
    reveal_strlit("SUSPENDED");
    reveal_strlit("RESIZING");
    reveal_strlit("PENDING");
    reveal_strlit("CONFIGURING");
    reveal_strlit("REQUEUED");
    reveal_strlit("REQUEUE_FED");
    reveal_strlit("REQUEUE_HOLD");
    assert forall|prefix: Seq<char>| #[trigger] text::has_prefix(word, prefix) implies word.len()
        >= prefix.len() && (prefix.len() > 0 ==> word[0] == prefix[0]) && (prefix.len() > 1
        ==> word[1] == prefix[1]) && (prefix.len() > 2 ==> word[2] == prefix[2]) && (prefix.len()
        > 7 ==> word[7] == prefix[7]) by {
        lemma_prefix_chars(word, prefix);
    }
}

/// The states of Slurm: a state that begins with COMPLETED is a success; one that
/// names a failure, a limit, a broken node or an eviction is a failure; CANCELLED
/// is a cancellation; a job that runs, is suspended or is just ending runs; one
/// that is pending, configuring or queued again waits; nothing is known of any
/// other.
pub proof fn slurm_states(state: Seq<char>)
    ensures
        ({
            let word = text::ascii_upper(text::trimmed(state));
            let status = probe::slurm_status(state);
            &&& status == RunStatus::Succeeded <==> slurm_success(word)
            &&& status == RunStatus::Failed <==> slurm_failure(word)
            &&& status == RunStatus::Cancelled <==> slurm_cancellation(word)
            &&& status == RunStatus::Running <==> slurm_running(word)
            &&& status == RunStatus::Queued <==> slurm_waiting(word)
            &&& status == RunStatus::Unknown <==> !(slurm_success(word) || slurm_failure(word)
                || slurm_cancellation(word) || slurm_running(word) || slurm_waiting(word))
        }),
{
    let word = text::ascii_upper(text::trimmed(state));
    lemma_slurm_classes(word);
}

/// The words that the file of a run's end may hold, and what each of them says.
pub proof fn terminal_words(word: Seq<char>)
    ensures
        probe::terminal_word(word) == Some(RunStatus::Succeeded) <==> word == "succeeded"@ || word
            == "completed"@,
        probe::terminal_word(word) == Some(RunStatus::Failed) <==> word == "failed"@ || word
            == "timed_out"@ || word == "timeout"@ || word == "lost"@,
        probe::terminal_word(word) == Some(RunStatus::Cancelled) <==> word == "cancelled"@ || word
            == "canceled"@,
        probe::terminal_word(word) is None <==> !(word == "succeeded"@ || word == "completed"@
            || word == "failed"@ || word == "timed_out"@ || word == "timeout"@ || word == "lost"@
            || word == "cancelled"@ || word == "canceled"@),
{
    reveal_strlit("succeeded");
    reveal_strlit("completed");
    reveal_strlit("failed");
    reveal_strlit("timed_out");
    reveal_strlit("timeout");
    reveal_strlit("lost");
    reveal_strlit("cancelled");
    reveal_strlit("canceled");
    assert("succeeded"@[0] == 's' && "completed"@[0] == 'c' && "completed"@[1] == 'o');
    assert("cancelled"@[1] == 'a' && "canceled"@[1] == 'a' && "canceled"@[0] == 'c');
    assert("failed"@[0] == 'f' && "timed_out"@[0] == 't' && "timeout"@[0] == 't');
    assert("lost"@[0] == 'l' && "cancelled"@[0] == 'c');
}

// ---------------------------------------------------------------------------
// The question about one run
// ---------------------------------------------------------------------------

/// Whether the reader takes what stands behind the marker for the file of the
/// run's end.
pub open spec fn marks_file(marker: Seq<char>) -> bool {
    forall|run: RunRecordView, body: Seq<char>|
        {
            let seen = #[trigger] probe::observation(run, marker + "\n"@ + body);
            &&& seen.source == ObservationSource::Sentinel
            &&& seen.raw_state == text::trimmed(body)
            &&& seen.recognized <==> probe::terminal_status(body) is Some
            &&& probe::terminal_status(body) matches Some(status) ==> seen.status == status
        }
}

/// Whether the reader takes what stands behind the marker for the scheduler's
/// word.
pub open spec fn marks_scheduler(marker: Seq<char>) -> bool {
    forall|run: RunRecordView, body: Seq<char>|
        {
            let seen = #[trigger] probe::observation(run, marker + "\n"@ + body);
            &&& seen.source == ObservationSource::Scheduler
            &&& seen.raw_state == text::trimmed(body)
            &&& run.runner == RunnerKind::Slurm && probe::slurm_status(body) != RunStatus::Unknown
                ==> seen.status == probe::slurm_status(body)
            &&& run.runner == RunnerKind::Lsf && probe::lsf_status(body) != RunStatus::Unknown
                ==> seen.status == probe::lsf_status(body)
        }
}

proof fn lemma_break_is_white(body: Seq<char>)
    ensures
        text::trimmed("\n"@ + body) == text::trimmed(body),
        probe::terminal_status("\n"@ + body) == probe::terminal_status(body),
{
    reveal_strlit("\n");
    assert(text::all_white("\n"@));
    text::trimming_ignores_outer_white("\n"@, body, Seq::empty());
    assert("\n"@ + body + Seq::<char>::empty() =~= "\n"@ + body);
    text::lemma_trimmed_len(body);
}

proof fn lemma_trimmed_twice(body: Seq<char>)
    ensures
        text::trimmed(text::trimmed(body)) == text::trimmed(body),
{
    text::trimming_takes_only_white(body);
    let (before, after) = choose|before: Seq<char>, after: Seq<char>|
        body == #[trigger] (before + text::trimmed(body) + after) && text::all_white(before)
            && text::all_white(after);
    text::trimming_ignores_outer_white(before, text::trimmed(body), after);
}

/// The two markers that start an answer are told apart by the reader.
pub proof fn markers_are_told_apart()
    ensures
        marks_file(SENTINEL_MARKER@),
        marks_scheduler(SCHEDULER_MARKER@),
{
    assert forall|run: RunRecordView, body: Seq<char>| ({
        let seen = #[trigger] probe::observation(run, SENTINEL_MARKER@ + "\n"@ + body);
        &&& seen.source == ObservationSource::Sentinel
        &&& seen.raw_state == text::trimmed(body)
        &&& seen.recognized <==> probe::terminal_status(body) is Some
        &&& probe::terminal_status(body) matches Some(status) ==> seen.status == status
    }) by {
        assert(SENTINEL_MARKER@ + "\n"@ + body =~= SENTINEL_MARKER@ + ("\n"@ + body));
        text::lemma_without_prefix(SENTINEL_MARKER@, "\n"@ + body);
        lemma_break_is_white(body);
    }
    assert forall|run: RunRecordView, body: Seq<char>| ({
        let seen = #[trigger] probe::observation(run, SCHEDULER_MARKER@ + "\n"@ + body);
        &&& seen.source == ObservationSource::Scheduler
        &&& seen.raw_state == text::trimmed(body)
        &&& run.runner == RunnerKind::Slurm && probe::slurm_status(body) != RunStatus::Unknown
            ==> seen.status == probe::slurm_status(body)
        &&& run.runner == RunnerKind::Lsf && probe::lsf_status(body) != RunStatus::Unknown
            ==> seen.status == probe::lsf_status(body)
    }) by {
        let answer = SCHEDULER_MARKER@ + "\n"@ + body;
        assert(answer =~= SCHEDULER_MARKER@ + ("\n"@ + body));
        text::lemma_without_prefix(SCHEDULER_MARKER@, "\n"@ + body);
        lemma_break_is_white(body);
        lemma_trimmed_twice(body);
        reveal_strlit("__RUNWATCH_SENTINEL__");
        reveal_strlit("__RUNWATCH_SCHEDULER__");
        if text::has_prefix(answer, SENTINEL_MARKER@) {
            lemma_prefix_chars(answer, SENTINEL_MARKER@);
            assert(SENTINEL_MARKER@[12] == 'E');
            assert(SCHEDULER_MARKER@[12] == 'C');
            assert(answer[12] == SCHEDULER_MARKER@[12]);
            assert(false);
        }
    }
}

/// The question about a run that has a file of its end prints, where the file is
/// there, what the reader takes for that file; and otherwise what it takes for
/// the word of the scheduler, which is asked about the job of the run.
#[verifier::spinoff_prover]
#[verifier::rlimit(40)]
pub proof fn question_marks_what_it_prints(run: RunRecordView)
    ensures
        run.remote_terminal matches Some(path) ==> exists|file: Seq<char>, scheduler: Seq<char>|
            {
                &&& marks_file(file)
                &&& marks_scheduler(scheduler)
                &&& #[trigger] falls_back(
                    probe::remote_question(run),
                    path,
                    file,
                    scheduler,
                    probe::scheduler_question(run),
                )
            },
        run.remote_terminal is None ==> match probe::scheduler_question(run) {
            None => probe::remote_question(run) is None,
            Some(asked) => exists|scheduler: Seq<char>|
                marks_scheduler(scheduler) && probe::remote_question(run) == Some(
                    #[trigger] ("printf '"@ + scheduler + "\\n'; "@ + asked),
                ),
        },
{
    markers_are_told_apart();
    if let Some(path) = run.remote_terminal {
        let word = text::shell_word(path);
        let head = "if [ -f "@ + word + " ]; then printf '"@ + SENTINEL_MARKER@ + "\\n'; cat -- "@
            + word;
        reveal_strlit("; else ");
        reveal_strlit("printf '");
        reveal_strlit("; else printf '");
        reveal_strlit("; fi");
        reveal_strlit("\\n'; ");
        reveal_strlit("\\n'");
        reveal_strlit("\\n'; fi");
        assert("; else printf '"@ =~= "; else "@ + "printf '"@);
        assert("\\n'; fi"@ =~= "\\n'"@ + "; fi"@);
        let rest = match probe::scheduler_question(run) {
            Some(asked) => "printf '"@ + SCHEDULER_MARKER@ + "\\n'; "@ + asked,
            None => "printf '"@ + SCHEDULER_MARKER@ + "\\n'"@,
        };
        let question = probe::remote_question(run)->0;
        assert(question =~= head + "; else "@ + rest + "; fi"@);
        assert(falls_back(
            probe::remote_question(run),
            path,
            SENTINEL_MARKER@,
            SCHEDULER_MARKER@,
            probe::scheduler_question(run),
        ));
    }
}

/// Whether the command shows the file behind the one marker where the file is
/// there, and otherwise prints the other marker and asks the scheduler, where
/// there is something to ask it.
pub open spec fn falls_back(
    command: Option<Seq<char>>,
    path: Seq<char>,
    file: Seq<char>,
    scheduler: Seq<char>,
    asked: Option<Seq<char>>,
) -> bool {
    let word = text::shell_word(path);
    command == Some(
        "if [ -f "@ + word + " ]; then printf '"@ + file + "\\n'; cat -- "@ + word + "; else "@ + (
        match asked {
            Some(asked) => "printf '"@ + scheduler + "\\n'; "@ + asked,
            None => "printf '"@ + scheduler + "\\n'"@,
        }) + "; fi"@,
    )
}

// ---------------------------------------------------------------------------
// The question about many runs
// ---------------------------------------------------------------------------

/// Whether the command, where the file is there, prints the marker and right
/// behind it the first line of the file.
pub open spec fn shows_first_line(command: Seq<char>, path: Seq<char>, marker: Seq<char>) -> bool {
    text::has_part(
        command,
        "if [ -f "@ + text::shell_word(path) + " ]; then printf '"@ + marker + "'; head -n 1 -- "@
            + text::shell_word(path) + "; fi; "@,
    )
}

/// Whether the reader takes what stands behind the marker for the first line of
/// the file of the run at `index`.
pub open spec fn names_run(marker: Seq<char>, index: nat) -> bool {
    forall|body: Seq<char>|
        #[trigger] probe::terminal_line(marker + body) == Some((index, text::trimmed(body)))
}

proof fn lemma_numbered_marker(index: nat)
    requires
        index <= usize::MAX,
    ensures
        names_run(BATCH_TERMINAL@ + text::decimal(index) + "|"@, index),
{
    let number = text::decimal(index);
    reveal_strlit("|");
    assert("|"@ =~= seq!['|']);
    text::lemma_decimal_digits(index);
    text::decimal_is_read_back(index);
    assert(!text::has_char(number, '|')) by {
        if number.contains('|') {
            let k = choose|k: int| 0 <= k < number.len() && number[k] == '|';
            assert(text::is_digit(number[k]));
        }
    }
    assert forall|body: Seq<char>|
        #[trigger] probe::terminal_line(BATCH_TERMINAL@ + number + "|"@ + body) == Some(
        (index, text::trimmed(body)),
    ) by {
        let rest = number + seq!['|'] + body;
        assert(BATCH_TERMINAL@ + number + "|"@ + body =~= BATCH_TERMINAL@ + rest);
        text::lemma_without_prefix(BATCH_TERMINAL@, rest);
        text::split_pair_is_put_together(number, body, '|');
    }
}

proof fn lemma_checks_show(runs: Seq<RunRecordView>, i: int)
    requires
        0 <= i < runs.len(),
        runs[i].remote_terminal is Some,
    ensures
        shows_first_line(
            probe::terminal_checks(runs),
            runs[i].remote_terminal->0,
            BATCH_TERMINAL@ + text::decimal(i as nat) + "|"@,
        ),
    decreases runs.len(),
{
    let before = probe::terminal_checks(runs.drop_last());
    let path = match runs.last().remote_terminal {
        Some(path) => path,
        None => Seq::empty(),
    };
    let word = text::shell_word(path);
    let marker = BATCH_TERMINAL@ + text::decimal((runs.len() - 1) as nat) + "|"@;
    let piece = "if [ -f "@ + word + " ]; then printf '"@ + marker + "'; head -n 1 -- "@ + word
        + "; fi; "@;
    reveal_strlit("|'; head -n 1 -- ");
    reveal_strlit("|");
    reveal_strlit("'; head -n 1 -- ");
    assert("|'; head -n 1 -- "@ =~= "|"@ + "'; head -n 1 -- "@);
    assert(probe::terminal_checks(runs) =~= before + piece);
    if i == runs.len() - 1 {
        text::lemma_part_within(before, piece, Seq::empty());
        assert(before + piece + Seq::<char>::empty() =~= before + piece);
    } else {
        assert(runs.drop_last()[i] == runs[i]);
        lemma_checks_show(runs.drop_last(), i);
        let own = text::shell_word(runs[i].remote_terminal->0);
        text::lemma_part_kept(
            before,
            "if [ -f "@ + own + " ]; then printf '"@ + (BATCH_TERMINAL@ + text::decimal(i as nat)
                + "|"@) + "'; head -n 1 -- "@ + own + "; fi; "@,
            piece,
        );
    }
}

/// Question and answer agree on which run is which: in front of the file of each
/// run, the question about many runs prints a marker by which the reader takes
/// the line for that run, whatever the line says.
pub proof fn batched_lines_are_attributed(runs: Seq<RunRecordView>, i: int)
    requires
        0 <= i < runs.len() <= usize::MAX,
        runs[i].remote_terminal is Some,
    ensures
        exists|marker: Seq<char>|
            {
                &&& #[trigger] names_run(marker, i as nat)
                &&& shows_first_line(
                    probe::slurm_batch_question(runs),
                    runs[i].remote_terminal->0,
                    marker,
                )
                &&& shows_first_line(
                    probe::lsf_batch_question(runs),
                    runs[i].remote_terminal->0,
                    marker,
                )
            },
{
    let path = runs[i].remote_terminal->0;
    let marker = BATCH_TERMINAL@ + text::decimal(i as nat) + "|"@;
    lemma_numbered_marker(i as nat);
    lemma_checks_show(runs, i);
    let checks = probe::terminal_checks(runs);
    let piece = "if [ -f "@ + text::shell_word(path) + " ]; then printf '"@ + marker
        + "'; head -n 1 -- "@ + text::shell_word(path) + "; fi; "@;
    let slurm = probe::slurm_batch_question(runs);
    let lsf = probe::lsf_batch_question(runs);
    text::lemma_part_kept(checks, piece, slurm.skip(checks.len() as int));
    assert(slurm =~= checks + slurm.skip(checks.len() as int));
    text::lemma_part_kept(checks, piece, lsf.skip(checks.len() as int));
    assert(lsf =~= checks + lsf.skip(checks.len() as int));
    assert(names_run(marker, i as nat));
}

/// No marker stands for two runs.
pub proof fn marker_names_one_run(marker: Seq<char>, i: nat, j: nat)
    requires
        names_run(marker, i),
        names_run(marker, j),
    ensures
        i == j,
{
    assert(probe::terminal_line(marker + Seq::<char>::empty()) == Some(
        (i, text::trimmed(Seq::<char>::empty())),
    ));
}

/// The line of the file of a run decides on that run: the status is what the
/// line says, and where it says nothing the status stays. A line for one run says
/// nothing of another one.
pub proof fn batched_file_decides(
    runs: Seq<RunRecordView>,
    stdout: Seq<char>,
    i: int,
    k: int,
    body: Seq<char>,
)
    requires
        0 <= i < runs.len(),
        0 <= k < text::lines_of(stdout).len(),
        probe::terminal_line(text::lines_of(stdout)[k]) == Some((i as nat, body)),
        forall|j: int|
            k < j < text::lines_of(stdout).len() ==> (match #[trigger] probe::terminal_line(
                text::lines_of(stdout)[j],
            ) {
                Some(found) => found.0 != i,
                None => true,
            }),
    ensures
        file_decided(probe::slurm_batch_results(runs, stdout)[i].probe, runs[i], body),
        file_decided(probe::lsf_batch_results(runs, stdout)[i].probe, runs[i], body),
{
    let list = text::lines_of(stdout);
    lemma_scanned_terminal(list, i as nat, k, body);
}

/// Whether the probe says what the file of the run's end says.
pub open spec fn file_decided(
    probe: ProbeInterpretationView,
    run: RunRecordView,
    body: Seq<char>,
) -> bool {
    &&& probe.source == ObservationSource::Sentinel
    &&& probe.raw_state == body
    &&& match probe::terminal_status(body) {
        Some(status) => probe.recognized && probe.status == status,
        None => !probe.recognized && probe.status == run.status,
    }
}

proof fn lemma_scanned_terminal(list: Seq<Seq<char>>, index: nat, k: int, body: Seq<char>)
    requires
        0 <= k < list.len(),
        probe::terminal_line(list[k]) == Some((index, body)),
        forall|j: int|
            k < j < list.len() ==> (match #[trigger] probe::terminal_line(list[j]) {
                Some(found) => found.0 != index,
                None => true,
            }),
    ensures
        probe::terminal_of(probe::slurm_scan(list).terminals, index) == Some(body),
        probe::terminal_of(probe::lsf_scan(list).terminals, index) == Some(body),
    decreases list.len(),
{
    let rest = list.drop_last();
    let line = list.last();
    if k == list.len() - 1 {
        assert(probe::is_terminal_line(line));
        let slurm = probe::slurm_scan(list).terminals;
        let lsf = probe::lsf_scan(list).terminals;
        assert(slurm.last() == (index, body));
        assert(lsf.last() == (index, body));
    } else {
        assert(rest[k] == list[k]);
        assert forall|j: int| k < j < rest.len() implies (match #[trigger] probe::terminal_line(
            rest[j],
        ) {
            Some(found) => found.0 != index,
            None => true,
        }) by {
            assert(rest[j] == list[j]);
        }
        lemma_scanned_terminal(rest, index, k, body);
        let slurm = probe::slurm_scan(rest).terminals;
        let lsf = probe::lsf_scan(rest).terminals;
        assert(list[list.len() - 1] == line);
        match probe::terminal_line(line) {
            Some(found) => {
                assert(found.0 != index);
                assert(slurm.push(found).drop_last() =~= slurm);
                assert(lsf.push(found).drop_last() =~= lsf);
                assert(slurm.push(found).last() == found);
                assert(lsf.push(found).last() == found);
            },
            None => {},
        }
    }
}

// ---------------------------------------------------------------------------
// The tables of the schedulers
// ---------------------------------------------------------------------------

/// Whether the line starts the table of the queue.
pub open spec fn opens_queue(line: Seq<char>) -> bool {
    forall|scan: SlurmScan|
        #[trigger] probe::slurm_line(scan, line) == (SlurmScan {
            section: SlurmSection::Squeue,
            ..scan
        })
}

/// Whether the line starts the table of the accounts.
pub open spec fn opens_accounts(line: Seq<char>) -> bool {
    forall|scan: SlurmScan|
        #[trigger] probe::slurm_line(scan, line) == (SlurmScan {
            section: SlurmSection::Sacct,
            ..scan
        })
}

/// Whether the line that the marker starts ends a table and says how asking the
/// queue went.
pub open spec fn closes_queue(marker: Seq<char>) -> bool {
    forall|scan: SlurmScan, code: u32|
        #[trigger] probe::slurm_line(scan, marker + text::decimal(code as nat)) == (SlurmScan {
            section: SlurmSection::Outside,
            squeue_exit: Some(code),
            ..scan
        })
}

/// Whether the line that the marker starts ends a table and says how asking the
/// accounts went.
pub open spec fn closes_accounts(marker: Seq<char>) -> bool {
    forall|scan: SlurmScan, code: u32|
        #[trigger] probe::slurm_line(scan, marker + text::decimal(code as nat)) == (SlurmScan {
            section: SlurmSection::Outside,
            sacct_exit: Some(code),
            ..scan
        })
}

/// Whether the line starts the table of LSF.
pub open spec fn opens_jobs(line: Seq<char>) -> bool {
    forall|scan: LsfScan|
        #[trigger] probe::lsf_line(scan, line) == (LsfScan { in_bjobs: true, ..scan })
}

/// Whether the line that the marker starts ends that table and says how asking
/// LSF went.
pub open spec fn closes_jobs(marker: Seq<char>) -> bool {
    forall|scan: LsfScan, code: u32|
        #[trigger] probe::lsf_line(scan, marker + text::decimal(code as nat)) == (LsfScan {
            in_bjobs: false,
            bjobs_exit: Some(code),
            ..scan
        })
}

/// The text of a decimal has no white in it.
pub proof fn lemma_decimal_trimmed(code: nat)
    ensures
        text::trimmed(text::decimal(code)) == text::decimal(code),
{
    text::lemma_decimal_digits(code);
    let number = text::decimal(code);
    text::trimming_takes_only_white(number);
    let (before, after) = choose|before: Seq<char>, after: Seq<char>|
        number == #[trigger] (before + text::trimmed(number) + after) && text::all_white(before)
            && text::all_white(after);
    if before.len() > 0 {
        assert(number[0] == before[0]);
        assert(text::is_digit(number[0]));
    }
    if after.len() > 0 {
        assert(number[number.len() - 1] == after[after.len() - 1]);
        assert(text::is_digit(number[number.len() - 1]));
    }
    assert(before + text::trimmed(number) + after =~= text::trimmed(number));
}

proof fn lemma_exit_line(marker: Seq<char>, code: u32)
    ensures
        text::has_prefix(marker + text::decimal(code as nat), marker),
        probe::exit_line(marker + text::decimal(code as nat), marker) == Some(code),
{
    text::lemma_without_prefix(marker, text::decimal(code as nat));
    lemma_decimal_trimmed(code as nat);
    text::decimal_is_read_back(code as nat);
}

/// At the character `at`, two texts differ, so neither line starts with the
/// other marker.
proof fn lemma_other_marker(line: Seq<char>, own: Seq<char>, other: Seq<char>, at: int)
    requires
        text::has_prefix(line, own),
        0 <= at < own.len(),
        0 <= at < other.len(),
        own[at] != other[at],
    ensures
        !text::has_prefix(line, other),
        line != other,
{
    lemma_prefix_chars(line, own);
    if text::has_prefix(line, other) {
        lemma_prefix_chars(line, other);
        assert(line[at] == own[at]);
        assert(line[at] == other[at]);
    }
    if line == other {
        assert(line[at] == own[at]);
    }
}

proof fn lemma_self_prefix(line: Seq<char>)
    ensures
        text::has_prefix(line, line),
{
    assert(line.take(line.len() as int) =~= line);
}

#[verifier::spinoff_prover]
#[verifier::rlimit(40)]
proof fn lemma_marker_texts()
    ensures
        BATCH_TERMINAL@.len() == 28,
        BATCH_TERMINAL@[17] == 'T',
        SLURM_BATCH_SQUEUE_BEGIN@.len() == 31,
        SLURM_BATCH_SQUEUE_BEGIN@[17] == 'S',
        SLURM_BATCH_SQUEUE_BEGIN@[18] == 'Q',
        SLURM_BATCH_SQUEUE_BEGIN@[24] == 'B',
        SLURM_BATCH_SQUEUE_END@.len() == 30,
        SLURM_BATCH_SQUEUE_END@[17] == 'S',
        SLURM_BATCH_SQUEUE_END@[18] == 'Q',
        SLURM_BATCH_SQUEUE_END@[24] == 'E',
        SLURM_BATCH_SACCT_BEGIN@.len() == 30,
        SLURM_BATCH_SACCT_BEGIN@[17] == 'S',
        SLURM_BATCH_SACCT_BEGIN@[18] == 'A',
        SLURM_BATCH_SACCT_BEGIN@[23] == 'B',
        SLURM_BATCH_SACCT_END@.len() == 29,
        SLURM_BATCH_SACCT_END@[17] == 'S',
        SLURM_BATCH_SACCT_END@[18] == 'A',
        SLURM_BATCH_SACCT_END@[23] == 'E',
        LSF_BATCH_BJOBS_BEGIN@.len() == 30,
        LSF_BATCH_BJOBS_BEGIN@[17] == 'B',
        LSF_BATCH_BJOBS_BEGIN@[23] == 'B',
        LSF_BATCH_BJOBS_END@.len() == 29,
        LSF_BATCH_BJOBS_END@[17] == 'B',
        LSF_BATCH_BJOBS_END@[23] == 'E',
        BATCH_TERMINAL@[0] == '_',
        SLURM_BATCH_SQUEUE_BEGIN@[0] == '_',
        SLURM_BATCH_SQUEUE_END@[0] == '_',
        SLURM_BATCH_SACCT_BEGIN@[0] == '_',
        SLURM_BATCH_SACCT_END@[0] == '_',
        LSF_BATCH_BJOBS_BEGIN@[0] == '_',
        LSF_BATCH_BJOBS_END@[0] == '_',
{
    reveal_strlit("__RUNWATCH_BATCH_TERMINAL__|");
    reveal_strlit("__RUNWATCH_BATCH_SQUEUE_BEGIN__");
    reveal_strlit("__RUNWATCH_BATCH_SQUEUE_END__|");
    reveal_strlit("__RUNWATCH_BATCH_SACCT_BEGIN__");
    reveal_strlit("__RUNWATCH_BATCH_SACCT_END__|");
    reveal_strlit("__RUNWATCH_BATCH_BJOBS_BEGIN__");
    reveal_strlit("__RUNWATCH_BATCH_BJOBS_END__|");
}

proof fn lemma_slurm_markers()
    ensures
        opens_queue(SLURM_BATCH_SQUEUE_BEGIN@),
        opens_accounts(SLURM_BATCH_SACCT_BEGIN@),
        closes_queue(SLURM_BATCH_SQUEUE_END@),
        closes_accounts(SLURM_BATCH_SACCT_END@),
{
    lemma_marker_texts();
    let sq = SLURM_BATCH_SQUEUE_BEGIN@;
    let sq_end = SLURM_BATCH_SQUEUE_END@;
    let sa = SLURM_BATCH_SACCT_BEGIN@;
    let sa_end = SLURM_BATCH_SACCT_END@;
    lemma_self_prefix(sq);
    lemma_other_marker(sq, sq, BATCH_TERMINAL@, 17);
    lemma_self_prefix(sa);
    lemma_other_marker(sa, sa, BATCH_TERMINAL@, 17);
    lemma_other_marker(sa, sa, sq, 18);
    lemma_other_marker(sa, sa, sq_end, 18);
    assert forall|scan: SlurmScan, code: u32|
        #[trigger] probe::slurm_line(scan, sq_end + text::decimal(code as nat)) == (SlurmScan {
        section: SlurmSection::Outside,
        squeue_exit: Some(code),
        ..scan
    }) by {
        let line = sq_end + text::decimal(code as nat);
        lemma_exit_line(sq_end, code);
        lemma_other_marker(line, sq_end, BATCH_TERMINAL@, 17);
        lemma_other_marker(line, sq_end, sq, 24);
    }
    assert forall|scan: SlurmScan, code: u32|
        #[trigger] probe::slurm_line(scan, sa_end + text::decimal(code as nat)) == (SlurmScan {
        section: SlurmSection::Outside,
        sacct_exit: Some(code),
        ..scan
    }) by {
        let line = sa_end + text::decimal(code as nat);
        lemma_exit_line(sa_end, code);
        lemma_other_marker(line, sa_end, BATCH_TERMINAL@, 17);
        lemma_other_marker(line, sa_end, sq, 18);
        lemma_other_marker(line, sa_end, sq_end, 18);
        lemma_other_marker(line, sa_end, sa, 23);
    }
}

proof fn lemma_lsf_markers()
    ensures
        opens_jobs(LSF_BATCH_BJOBS_BEGIN@),
        closes_jobs(LSF_BATCH_BJOBS_END@),
{
    lemma_marker_texts();
    let begin = LSF_BATCH_BJOBS_BEGIN@;
    let end = LSF_BATCH_BJOBS_END@;
    lemma_self_prefix(begin);
    lemma_other_marker(begin, begin, BATCH_TERMINAL@, 17);
    assert forall|scan: LsfScan, code: u32|
        #[trigger] probe::lsf_line(scan, end + text::decimal(code as nat)) == (LsfScan {
        in_bjobs: false,
        bjobs_exit: Some(code),
        ..scan
    }) by {
        let line = end + text::decimal(code as nat);
        lemma_exit_line(end, code);
        lemma_other_marker(line, end, BATCH_TERMINAL@, 17);
        lemma_other_marker(line, end, begin, 23);
    }
}

/// Whether the command asks the queue for the listed jobs between the two
/// markers, and prints each job with its state.
pub open spec fn asks_queue(
    command: Seq<char>,
    jobs: Seq<char>,
    begin: Seq<char>,
    end: Seq<char>,
) -> bool {
    text::has_part(
        command,
        "printf '"@ + begin + "\\n'; squeue -h -j "@ + text::shell_word(jobs)
            + " -o '%i|%T' 2>/dev/null; rw_sq=$?; printf '"@ + end + "%s\\n' \"$rw_sq\"; "@,
    )
}

/// Whether the command asks the accounts for the listed jobs between the two
/// markers, and prints each job with its state.
pub open spec fn asks_accounts(
    command: Seq<char>,
    jobs: Seq<char>,
    begin: Seq<char>,
    end: Seq<char>,
) -> bool {
    text::has_part(
        command,
        "printf '"@ + begin + "\\n'; sacct -j "@ + text::shell_word(jobs)
            + " -X -n -P -o JobIDRaw,State 2>/dev/null; rw_sa=$?; printf '"@ + end
            + "%s\\n' \"$rw_sa\"; "@,
    )
}

/// Whether the list names the jobs of the runs, each once and in their order.
pub open spec fn lists_jobs(jobs: Seq<char>, runs: Seq<RunRecordView>) -> bool {
    let asked = text::split_on(jobs, ',');
    &&& asked.len() == runs.len()
    &&& forall|i: int|
        0 <= i < runs.len() ==> Some(#[trigger] asked[i]) == runs[i].job_id
}

/// The question to Slurm about many runs asks the queue and then the accounts for
/// exactly the jobs of these runs, and frames each table by lines that the reader
/// takes for its start and its end.
pub proof fn slurm_tables_are_framed(runs: Seq<RunRecordView>)
    requires
        probe::batchable(runs, RunnerKind::Slurm),
        forall|i: int|
            0 <= i < runs.len() ==> !text::has_char((#[trigger] runs[i]).job_id->0, ','),
    ensures
        exists|jobs: Seq<char>, begin: Seq<char>, end: Seq<char>|
            {
                &&& lists_jobs(jobs, runs)
                &&& opens_queue(begin)
                &&& closes_queue(end)
                &&& #[trigger] asks_queue(probe::slurm_batch_question(runs), jobs, begin, end)
            },
        exists|jobs: Seq<char>, begin: Seq<char>, end: Seq<char>|
            {
                &&& lists_jobs(jobs, runs)
                &&& opens_accounts(begin)
                &&& closes_accounts(end)
                &&& #[trigger] asks_accounts(probe::slurm_batch_question(runs), jobs, begin, end)
            },
{
    let jobs = text::joined(runs.map_values(probe::job_of()), ","@);
    lemma_jobs_listed(runs);
    lemma_slurm_markers();
    lemma_slurm_question_parts(runs);
    let question = probe::slurm_batch_question(runs);
    assert(asks_queue(question, jobs, SLURM_BATCH_SQUEUE_BEGIN@, SLURM_BATCH_SQUEUE_END@));
    assert(asks_accounts(question, jobs, SLURM_BATCH_SACCT_BEGIN@, SLURM_BATCH_SACCT_END@));
}

proof fn lemma_jobs_listed(runs: Seq<RunRecordView>)
    requires
        probe::batchable(runs, RunnerKind::Slurm),
        forall|i: int|
            0 <= i < runs.len() ==> !text::has_char((#[trigger] runs[i]).job_id->0, ','),
    ensures
        lists_jobs(text::joined(runs.map_values(probe::job_of()), ","@), runs),
{
    let parts = runs.map_values(probe::job_of());
    let jobs = text::joined(parts, ","@);
    reveal_strlit(",");
    assert(","@ =~= seq![',']);
    assert forall|i: int| 0 <= i < parts.len() implies !text::has_char(#[trigger] parts[i], ',') by {
        assert(probe::batch_member(runs[i], RunnerKind::Slurm));
        assert(parts[i] == runs[i].job_id->0);
    }
    text::joined_list_is_split(parts, ',');
    assert forall|i: int| 0 <= i < runs.len() implies Some(
        #[trigger] text::split_on(jobs, ',')[i],
    ) == runs[i].job_id by {
        assert(probe::batch_member(runs[i], RunnerKind::Slurm));
        assert(parts[i] == runs[i].job_id->0);
    }
}

#[verifier::spinoff_prover]
#[verifier::rlimit(40)]
proof fn lemma_slurm_question_parts(runs: Seq<RunRecordView>)
    ensures
        asks_queue(
            probe::slurm_batch_question(runs),
            text::joined(runs.map_values(probe::job_of()), ","@),
            SLURM_BATCH_SQUEUE_BEGIN@,
            SLURM_BATCH_SQUEUE_END@,
        ),
        asks_accounts(
            probe::slurm_batch_question(runs),
            text::joined(runs.map_values(probe::job_of()), ","@),
            SLURM_BATCH_SACCT_BEGIN@,
            SLURM_BATCH_SACCT_END@,
        ),
{
    let question = probe::slurm_batch_question(runs);
    let word = text::shell_word(text::joined(runs.map_values(probe::job_of()), ","@));
    let checks = probe::terminal_checks(runs);
    let queue = "printf '"@ + SLURM_BATCH_SQUEUE_BEGIN@ + "\\n'; squeue -h -j "@ + word
        + " -o '%i|%T' 2>/dev/null; rw_sq=$?; printf '"@ + SLURM_BATCH_SQUEUE_END@
        + "%s\\n' \"$rw_sq\"; "@;
    let accounts = "printf '"@ + SLURM_BATCH_SACCT_BEGIN@ + "\\n'; sacct -j "@ + word
        + " -X -n -P -o JobIDRaw,State 2>/dev/null; rw_sa=$?; printf '"@ + SLURM_BATCH_SACCT_END@
        + "%s\\n' \"$rw_sa\"; "@;
    assert("%s\\n' \"$rw_sq\"; printf '"@ == "%s\\n' \"$rw_sq\"; "@ + "printf '"@) by {
        reveal_strlit("%s\\n' \"$rw_sq\"; printf '");
        reveal_strlit("%s\\n' \"$rw_sq\"; ");
        reveal_strlit("printf '");
        assert("%s\\n' \"$rw_sq\"; printf '"@ =~= "%s\\n' \"$rw_sq\"; "@ + "printf '"@);
    }
    assert("%s\\n' \"$rw_sa\"; exit 0"@ == "%s\\n' \"$rw_sa\"; "@ + "exit 0"@) by {
        reveal_strlit("%s\\n' \"$rw_sa\"; exit 0");
        reveal_strlit("%s\\n' \"$rw_sa\"; ");
        reveal_strlit("exit 0");
        assert("%s\\n' \"$rw_sa\"; exit 0"@ =~= "%s\\n' \"$rw_sa\"; "@ + "exit 0"@);
    }
    assert(question =~= checks + queue + (accounts + "exit 0"@));
    text::lemma_part_within(checks, queue, accounts + "exit 0"@);
    assert(question =~= (checks + queue) + accounts + "exit 0"@);
    text::lemma_part_within(checks + queue, accounts, "exit 0"@);
}

/// Whether the command asks LSF for the jobs of the runs between the two markers,
/// and prints each job with its state.
pub open spec fn asks_jobs(
    command: Seq<char>,
    runs: Seq<RunRecordView>,
    begin: Seq<char>,
    end: Seq<char>,
) -> bool {
    let words = Seq::new(runs.len(), |i: int| text::shell_word(runs[i].job_id->0));
    text::has_part(
        command,
        "printf '"@ + begin + "\\n'; bjobs -a -noheader -o 'jobid stat' "@ + text::joined(
            words,
            " "@,
        ) + " 2>/dev/null; rw_bj=$?; printf '"@ + end + "%s\\n' \"$rw_bj\"; "@,
    )
}

/// The question to LSF about many runs asks for exactly the jobs of these runs,
/// each as a word of its own, and frames the table by lines that the reader takes
/// for its start and its end.
#[verifier::spinoff_prover]
#[verifier::rlimit(40)]
pub proof fn lsf_table_is_framed(runs: Seq<RunRecordView>)
    requires
        probe::batchable(runs, RunnerKind::Lsf),
    ensures
        exists|begin: Seq<char>, end: Seq<char>|
            opens_jobs(begin) && closes_jobs(end) && #[trigger] asks_jobs(
                probe::lsf_batch_question(runs),
                runs,
                begin,
                end,
            ),
{
    let words = Seq::new(runs.len(), |i: int| text::shell_word(runs[i].job_id->0));
    assert forall|i: int| 0 <= i < runs.len() implies words[i] == #[trigger] runs.map_values(
        probe::quoted_job(),
    )[i] by {
        assert(probe::batch_member(runs[i], RunnerKind::Lsf));
    }
    assert(words =~= runs.map_values(probe::quoted_job()));
    lemma_lsf_markers();
    let checks = probe::terminal_checks(runs);
    let piece = "printf '"@ + LSF_BATCH_BJOBS_BEGIN@ + "\\n'; bjobs -a -noheader -o 'jobid stat' "@
        + text::joined(words, " "@) + " 2>/dev/null; rw_bj=$?; printf '"@ + LSF_BATCH_BJOBS_END@
        + "%s\\n' \"$rw_bj\"; "@;
    reveal_strlit("%s\\n' \"$rw_bj\"; exit 0");
    reveal_strlit("%s\\n' \"$rw_bj\"; ");
    reveal_strlit("exit 0");
    assert("%s\\n' \"$rw_bj\"; exit 0"@ =~= "%s\\n' \"$rw_bj\"; "@ + "exit 0"@);
    assert(probe::lsf_batch_question(runs) =~= checks + piece + "exit 0"@);
    text::lemma_part_within(checks, piece, "exit 0"@);
    assert(asks_jobs(
        probe::lsf_batch_question(runs),
        runs,
        LSF_BATCH_BJOBS_BEGIN@,
        LSF_BATCH_BJOBS_END@,
    ));
}

/// A row of a table is read as the job and the state that stand in it; it is
/// taken for no other line.
pub proof fn table_rows_are_read(slurm: SlurmScan, lsf: LsfScan, job: Seq<char>, state: Seq<char>)
    requires
        plain_word(job),
        plain_word(state),
        text::is_digit(job[0]),
    ensures
        slurm.section == SlurmSection::Squeue ==> probe::slurm_line(slurm, job + "|"@ + state) == (
        SlurmScan { squeue: slurm.squeue.push((job, state)), ..slurm }),
        slurm.section == SlurmSection::Sacct ==> probe::slurm_line(slurm, job + "|"@ + state) == (
        SlurmScan { sacct: slurm.sacct.push((job, state)), ..slurm }),
        slurm.section == SlurmSection::Outside ==> probe::slurm_line(slurm, job + "|"@ + state)
            == slurm,
        lsf.in_bjobs ==> probe::lsf_line(lsf, job + " "@ + state) == (LsfScan {
            states: lsf.states.push((job, state)),
            ..lsf
        }),
{
    lemma_marker_texts();
    reveal_strlit("|");
    reveal_strlit(" ");
    assert("|"@ =~= seq!['|']);
    assert(" "@ =~= seq![' ']);
    let row = job + "|"@ + state;
    let words = job + " "@ + state;
    assert(row[0] == job[0] && words[0] == job[0]);
    assert(!text::has_prefix(row, BATCH_TERMINAL@) && !text::has_prefix(words, BATCH_TERMINAL@)) by {
        lemma_not_marker(row, BATCH_TERMINAL@);
        lemma_not_marker(words, BATCH_TERMINAL@);
    }
    lemma_not_marker(row, SLURM_BATCH_SQUEUE_BEGIN@);
    lemma_not_marker(row, SLURM_BATCH_SQUEUE_END@);
    lemma_not_marker(row, SLURM_BATCH_SACCT_BEGIN@);
    lemma_not_marker(row, SLURM_BATCH_SACCT_END@);
    lemma_not_marker(words, LSF_BATCH_BJOBS_BEGIN@);
    lemma_not_marker(words, LSF_BATCH_BJOBS_END@);
    lemma_plain_word(job);
    lemma_plain_word(state);
    text::split_pair_is_put_together(job, state, '|');
    text::lemma_split_head(job, state, '|');
    text::lemma_split_single(state, '|');
    assert(text::split_on(row, '|') =~= seq![job, state]);
    lemma_two_words(job, state);
}

/// A word without white and without the bar that parts the columns.
pub open spec fn plain_word(word: Seq<char>) -> bool {
    &&& word.len() > 0
    &&& forall|i: int| 0 <= i < word.len() ==> !text::is_white_char(#[trigger] word[i]) && word[i]
        != '|'
}

proof fn lemma_not_marker(line: Seq<char>, marker: Seq<char>)
    requires
        line.len() > 0,
        text::is_digit(line[0]),
        marker.len() > 0,
        marker[0] == '_',
    ensures
        !text::has_prefix(line, marker),
        line != marker,
{
    if text::has_prefix(line, marker) {
        lemma_prefix_chars(line, marker);
        assert(line[0] == marker[0]);
    }
}

proof fn lemma_plain_word(word: Seq<char>)
    requires
        plain_word(word),
    ensures
        text::trimmed(word) == word,
        !text::has_char(word, '|'),
{
    text::trimming_takes_only_white(word);
    let (before, after) = choose|before: Seq<char>, after: Seq<char>|
        word == #[trigger] (before + text::trimmed(word) + after) && text::all_white(before)
            && text::all_white(after);
    if before.len() > 0 {
        assert(word[0] == before[0]);
    }
    if after.len() > 0 {
        assert(word[word.len() - 1] == after[after.len() - 1]);
    }
    assert(before + text::trimmed(word) + after =~= text::trimmed(word));
    if word.contains('|') {
        let k = choose|k: int| 0 <= k < word.len() && word[k] == '|';
        assert(word[k] != '|');
    }
}

proof fn lemma_two_words(first: Seq<char>, second: Seq<char>)
    requires
        plain_word(first),
        plain_word(second),
    ensures
        text::words_of(first + seq![' '] + second) == seq![first, second],
{
    let line = first + seq![' '] + second;
    assert(line[0] == first[0]);
    seqs::lemma_until(line, text::is_solid(), 0);
    assert(text::trim_start(line) =~= line);
    assert forall|j: int| 0 <= j < first.len() implies !text::is_white()(#[trigger] line[j]) by {
        assert(line[j] == first[j]);
    }
    assert(line[first.len() as int] == ' ');
    seqs::lemma_until(line, text::is_white(), first.len());
    let rest = line.skip(first.len() as int);
    assert(rest =~= seq![' '] + second);
    assert(rest[1] == second[0]);
    seqs::lemma_until(rest, text::is_solid(), 1);
    assert(text::trim_start(rest) =~= second);
    assert forall|j: int| 0 <= j < second.len() implies !text::is_white()(#[trigger] second[j]) by {}
    seqs::lemma_until(second, text::is_white(), second.len());
    assert(second.take(second.len() as int) =~= second);
    let none = second.skip(second.len() as int);
    assert(none =~= Seq::<char>::empty());
    seqs::lemma_until(none, text::is_solid(), 0);
    assert(text::words_of(none) =~= Seq::<Seq<char>>::empty()) by {
        assert(text::trim_start(none).len() == 0);
    }
    assert(text::words_of(rest) =~= seq![second]);
    assert(line.take(first.len() as int) =~= first);
    assert(text::words_of(line) =~= seq![first] + text::words_of(rest));
}

/// Without a file of its end, a run is what Slurm says of its own job: the first
/// row for it in the queue, or where the queue has none the first row in the
/// accounts. What Slurm says of other jobs does not count.
pub proof fn slurm_row_decides(scan: SlurmScan, run: RunRecordView, index: nat, k: int)
    requires
        run.job_id is Some,
        probe::terminal_of(scan.terminals, index) is None,
    ensures
        ({
            let probe = probe::slurm_batch_result(scan, run, index).probe;
            let job = run.job_id->0;
            &&& probe.source == ObservationSource::Scheduler
            &&& first_row(scan.squeue, job, k) ==> row_decided(
                probe,
                run,
                scan.squeue[k].1,
                probe::slurm_status(scan.squeue[k].1),
            )
            &&& no_row(scan.squeue, job) && first_row(scan.sacct, job, k) ==> row_decided(
                probe,
                run,
                scan.sacct[k].1,
                probe::slurm_status(scan.sacct[k].1),
            )
            &&& no_row(scan.squeue, job) && no_row(scan.sacct, job) ==> !probe.recognized
                && probe.status == run.status
        }),
{
    let job = run.job_id->0;
    lemma_first_row(scan.squeue, job, k);
    lemma_first_row(scan.sacct, job, k);
}

/// Without a file of its end, a run is what LSF says of its own job in the first
/// row for it.
pub proof fn lsf_row_decides(scan: LsfScan, run: RunRecordView, index: nat, k: int)
    requires
        run.job_id is Some,
        probe::terminal_of(scan.terminals, index) is None,
    ensures
        ({
            let probe = probe::lsf_batch_result(scan, run, index).probe;
            let job = run.job_id->0;
            &&& probe.source == ObservationSource::Scheduler
            &&& first_row(scan.states, job, k) ==> row_decided(
                probe,
                run,
                scan.states[k].1,
                probe::lsf_status(scan.states[k].1),
            )
            &&& no_row(scan.states, job) ==> !probe.recognized && probe.status == run.status
        }),
{
    lemma_first_row(scan.states, run.job_id->0, k);
}

/// Whether the row `k` is the first one for the job.
pub open spec fn first_row(rows: Seq<(Seq<char>, Seq<char>)>, job: Seq<char>, k: int) -> bool {
    &&& 0 <= k < rows.len()
    &&& rows[k].0 == job
    &&& forall|j: int| 0 <= j < k ==> (#[trigger] rows[j]).0 != job
}

pub open spec fn no_row(rows: Seq<(Seq<char>, Seq<char>)>, job: Seq<char>) -> bool {
    forall|j: int| 0 <= j < rows.len() ==> (#[trigger] rows[j]).0 != job
}

/// Whether the probe says what a scheduler said.
pub open spec fn row_decided(
    probe: ProbeInterpretationView,
    run: RunRecordView,
    said: Seq<char>,
    status: RunStatus,
) -> bool {
    &&& probe.raw_state == said
    &&& if status == RunStatus::Unknown {
        !probe.recognized && probe.status == run.status
    } else {
        probe.recognized && probe.status == status
    }
}

proof fn lemma_first_row(rows: Seq<(Seq<char>, Seq<char>)>, job: Seq<char>, k: int)
    ensures
        first_row(rows, job, k) ==> probe::state_of(rows, job) == Some(rows[k].1),
        no_row(rows, job) ==> probe::state_of(rows, job) is None,
{
    if first_row(rows, job, k) {
        seqs::lemma_until(rows, probe::by_job(job), k as nat);
    }
    if no_row(rows, job) {
        seqs::lemma_until(rows, probe::by_job(job), rows.len());
    }
}

// ---------------------------------------------------------------------------
// The file of a run's end
// ---------------------------------------------------------------------------

/// A single small word is read as it stands, both alone and as the status of a
/// document.
pub proof fn lemma_plain_end(word: Seq<char>)
    requires
        plain_word(word),
        word[0] != '{',
        text::ascii_lower(word) == word,
    ensures
        probe::terminal_status(word) == probe::terminal_word(word),
        forall|document: Seq<char>|
            #[trigger] probe::json_text_member(document, "status"@) == Some(word)
                && text::has_prefix(document, "{"@) && text::trimmed(document) == document
                && word.len() < document.len() ==> probe::terminal_status(document)
                == probe::terminal_word(word),
{
    reveal_strlit("{");
    lemma_plain_word(word);
    lemma_one_word(word);
    assert(!text::has_prefix(word, "{"@)) by {
        if text::has_prefix(word, "{"@) {
            lemma_prefix_chars(word, "{"@);
            assert("{"@[0] == '{');
        }
    }
    assert(probe::leading_word(word) == word);
    assert(probe::terminal_status(word) == probe::terminal_word(word));
}

proof fn lemma_one_word(word: Seq<char>)
    requires
        plain_word(word),
    ensures
        text::lines_of(word) == seq![word],
        text::words_of(word) == seq![word],
{
    assert forall|j: int| 0 <= j < word.len() implies !text::is_char('\n')(#[trigger] word[j]) by {
        assert(!text::is_white_char(word[j]));
    }
    seqs::lemma_until(word, text::is_char('\n'), word.len());
    seqs::lemma_until(word, text::is_solid(), 0);
    assert(text::trim_start(word) =~= word);
    assert forall|j: int| 0 <= j < word.len() implies !text::is_white()(#[trigger] word[j]) by {}
    seqs::lemma_until(word, text::is_white(), word.len());
    assert(word.take(word.len() as int) =~= word);
    let none = word.skip(word.len() as int);
    assert(none =~= Seq::<char>::empty());
    seqs::lemma_until(none, text::is_solid(), 0);
    assert(text::words_of(none) =~= Seq::<Seq<char>>::empty()) by {
        assert(text::trim_start(none).len() == 0);
    }
    assert(text::words_of(word) =~= seq![word]);
}

// ---------------------------------------------------------------------------
// The question to a scheduler
// ---------------------------------------------------------------------------

/// Slurm is asked about the job of the run and about no other: first the queue
/// for its state, and where the queue does not know it the accounts.
pub proof fn slurm_is_asked_about_the_job(run: RunRecordView)
    requires
        run.runner == RunnerKind::Slurm,
    ensures
        run.job_id is None ==> probe::scheduler_question(run) is None,
        run.job_id matches Some(job) ==> probe::scheduler_question(run) == Some(
            "state=$(squeue -h -j "@ + text::shell_word(job)
                + " -o '%T' 2>/dev/null | head -n 1); if [ -n \"$state\" ]; then printf '%s\\n' \"$state\"; else sacct -j "@
                + text::shell_word(job)
                + " -X -n -P -o State 2>/dev/null | head -n 1 | cut -d'|' -f1; fi"@,
        ),
{
}

/// Whether LSF's own record of a job is read: where it tells of a failure the one
/// word is printed, and where it tells of a success the other.
pub open spec fn reads_record(question: Seq<char>, failure: Seq<char>, success: Seq<char>) -> bool {
    text::has_part(
        question,
        "case \"$event\" in *'Post job process failed'*|*'Exited'*|*'Completed <exit>'*) printf '"@
            + failure
            + "\\n';; *'Post job process done successfully'*|*'Done successfully'*) printf '"@
            + success + "\\n';; esac; fi"@,
    )
}

/// LSF is asked about the job of the run and about no other: first for its state,
/// and where it does not know it any more by its record, from which a failure is
/// told as a state of failure and a success as one of success.
pub proof fn lsf_is_asked_about_the_job(run: RunRecordView)
    requires
        run.runner == RunnerKind::Lsf,
        run.job_id is Some,
    ensures
        probe::scheduler_question(run) matches Some(question) && ({
            let word = text::shell_word(run.job_id->0);
            &&& text::has_prefix(
                question,
                "state=$(bjobs -a -noheader -o stat "@ + word
                    + " 2>/dev/null | head -n 1 | awk '{print $1}'); if [ -n \"$state\" ]; then printf '%s\\n' \"$state\"; else event=$(bhist -l "@
                    + word,
            )
            &&& exists|failure: Seq<char>, success: Seq<char>|
                probe::lsf_status(failure) == RunStatus::Failed && probe::lsf_status(success)
                    == RunStatus::Succeeded && #[trigger] reads_record(question, failure, success)
        }),
{
    let word = text::shell_word(run.job_id->0);
    let question = probe::scheduler_question(run)->0;
    let head = "state=$(bjobs -a -noheader -o stat "@ + word
        + " 2>/dev/null | head -n 1 | awk '{print $1}'); if [ -n \"$state\" ]; then printf '%s\\n' \"$state\"; else event=$(bhist -l "@
        + word;
    assert(question.take(head.len() as int) =~= head);
    lemma_record_words();
    let front = " 2>/dev/null | grep -E 'Done successfully|Post job process done successfully|Post job process failed|Exited|Completed <exit>' | tail -n 1); "@;
    let part = "case \"$event\" in *'Post job process failed'*|*'Exited'*|*'Completed <exit>'*) printf '"@
        + "EXIT"@ + "\\n';; *'Post job process done successfully'*|*'Done successfully'*) printf '"@
        + "DONE"@ + "\\n';; esac; fi"@;
    assert(question =~= (head + front) + part + Seq::<char>::empty());
    text::lemma_part_within(head + front, part, Seq::empty());
    assert(reads_record(question, "EXIT"@, "DONE"@));
    lemma_plain_state("EXIT"@);
    lemma_plain_state("DONE"@);
    lsf_states("EXIT"@);
    lsf_states("DONE"@);
}

proof fn lemma_plain_state(word: Seq<char>)
    requires
        word == "EXIT"@ || word == "DONE"@,
    ensures
        text::ascii_upper(text::trimmed(word)) == word,
{
    reveal_strlit("EXIT");
    reveal_strlit("DONE");
    assert(plain_word(word)) by {
        assert forall|i: int| 0 <= i < word.len() implies !text::is_white_char(#[trigger] word[i])
            && word[i] != '|' by {
            if word == "EXIT"@ {
                assert(word[i] == "EXIT"@[i]);
            } else {
                assert(word[i] == "DONE"@[i]);
            }
        }
    }
    lemma_plain_word(word);
    assert(text::ascii_upper(word) =~= word);
}

#[verifier::spinoff_prover]
#[verifier::rlimit(100)]
proof fn lemma_record_words()
    ensures
        " 2>/dev/null | grep -E 'Done successfully|Post job process done successfully|Post job process failed|Exited|Completed <exit>' | tail -n 1); case \"$event\" in *'Post job process failed'*|*'Exited'*|*'Completed <exit>'*) printf 'EXIT\\n';; *'Post job process done successfully'*|*'Done successfully'*) printf 'DONE\\n';; esac; fi"@
            == " 2>/dev/null | grep -E 'Done successfully|Post job process done successfully|Post job process failed|Exited|Completed <exit>' | tail -n 1); "@
            + ("case \"$event\" in *'Post job process failed'*|*'Exited'*|*'Completed <exit>'*) printf '"@
            + "EXIT"@ + "\\n';; *'Post job process done successfully'*|*'Done successfully'*) printf '"@
            + "DONE"@ + "\\n';; esac; fi"@),
{
    reveal_strlit(" 2>/dev/null | grep -E 'Done successfully|Post job process done successfully|Post job process failed|Exited|Completed <exit>' | tail -n 1); case \"$event\" in *'Post job process failed'*|*'Exited'*|*'Completed <exit>'*) printf 'EXIT\\n';; *'Post job process done successfully'*|*'Done successfully'*) printf 'DONE\\n';; esac; fi");
    reveal_strlit(" 2>/dev/null | grep -E 'Done successfully|Post job process done successfully|Post job process failed|Exited|Completed <exit>' | tail -n 1); ");
    reveal_strlit("case \"$event\" in *'Post job process failed'*|*'Exited'*|*'Completed <exit>'*) printf '");
    reveal_strlit("EXIT");
    reveal_strlit("\\n';; *'Post job process done successfully'*|*'Done successfully'*) printf '");
    reveal_strlit("DONE");
    reveal_strlit("\\n';; esac; fi");
    assert(" 2>/dev/null | grep -E 'Done successfully|Post job process done successfully|Post job process failed|Exited|Completed <exit>' | tail -n 1); case \"$event\" in *'Post job process failed'*|*'Exited'*|*'Completed <exit>'*) printf 'EXIT\\n';; *'Post job process done successfully'*|*'Done successfully'*) printf 'DONE\\n';; esac; fi"@
        =~= " 2>/dev/null | grep -E 'Done successfully|Post job process done successfully|Post job process failed|Exited|Completed <exit>' | tail -n 1); "@
        + ("case \"$event\" in *'Post job process failed'*|*'Exited'*|*'Completed <exit>'*) printf '"@
        + "EXIT"@ + "\\n';; *'Post job process done successfully'*|*'Done successfully'*) printf '"@
        + "DONE"@ + "\\n';; esac; fi"@));
}

/// Only runs of a scheduler are asked about there, and only where they have a
/// job.
pub proof fn only_jobs_are_asked_about(run: RunRecordView)
    ensures
        probe::scheduler_question(run) is Some <==> run.job_id is Some && (run.runner
            == RunnerKind::Slurm || run.runner == RunnerKind::Lsf),
        probe::remote_question(run) is None <==> run.remote_terminal is None
            && probe::scheduler_question(run) is None,
{
}

/// An answer without a marker is read as the file of the run's end where the run
/// has one and the answer tells an end, and otherwise as the scheduler's word; it
/// is told from a marked one.
pub proof fn unmarked_answer_is_read(run: RunRecordView, stdout: Seq<char>)
    requires
        !text::has_prefix(stdout, SENTINEL_MARKER@),
        !text::has_prefix(stdout, SCHEDULER_MARKER@),
    ensures
        ({
            let seen = probe::observation(run, stdout);
            let ended = run.remote_terminal is Some && probe::terminal_status(stdout) is Some;
            &&& seen.source == ObservationSource::Compatibility
            &&& seen.raw_state == text::trimmed(stdout)
            &&& ended ==> seen.recognized && seen.status == probe::terminal_status(stdout)->0
            &&& !ended && run.runner == RunnerKind::Slurm && probe::slurm_status(stdout)
                != RunStatus::Unknown ==> seen.recognized && seen.status == probe::slurm_status(
                stdout,
            )
            &&& !ended && run.runner == RunnerKind::Lsf && probe::lsf_status(stdout)
                != RunStatus::Unknown ==> seen.recognized && seen.status == probe::lsf_status(
                stdout,
            )
            &&& !ended && run.runner != RunnerKind::Slurm && run.runner != RunnerKind::Lsf
                ==> !seen.recognized
        }),
{
    lemma_trimmed_twice(stdout);
}

} // verus!
