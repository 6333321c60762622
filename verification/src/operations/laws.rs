//! What the commands on a host print of the files of a run.
use crate::operations;
use crate::operations::{CancelStep, LogSource, RunArtifactView};
use crate::paths::PathStyle;
use crate::seqs;
use crate::store;
use crate::store::laws;
use crate::store::StoreView;
use crate::text;
use crate::time::Timestamp;
use crate::types::{RunAttemptRecordView, RunRecordView, RunStatus, RunnerKind};
use vstd::prelude::*;

verus! {

// ---------------------------------------------------------------------------
// The commands that take the end or the start of a text
// ---------------------------------------------------------------------------

/// A command that takes a part of what it reads.
pub enum Cut {
    /// `tail -n`, which prints the last lines.
    LastLines(nat),
    /// `tail -c`, which prints the last bytes.
    LastBytes(nat),
    /// `head -n`, which prints the first lines.
    FirstLines(nat),
}

/// How the command is written.
pub open spec fn cut_text(cut: Cut) -> Seq<char> {
    match cut {
        Cut::LastLines(count) => "tail -n "@ + text::decimal(count),
        Cut::LastBytes(count) => "tail -c "@ + text::decimal(count),
        Cut::FirstLines(count) => "head -n "@ + text::decimal(count),
    }
}

/// What the command prints of a text.
pub open spec fn cut_of(cut: Cut, body: Seq<char>) -> Seq<char> {
    match cut {
        Cut::LastLines(count) => lines_from_end(body, count),
        Cut::LastBytes(count) => bytes_from_end(body, count),
        Cut::FirstLines(count) => body.take(
            body.len() - lines_from_end(body, rest_of(text::lines_of(body).len(), count)).len(),
        ),
    }
}

pub open spec fn rest_of(all: nat, count: nat) -> nat {
    if all > count {
        (all - count) as nat
    } else {
        0
    }
}

/// The text from the start of its last lines on: lines are left out at its start
/// until no more than `count` are left.
pub open spec fn lines_from_end(body: Seq<char>, count: nat) -> Seq<char>
    decreases body.len(),
{
    let end = seqs::until(body, text::is_char('\n'));
    if text::lines_of(body).len() <= count {
        body
    } else if end >= body.len() {
        Seq::empty()
    } else {
        lines_from_end(body.skip((end + 1) as int), count)
    }
}

/// The text from the start of its last bytes on: characters are left out at its
/// start until no more than `count` bytes are left.
pub open spec fn bytes_from_end(body: Seq<char>, count: nat) -> Seq<char>
    decreases body.len(),
{
    if body.len() == 0 || text::byte_len(body) <= count {
        body
    } else {
        bytes_from_end(body.skip(1), count)
    }
}

/// Whether the command, where the file is there, runs the one command on it and
/// the other one on what that prints.
pub open spec fn cuts_file(command: Seq<char>, path: Seq<char>, first: Cut, second: Cut) -> bool {
    command == "if [ -f "@ + text::shell_word(path) + " ]; then "@ + cut_text(first) + " -- "@
        + text::shell_word(path) + " 2>/dev/null | "@ + cut_text(second) + "; fi"@
}

/// The command for the end of a log prints, of a file with any text, the last
/// lines of the text, as many as were asked for, and of them no more than the last
/// 65536 bytes.
pub proof fn log_command_prints_the_end(path: Seq<char>, tail_lines: nat)
    ensures
        exists|first: Cut, second: Cut|
            {
                &&& #[trigger] cuts_file(operations::tail_of(path, tail_lines), path, first, second)
                &&& forall|body: Seq<char>|
                    {
                        let lines = #[trigger] cut_of(first, body);
                        let shown = cut_of(second, lines);
                        &&& text::lines_of(lines) == seqs::last_items(
                            text::lines_of(body),
                            tail_lines,
                        )
                        &&& ends_with(body, lines)
                        &&& ends_with(lines, shown)
                        &&& text::byte_len(shown) <= 65536
                        &&& text::byte_len(lines) <= 65536 ==> shown == lines
                    }
            },
{
    let first = Cut::LastLines(tail_lines);
    let second = Cut::LastBytes(65536);
    assert(" ]; then tail -n "@ == " ]; then "@ + "tail -n "@ && " 2>/dev/null | tail -c "@
        == " 2>/dev/null | "@ + "tail -c "@) by {
        reveal_strlit(" ]; then tail -n ");
        reveal_strlit(" ]; then ");
        reveal_strlit("tail -n ");
        reveal_strlit(" 2>/dev/null | tail -c ");
        reveal_strlit(" 2>/dev/null | ");
        reveal_strlit("tail -c ");
        assert(" ]; then tail -n "@ =~= " ]; then "@ + "tail -n "@);
        assert(" 2>/dev/null | tail -c "@ =~= " 2>/dev/null | "@ + "tail -c "@);
    }
    assert(operations::tail_of(path, tail_lines) =~= "if [ -f "@ + text::shell_word(path)
        + " ]; then "@ + cut_text(first) + " -- "@ + text::shell_word(path) + " 2>/dev/null | "@
        + cut_text(second) + "; fi"@);
    assert(cuts_file(operations::tail_of(path, tail_lines), path, first, second));
    assert forall|body: Seq<char>| ({
        let lines = #[trigger] cut_of(first, body);
        let shown = cut_of(second, lines);
        &&& text::lines_of(lines) == seqs::last_items(text::lines_of(body), tail_lines)
        &&& ends_with(body, lines)
        &&& ends_with(lines, shown)
        &&& text::byte_len(shown) <= 65536
        &&& text::byte_len(lines) <= 65536 ==> shown == lines
    }) by {
        lemma_lines_from_end(body, tail_lines);
        lemma_bytes_from_end(cut_of(first, body), 65536);
    }
}

/// Whether a text ends with another one.
pub open spec fn ends_with(body: Seq<char>, end: Seq<char>) -> bool {
    end.len() <= body.len() && end == body.skip(body.len() - end.len())
}

proof fn lemma_lines_from_end(body: Seq<char>, count: nat)
    ensures
        text::lines_of(lines_from_end(body, count)) == seqs::last_items(
            text::lines_of(body),
            count,
        ),
        ends_with(body, lines_from_end(body, count)),
    decreases body.len(),
{
    let end = seqs::until(body, text::is_char('\n'));
    let all = text::lines_of(body);
    if all.len() <= count {
        assert(seqs::last_items(all, count) =~= all);
        assert(body.skip(0) =~= body);
    } else if end >= body.len() {
        assert(all =~= seq![body]);
        assert(count == 0);
        assert(seqs::last_items(all, count) =~= Seq::<Seq<char>>::empty());
        assert(body.skip(body.len() as int) =~= Seq::<char>::empty());
    } else {
        let rest = body.skip((end + 1) as int);
        lemma_lines_from_end(rest, count);
        let first = text::without_return(body.take(end as int));
        assert(all == seq![first] + text::lines_of(rest));
        assert(seqs::last_items(all, count) =~= seqs::last_items(text::lines_of(rest), count));
        let kept = lines_from_end(rest, count);
        assert(rest.skip(rest.len() - kept.len()) =~= body.skip(body.len() - kept.len()));
    }
}

proof fn lemma_bytes_from_end(body: Seq<char>, count: nat)
    ensures
        text::byte_len(bytes_from_end(body, count)) <= count,
        ends_with(body, bytes_from_end(body, count)),
        text::byte_len(body) <= count ==> bytes_from_end(body, count) == body,
    decreases body.len(),
{
    if body.len() == 0 || text::byte_len(body) <= count {
        assert(body.skip(0) =~= body);
        if body.len() == 0 {
            assert(vstd::utf8::encode_utf8(body).len() == 0);
        }
    } else {
        let rest = body.skip(1);
        lemma_bytes_from_end(rest, count);
        let kept = bytes_from_end(rest, count);
        assert(rest.skip(rest.len() - kept.len()) =~= body.skip(body.len() - kept.len()));
    }
}

// ---------------------------------------------------------------------------
// Which logs, and how much of them
// ---------------------------------------------------------------------------

/// What the end of a log that lies on this machine shows: a line that was written
/// last is shown last, whatever stood before it.
pub proof fn last_line_is_shown_last(body: Seq<char>, line: Seq<char>, tail_lines: nat)
    requires
        tail_lines >= 1,
        body.len() == 0 || body.last() == '\n',
        line.len() > 0,
        !text::has_char(line, '\n'),
        line.last() != '\r',
    ensures
        ends_with(operations::last_lines(body + line + "\n"@, tail_lines), line + "\n"@),
        text::lines_of(body + line + "\n"@) == text::lines_of(body).push(line),
{
    reveal_strlit("\n");
    assert("\n"@ =~= seq!['\n']);
    lemma_line_added(body, line);
    let all = text::lines_of(body + line + "\n"@);
    let kept = seqs::last_items(all, tail_lines);
    assert(kept.len() > 0 && kept.last() == line);
    let shown = text::joined(kept, "\n"@);
    assert(ends_with(shown, line)) by {
        if kept.len() == 1 {
            assert(shown == line);
            assert(line.skip(0) =~= line);
        } else {
            let head = text::joined(kept.drop_last(), "\n"@) + "\n"@;
            assert(shown == head + line);
            assert((head + line).skip(head.len() as int) =~= line);
        }
    }
    let whole = shown + "\n"@;
    assert(whole.skip(whole.len() - (line + "\n"@).len()) =~= line + "\n"@) by {
        let tail = shown.skip(shown.len() - line.len());
        assert(tail == line);
        assert(whole.skip(whole.len() - (line + "\n"@).len()) =~= tail + "\n"@);
    }
}

proof fn lemma_line_added(body: Seq<char>, line: Seq<char>)
    requires
        body.len() == 0 || body.last() == '\n',
        line.len() > 0,
        !text::has_char(line, '\n'),
        line.last() != '\r',
    ensures
        text::lines_of(body + line + seq!['\n']) == text::lines_of(body).push(line),
    decreases body.len(),
{
    let whole = body + line + seq!['\n'];
    if body.len() == 0 {
        assert forall|j: int| 0 <= j < line.len() implies !text::is_char('\n')(#[trigger] whole[j]) by {
            assert(whole[j] == line[j]);
            assert(line.contains(line[j]));
        }
        assert(whole[line.len() as int] == '\n');
        seqs::lemma_until(whole, text::is_char('\n'), line.len());
        assert(whole.take(line.len() as int) =~= line);
        let rest = whole.skip((line.len() + 1) as int);
        assert(rest =~= Seq::<char>::empty());
        assert(text::lines_of(rest) =~= Seq::<Seq<char>>::empty());
        assert(text::lines_of(body) =~= Seq::<Seq<char>>::empty());
        assert(text::without_return(line) == line);
        assert(text::lines_of(whole) =~= seq![line]);
    } else {
        let end = seqs::until(body, text::is_char('\n'));
        seqs::lemma_until_bounds(body, text::is_char('\n'));
        assert(end < body.len()) by {
            if end >= body.len() {
                assert(!text::is_char('\n')(body[body.len() - 1]));
            }
        }
        assert forall|j: int| 0 <= j < end implies !text::is_char('\n')(#[trigger] whole[j]) by {
            assert(whole[j] == body[j]);
        }
        assert(whole[end as int] == body[end as int]);
        seqs::lemma_until(whole, text::is_char('\n'), end);
        let rest = body.skip((end + 1) as int);
        assert(whole.skip((end + 1) as int) =~= rest + line + seq!['\n']);
        assert(whole.take(end as int) =~= body.take(end as int));
        if rest.len() > 0 {
            assert(rest.last() == body.last());
        }
        lemma_line_added(rest, line);
        let first = text::without_return(body.take(end as int));
        assert(text::lines_of(body) == seq![first] + text::lines_of(rest));
        assert(text::lines_of(whole) == seq![first] + text::lines_of(rest).push(line));
        assert(seq![first] + text::lines_of(rest).push(line) =~= (seq![first] + text::lines_of(
            rest,
        )).push(line));
    }
}

/// As many lines are shown as are asked for, eighty where nothing is said, but at
/// least one and at most five hundred.
pub proof fn shown_lines_are_bounded(tail: Option<usize>)
    ensures
        1 <= operations::shown_lines(tail) <= 500,
        tail is None ==> operations::shown_lines(tail) == 80,
        tail is Some && 1 <= tail->0 <= 500 ==> operations::shown_lines(tail) == tail->0,
        tail is Some && tail->0 > 500 ==> operations::shown_lines(tail) == 500,
{
}

/// What is read as the one log of an attempt is that log and not the other one,
/// on this machine where the process ran here and otherwise on the host of the
/// attempt.
pub proof fn logs_are_not_mixed_up(source: LogSource, attempt: RunAttemptRecordView, tail_lines: nat)
    requires
        operations::reads_logs(source, attempt, tail_lines),
    ensures
        source is Local <==> attempt.runner == RunnerKind::Process,
        source matches LogSource::Local { stdout_path, stderr_path } ==> stdout_path@
            == attempt.stdout_path && stderr_path@ == attempt.stderr_path,
        source matches LogSource::Remote { host, stdout_command, stderr_command } ==> host@
            == attempt.host && (exists|first: Cut, second: Cut|
            #[trigger] cuts_file(stdout_command@, attempt.stdout_path, first, second)) && (exists|
            first: Cut,
            second: Cut,
        |
            #[trigger] cuts_file(stderr_command@, attempt.stderr_path, first, second)),
{
    log_command_prints_the_end(attempt.stdout_path, tail_lines);
    log_command_prints_the_end(attempt.stderr_path, tail_lines);
}

/// What is asked about is the attempt that was named, or where none was named the
/// one at which the run is; it is an attempt of that run as the ledger has it.
pub proof fn asked_attempt_is_the_named_one(
    s: StoreView,
    run_id: Seq<char>,
    requested: Option<u32>,
)
    ensures
        operations::asked_attempt(s, run_id, requested) matches Ok(attempt) ==> ({
            &&& s.run(run_id) is Some
            &&& attempt.run_id == run_id
            &&& requested matches Some(number) ==> attempt.attempt_no == number
            &&& requested is None ==> s.run(run_id)->0.attempt_no == Some(attempt.attempt_no)
            &&& s.attempt(run_id, attempt.attempt_no) == Some(attempt)
        }),
        s.run(run_id) is None ==> operations::asked_attempt(s, run_id, requested) is Err,
        s.run(run_id) is Some && (match requested {
            Some(number) => s.attempt(run_id, number) is Some,
            None => s.run(run_id)->0.attempt_no matches Some(number) && s.attempt(run_id, number)
                is Some,
        }) ==> operations::asked_attempt(s, run_id, requested) is Ok,
{
    if let Some(number) = requested {
        seqs::lemma_present(s.attempts, store::by_attempt(run_id, number));
    }
    if let Some(run) = s.run(run_id) {
        if let Some(number) = run.attempt_no {
            seqs::lemma_present(s.attempts, store::by_attempt(run_id, number));
        }
    }
}

/// Each file of an attempt is listed once, under the word for what it is.
pub proof fn files_have_their_names(attempt: RunAttemptRecordView, i: int)
    ensures
        operations::files_of(attempt).len() == 5,
        0 <= i < 5 ==> ({
            let file = operations::files_of(attempt)[i];
            ||| file.kind == "script"@ && file.path == attempt.script_path
            ||| file.kind == "stdout"@ && file.path == attempt.stdout_path
            ||| file.kind == "stderr"@ && file.path == attempt.stderr_path
            ||| file.kind == "terminal"@ && file.path == attempt.terminal_path
            ||| file.kind == "receipt"@ && file.path == attempt.receipt_path
        }),
        operations::files_of(attempt).contains(
            RunArtifactView { kind: "script"@, path: attempt.script_path },
        ),
        operations::files_of(attempt).contains(
            RunArtifactView { kind: "stdout"@, path: attempt.stdout_path },
        ),
        operations::files_of(attempt).contains(
            RunArtifactView { kind: "stderr"@, path: attempt.stderr_path },
        ),
        operations::files_of(attempt).contains(
            RunArtifactView { kind: "terminal"@, path: attempt.terminal_path },
        ),
        operations::files_of(attempt).contains(
            RunArtifactView { kind: "receipt"@, path: attempt.receipt_path },
        ),
{
    let files = operations::files_of(attempt);
    assert(files[0] == (RunArtifactView { kind: "script"@, path: attempt.script_path }));
    assert(files[1] == (RunArtifactView { kind: "stdout"@, path: attempt.stdout_path }));
    assert(files[2] == (RunArtifactView { kind: "stderr"@, path: attempt.stderr_path }));
    assert(files[3] == (RunArtifactView { kind: "terminal"@, path: attempt.terminal_path }));
    assert(files[4] == (RunArtifactView { kind: "receipt"@, path: attempt.receipt_path }));
}

// ---------------------------------------------------------------------------
// Stopping
// ---------------------------------------------------------------------------

/// A run that has not ended is stopped where it runs: by `scancel` on Slurm and
/// by `bkill` on LSF, each with the job of the run as one word; a process on this
/// machine by its handle. Nothing else can be stopped.
pub proof fn live_run_is_stopped_where_it_runs(
    s: StoreView,
    run: RunRecordView,
    style: PathStyle,
    result: Result<CancelStep, String>,
)
    requires
        operations::cancel_answers(s, run.run_id, style, result),
        s.run(run.run_id) == Some(run),
        run.status != RunStatus::Succeeded,
        run.status != RunStatus::Failed,
        run.status != RunStatus::Cancelled,
    ensures
        run.runner == RunnerKind::Slurm && run.job_id is Some ==> (result matches Ok(
            CancelStep::Remote { run: found, job_id, command },
        ) && found@ == run && job_id@ == run.job_id->0 && command@ == "scancel "@
            + text::shell_word(run.job_id->0)),
        run.runner == RunnerKind::Lsf && run.job_id is Some ==> (result matches Ok(
            CancelStep::Remote { run: found, job_id, command },
        ) && found@ == run && job_id@ == run.job_id->0 && command@ == "bkill "@ + text::shell_word(
            run.job_id->0,
        )),
        run.runner == RunnerKind::Process ==> !(result matches Ok(CancelStep::Remote { .. })),
        run.runner == RunnerKind::File || run.runner == RunnerKind::Powershell ==> result is Err,
        run.runner != RunnerKind::Process && run.job_id is None ==> result is Err,
        !(result matches Ok(CancelStep::Settled(_))),
{
}

/// That a scheduler was told to stop a run does not end the run: its status stays
/// until the scheduler says otherwise, and so does that of its attempt. The run
/// has a note that names the job, and where it has an attempt there is an event.
pub proof fn stop_request_keeps_the_status(
    s: StoreView,
    run: RunRecordView,
    job_id: Seq<char>,
    now: Timestamp,
)
    ensures
        ({
            let noted = operations::cancelled_run(run, job_id, now);
            let t = operations::cancel_recorded(s, noted);
            &&& t.run(run.run_id) matches Some(after) && after.status == run.status && after.job_id
                == run.job_id && after.run_id == run.run_id && after.attempt_no == run.attempt_no
                && after.note == Some("cancel requested for scheduler job "@ + job_id)
                && after.updated_at == now
            &&& run.attempt_no matches Some(number) ==> t.attempt(run.run_id, number) == s.attempt(
                run.run_id,
                number,
            )
            &&& t.deliveries == s.deliveries
            &&& t.bindings == s.bindings
            &&& run.attempt_no is Some && s.attempt(run.run_id, run.attempt_no->0) is Some
                ==> t.events.len() == s.events.len() + 1 && t.events.last().kind
                == "cancel_requested"@ && t.events.last().run_id == run.run_id
        }),
{
    let noted = operations::cancelled_run(run, job_id, now);
    laws::stored_run_is_read_back(s, noted, noted.run_id);
    let t = operations::cancel_recorded(s, noted);
    assert(t.runs == s.with_run(noted).runs);
    if let Some(number) = run.attempt_no {
        if let Some(attempt) = s.attempt(run.run_id, number) {
            seqs::lemma_present(s.attempts, store::by_attempt(run.run_id, number));
            laws::stored_attempt_is_read_back(
                s.with_run(noted),
                attempt,
                attempt.run_id,
                attempt.attempt_no,
            );
            assert(t.attempts == s.with_run(noted).with_attempt(attempt).attempts);
        }
    }
}

// ---------------------------------------------------------------------------
// A log on this machine
// ---------------------------------------------------------------------------

/// Of a log that was not read from its start the first line, which is not whole,
/// is left out, and nothing else; of one that was, nothing.
pub proof fn cut_line_is_left_out(cut: Seq<u8>, rest: Seq<u8>, start: u64)
    requires
        forall|i: int| 0 <= i < cut.len() ==> (#[trigger] cut[i]) != 10,
    ensures
        start > 0 ==> operations::whole_lines(cut + seq![10u8] + rest, start) == rest,
        start > 0 ==> operations::whole_lines(cut, start) == cut,
        start == 0 ==> operations::whole_lines(cut + seq![10u8] + rest, start) == cut + seq![10u8]
            + rest,
        operations::MAX_LOG_BYTES_PER_STREAM == 65536,
{
    let all = cut + seq![10u8] + rest;
    let end = operations::is_line_end();
    assert forall|j: int| 0 <= j < cut.len() implies !end(#[trigger] all[j]) by {
        assert(all[j] == cut[j]);
    }
    assert(all[cut.len() as int] == 10);
    seqs::lemma_until(all, end, cut.len());
    seqs::lemma_until(cut, end, cut.len());
    assert(all.skip((cut.len() + 1) as int) =~= rest);
}

} // verus!
