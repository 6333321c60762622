//! What is entered of submissions, retries and acceptances, stated on the rows
//! that are read back.
use crate::seqs;
use crate::store;
use crate::store::laws;
use crate::store::reading;
use crate::store::reading::LegacyLineView;
use crate::store::runs;
use crate::store::submissions;
use crate::store::{BindingRowView, EventPayloadView, RetryIntentRowView, StoreView};
use crate::time::Timestamp;
use crate::types::{
    ContinuationBindingView, RetryRunSpecView, RunAttemptRecordView, RunRecordView, RunStatus,
};
use vstd::prelude::*;

verus! {

/// A submission enters the run, its attempt and its binding as they were given,
/// and an event that says so.
pub proof fn submission_is_entered(
    s: StoreView,
    run: RunRecordView,
    attempt: RunAttemptRecordView,
    binding: Option<ContinuationBindingView>,
)
    requires
        s.run(run.run_id) is None,
        s.attempt(attempt.run_id, attempt.attempt_no) is None,
        binding is Some ==> s.binding(run.run_id) is None,
    ensures
        submissions::intent_refusal(s, run, attempt, binding) is None,
        ({
            let t = submissions::after_intent(s, run, attempt, binding);
            &&& t.run(run.run_id) == Some(run)
            &&& t.attempt(attempt.run_id, attempt.attempt_no) == Some(attempt)
            &&& binding is Some ==> t.binding(run.run_id) == binding
            &&& binding is None ==> t.bindings == s.bindings
            &&& t.deliveries == s.deliveries
            &&& t.events.len() == s.events.len() + 1
            &&& t.events.last().kind == "submission_intent"@
            &&& t.events.last().run_id == run.run_id
            &&& t.events.last().at == run.updated_at
        }),
{
    let t = submissions::intended(s, run, attempt, binding);
    laws::stored_run_is_read_back(s, run, run.run_id);
    laws::stored_attempt_is_read_back(s.with_run(run), attempt, attempt.run_id, attempt.attempt_no);
    assert(t.runs == s.with_run(run).runs);
    assert(t.attempts == s.with_run(run).with_attempt(attempt).attempts);
    if let Some(bound) = binding {
        let row = BindingRowView { run_id: run.run_id, binding: bound };
        seqs::lemma_put_first(s.bindings, store::by_bound(run.run_id), row);
    }
}

/// What a retry must keep to: the run has failed or was cancelled, is at the
/// attempt from which the retry starts, and is bound to no agent; the new attempt
/// is the next one, does the same on the same host, with the resources that were
/// asked for or those of before; and it has no job yet.
pub proof fn retry_is_checked(
    s: StoreView,
    request: RetryRunSpecView,
    run: RunRecordView,
    attempt: RunAttemptRecordView,
)
    requires
        submissions::earlier_retry(s, request) is None,
        submissions::retry_refusal(s, request, run, attempt) is None,
    ensures
        attempt.run_id == request.run_id,
        run.run_id == request.run_id,
        attempt.attempt_no == request.expected_attempt_no + 1,
        run.attempt_no == Some(attempt.attempt_no),
        run.status == RunStatus::Submitting && attempt.status == RunStatus::Submitting,
        run.job_id is None && attempt.job_id is None,
        s.binding(request.run_id) is None,
        s.attempt(request.run_id, attempt.attempt_no) is None,
        s.run(request.run_id) matches Some(current) && current.attempt_no == Some(
            request.expected_attempt_no,
        ) && (current.status == RunStatus::Failed || current.status == RunStatus::Cancelled)
            && current.session_id is None && current.agent is None && current.project_root is None
            && run.runner == current.runner && run.host == current.host && run.workspace
            == current.workspace && run.name == current.name,
        s.attempt(request.run_id, request.expected_attempt_no) matches Some(previous) && (
        previous.status == RunStatus::Failed || previous.status == RunStatus::Cancelled)
            && attempt.runner == previous.runner && attempt.host == previous.host && attempt.workdir
            == previous.workdir && attempt.command == previous.command && (request.resources is None
            ==> attempt.resources == previous.resources) && (request.resources is Some
            ==> attempt.resources == request.resources->0),
{
}

/// A retry enters the new attempt beside the earlier one, which stays as it is,
/// puts the run at the new attempt, and is remembered under its name.
pub proof fn retry_is_entered(
    s: StoreView,
    request: RetryRunSpecView,
    run: RunRecordView,
    attempt: RunAttemptRecordView,
)
    requires
        submissions::earlier_retry(s, request) is None,
        submissions::retry_refusal(s, request, run, attempt) is None,
    ensures
        ({
            let t = submissions::after_retry(s, request, run, attempt);
            &&& t.run(request.run_id) == Some(run)
            &&& t.attempt(request.run_id, attempt.attempt_no) == Some(attempt)
            &&& t.attempt(request.run_id, request.expected_attempt_no) == s.attempt(
                request.run_id,
                request.expected_attempt_no,
            )
            &&& t.retries == s.retries.push(
                RetryIntentRowView {
                    request,
                    attempt_no: attempt.attempt_no,
                    created_at: run.updated_at,
                },
            )
            &&& t.events.len() == s.events.len() + 1
            &&& t.events.last().kind == "retry_intent"@
            &&& t.events.last().run_id == request.run_id
            &&& t.events.last().payload == (EventPayloadView::RetryIntent {
                request_id: request.request_id,
                from_attempt_no: request.expected_attempt_no,
                attempt_no: attempt.attempt_no,
                resources: request.resources,
            })
        }),
{
    let t = submissions::after_retry(s, request, run, attempt);
    laws::stored_attempt_is_read_back(
        s,
        attempt,
        request.run_id,
        request.expected_attempt_no,
    );
    laws::stored_run_is_read_back(s.with_attempt(attempt), run, run.run_id);
    assert(t.runs == s.with_attempt(attempt).with_run(run).runs);
    assert(t.attempts == s.with_attempt(attempt).attempts);
}

/// A retry waits for its job as long as the run and the attempt are in
/// submission without a job, at the attempt that the retry made.
pub proof fn pending_retry_has_no_job(s: StoreView, row: RetryIntentRowView)
    ensures
        submissions::awaits_handle(s)(row) <==> ({
            let run = s.run(row.request.run_id);
            let attempt = s.attempt(row.request.run_id, row.attempt_no);
            &&& run is Some && attempt is Some
            &&& run->0.status == RunStatus::Submitting && attempt->0.status
                == RunStatus::Submitting
            &&& run->0.attempt_no == Some(row.attempt_no)
            &&& run->0.job_id is None && attempt->0.job_id is None
        }),
{
}

/// The retries that wait are listed in the order in which they were asked for.
pub proof fn pending_retries_are_ordered(s: StoreView)
    ensures
        ({
            let waiting = s.retries.filter(submissions::awaits_handle(s));
            let list = seqs::stable_sorted(waiting, submissions::asked_before());
            &&& submissions::pending_retries(s).len() == list.len()
            &&& forall|i: int|
                0 <= i < list.len() ==> #[trigger] submissions::pending_retries(s)[i]
                    == list[i].request
            &&& forall|i: int, j: int|
                0 <= i < j < list.len() ==> (#[trigger] list[i]).created_at.nanos <= (
                #[trigger] list[j]).created_at.nanos
        }),
{
    let waiting = s.retries.filter(submissions::awaits_handle(s));
    seqs::sort_is_ordered(waiting, submissions::asked_before());
    let list = seqs::stable_sorted(waiting, submissions::asked_before());
    assert forall|i: int, j: int| 0 <= i < j < list.len() implies (
    #[trigger] list[i]).created_at.nanos <= (#[trigger] list[j]).created_at.nanos by {
        assert(!submissions::asked_before()(list[j], list[i]));
    }
}

/// What an acceptance must keep to: it gives the attempt at which the run is one
/// job, queued or running, and changes nothing of what was asked for.
pub proof fn acceptance_is_checked(
    s: StoreView,
    run: RunRecordView,
    attempt: RunAttemptRecordView,
)
    requires
        submissions::acceptance_refusal(s, run, attempt) is None,
    ensures
        run.run_id == attempt.run_id,
        run.attempt_no == Some(attempt.attempt_no),
        attempt.job_id is Some,
        run.job_id == attempt.job_id,
        run.status == attempt.status,
        run.status == RunStatus::Queued || run.status == RunStatus::Running,
        s.run(run.run_id) matches Some(current) && current.attempt_no == Some(attempt.attempt_no),
        s.attempt(run.run_id, attempt.attempt_no) matches Some(current) && (current.job_id is Some
            ==> current.job_id == attempt.job_id) && (current.job_id is None ==> current.status
            == RunStatus::Submitting && current.command == attempt.command && current.host
            == attempt.host && current.resources == attempt.resources && current.runner
            == attempt.runner && current.workdir == attempt.workdir && current.stdout_path
            == attempt.stdout_path && current.stderr_path == attempt.stderr_path
            && current.terminal_path == attempt.terminal_path && current.receipt_path
            == attempt.receipt_path && current.script_path == attempt.script_path
            && current.job_name == attempt.job_name),
{
}

/// An acceptance that is new is entered as it was given.
pub proof fn acceptance_is_entered(
    s: StoreView,
    run: RunRecordView,
    attempt: RunAttemptRecordView,
    event_kind: Seq<char>,
)
    requires
        submissions::acceptance_refusal(s, run, attempt) is None,
        s.attempt(attempt.run_id, attempt.attempt_no) matches Some(current) && current.job_id
            is None,
    ensures
        ({
            let t = submissions::after_acceptance(s, run, attempt, event_kind);
            &&& t.run(run.run_id) == Some(run)
            &&& t.attempt(run.run_id, attempt.attempt_no) == Some(attempt)
            &&& t.events.len() == s.events.len() + 1
            &&& t.events.last().kind == event_kind
            &&& t.events.last().payload == (EventPayloadView::Attempt {
                attempt_no: attempt.attempt_no,
                status: attempt.status,
                job_id: attempt.job_id,
                error: attempt.error,
            })
        }),
{
    let t = submissions::after_acceptance(s, run, attempt, event_kind);
    laws::stored_run_is_read_back(s, run, run.run_id);
    laws::stored_attempt_is_read_back(s.with_run(run), attempt, attempt.run_id, attempt.attempt_no);
    assert(t.runs == s.with_run(run).runs);
    assert(t.attempts == s.with_run(run).with_attempt(attempt).attempts);
}

/// A status that is set changes of the run nothing else but the time.
pub proof fn set_status_changes_only_the_status(
    run: RunRecordView,
    status: RunStatus,
    now: Timestamp,
)
    ensures
        ({
            let after = runs::restated(run, status, now);
            &&& after.status == status
            &&& after.updated_at == now
            &&& after.run_id == run.run_id
            &&& after.job_id == run.job_id
            &&& after.attempt_no == run.attempt_no
            &&& after.runner == run.runner
            &&& after.host == run.host
            &&& after.name == run.name
            &&& after.note == run.note
            &&& after.remote_terminal == run.remote_terminal
            &&& after.workspace == run.workspace
            &&& after.session_id == run.session_id
            &&& after.agent == run.agent
            &&& after.project_root == run.project_root
        }),
{
}

/// The attempts of a run are listed by their numbers, all of them and no others.
pub proof fn attempts_are_listed_by_number(s: StoreView, run_id: Seq<char>)
    ensures
        ({
            let own = s.attempts.filter(runs::of_run(run_id));
            let list = seqs::stable_sorted(own, runs::earlier_attempt());
            &&& list.to_multiset() == own.to_multiset()
            &&& forall|i: int, j: int|
                0 <= i < j < list.len() ==> (#[trigger] list[i]).attempt_no <= (
                #[trigger] list[j]).attempt_no
            &&& forall|k: int|
                0 <= k < own.len() ==> (#[trigger] own[k]).run_id == run_id && s.attempts.contains(
                    own[k],
                )
            &&& forall|k: int|
                0 <= k < s.attempts.len() && (#[trigger] s.attempts[k]).run_id == run_id
                    ==> own.contains(s.attempts[k])
        }),
{
    let wanted = runs::of_run(run_id);
    let own = s.attempts.filter(wanted);
    let list = seqs::stable_sorted(own, runs::earlier_attempt());
    seqs::sort_is_ordered(own, runs::earlier_attempt());
    seqs::sort_keeps_items(own, runs::earlier_attempt());
    assert forall|i: int, j: int| 0 <= i < j < list.len() implies (#[trigger] list[i]).attempt_no
        <= (#[trigger] list[j]).attempt_no by {
        assert(!runs::earlier_attempt()(list[j], list[i]));
    }
    assert forall|k: int| 0 <= k < own.len() implies (#[trigger] own[k]).run_id == run_id
        && s.attempts.contains(own[k]) by {
        seqs::lemma_picked(s.attempts, wanted, k);
    }
    assert forall|k: int| 0 <= k < s.attempts.len() && (#[trigger] s.attempts[k]).run_id
        == run_id implies own.contains(s.attempts[k]) by {
        seqs::lemma_picks(s.attempts, wanted, k);
    }
}

/// An event that was entered last is the last that is listed for its run, with
/// its place in the ledger as its number; for other runs nothing changes.
pub proof fn entered_event_is_listed(
    s: StoreView,
    run_id: Seq<char>,
    at: Timestamp,
    kind: Seq<char>,
    payload: EventPayloadView,
    other: Seq<char>,
)
    ensures
        ({
            let t = s.with_event(run_id, at, kind, payload);
            let list = reading::events_of(t.events, run_id);
            &&& list.len() == reading::events_of(s.events, run_id).len() + 1
            &&& list.drop_last() == reading::events_of(s.events, run_id)
            &&& list.last().run_id == run_id
            &&& list.last().at == at
            &&& list.last().kind == kind
            &&& list.last().payload == payload
            &&& list.last().id == (s.events.len() + 1) as u64
            &&& other != run_id ==> reading::events_of(t.events, other) == reading::events_of(
                s.events,
                other,
            )
        }),
{
    let t = s.with_event(run_id, at, kind, payload);
    assert(t.events.drop_last() =~= s.events);
    let list = reading::events_of(t.events, run_id);
    assert(list.drop_last() =~= reading::events_of(s.events, run_id));
}

/// One list holds at least one event and at most two hundred, the latest ones.
pub proof fn event_lists_are_bounded(limit: usize)
    ensures
        1 <= reading::event_limit(limit) <= 200,
        1 <= limit <= 200 ==> reading::event_limit(limit) == limit,
{
}

// ---------------------------------------------------------------------------
// The journal
// ---------------------------------------------------------------------------

/// Whether the line is the last of the journal on its run.
pub open spec fn last_of_its_run(lines: Seq<LegacyLineView>, i: int) -> bool {
    &&& 0 <= i < lines.len()
    &&& lines[i] is Run
    &&& forall|j: int|
        i < j < lines.len() && (#[trigger] lines[j]) is Run ==> lines[j]->Run_0.run_id
            != lines[i]->Run_0.run_id
}

/// Of each run of the journal its last line is taken.
pub proof fn journal_gives_the_last_line(lines: Seq<LegacyLineView>, i: int)
    requires
        last_of_its_run(lines, i),
    ensures
        seqs::first(
            reading::journal_runs(lines),
            store::by_run(lines[i]->Run_0.run_id),
        ) == Some(lines[i]->Run_0),
    decreases lines.len(),
{
    let run = lines[i]->Run_0;
    let before = lines.drop_last();
    let earlier = reading::journal_runs(before);
    if i == lines.len() - 1 {
        seqs::lemma_put_first(earlier, store::by_run(run.run_id), run);
    } else {
        assert forall|j: int| i < j < before.len() && (#[trigger] before[j]) is Run implies
            before[j]->Run_0.run_id != before[i]->Run_0.run_id by {
            assert(lines[j] == before[j]);
        }
        assert(last_of_its_run(before, i));
        journal_gives_the_last_line(before, i);
        if let LegacyLineView::Run(other) = lines.last() {
            assert(lines[lines.len() - 1] is Run);
            assert(other.run_id != run.run_id);
            seqs::lemma_put_other(
                earlier,
                store::by_run(other.run_id),
                other,
                store::by_run(run.run_id),
            );
        }
    }
}

/// The journal gives no run that no line of it has.
pub proof fn journal_invents_no_run(lines: Seq<LegacyLineView>, k: int)
    requires
        0 <= k < reading::journal_runs(lines).len(),
    ensures
        exists|i: int|
            0 <= i < lines.len() && (#[trigger] lines[i]) == LegacyLineView::Run(
                reading::journal_runs(lines)[k],
            ),
    decreases lines.len(),
{
    let before = lines.drop_last();
    let earlier = reading::journal_runs(before);
    let found = reading::journal_runs(lines)[k];
    let last = lines[lines.len() - 1];
    if k < earlier.len() && found == earlier[k] {
        journal_invents_no_run(before, k);
        let i = choose|i: int|
            0 <= i < before.len() && (#[trigger] before[i]) == LegacyLineView::Run(earlier[k]);
        assert(lines[i] == before[i]);
    } else {
        assert(last == LegacyLineView::Run(found));
    }
}

/// A line that cannot be read breaks the journal, unless it is the last one.
pub proof fn only_the_last_line_may_be_cut(lines: Seq<LegacyLineView>, i: int)
    requires
        0 <= i < lines.len(),
        lines[i] is Broken,
        forall|j: int| 0 <= j < lines.len() && j != i ==> !((#[trigger] lines[j]) is Broken),
    ensures
        reading::journal_broken(lines) <==> i != lines.len() - 1,
        i == lines.len() - 1 ==> reading::journal_runs(lines) == reading::journal_runs(
            lines.drop_last(),
        ),
{
    if i != lines.len() - 1 {
        assert(lines[i] is Broken);
    }
}

} // verus!
