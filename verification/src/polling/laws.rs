//! What a round of looking at runs does, stated on what is read back.
use crate::polling;
use crate::polling::answers;
use crate::polling::answers::{PollStep, Round, Selection, TransitionView};
use crate::probe;
use crate::probe::{LsfBatchProbeResultView, ProbeInterpretationView, SlurmBatchProbeResultView};
use crate::seqs;
use crate::store;
use crate::store::deliveries;
use crate::store::laws;
use crate::store::notices;
use crate::store::reading;
use crate::store::runs;
use crate::store::{DeliveryState, EventPayloadView, StoreView};
use crate::submission::{ExecOutputView, ExecResultView, TransportErrorView};
use crate::text;
use crate::time::Timestamp;
use crate::types::{
    ContinuationBindingView, ObservationHealth, ObservationRecordView, ObservationSource,
    RunAttemptRecordView, RunRecordView, RunStatus, RunnerKind,
};
use vstd::prelude::*;

verus! {

// ---------------------------------------------------------------------------
// When a run is looked at
// ---------------------------------------------------------------------------

/// How long a run is left alone: a process on this machine for the interval
/// itself; a run on a host for the interval, twice that where it runs or could
/// not be read, and four times that where its host could not be reached; but for
/// no more than five minutes, or the interval where that is longer.
pub proof fn interval_follows_the_run(
    run: RunRecordView,
    health: Option<ObservationHealth>,
    base: nat,
)
    requires
        base >= 1,
    ensures
        ({
            let seconds = polling::probe_interval(run, health, base);
            let cap: nat = if base > 300 {
                base
            } else {
                300
            };
            let wanted: nat = if health == Some(ObservationHealth::Unreachable) {
                base * 4
            } else if health == Some(ObservationHealth::ProbeError) {
                base * 2
            } else if run.status == RunStatus::Running {
                base * 2
            } else {
                base
            };
            &&& run.runner == RunnerKind::Process ==> seconds == base
            &&& run.runner != RunnerKind::Process && wanted <= cap ==> seconds == wanted
            &&& run.runner != RunnerKind::Process && wanted > cap ==> seconds == cap
        }),
        polling::probe_interval(run, health, 0) == polling::probe_interval(run, health, 1),
{
    assert(base * 4 == 4 * base && base * 2 == 2 * base && base * 1 == base) by (nonlinear_arith);
}

/// A run that was never seen is due at once; one that was seen is due when its
/// interval is over, and from then on.
pub proof fn run_is_due_after_its_interval(
    run: RunRecordView,
    seen: ObservationRecordView,
    now: Timestamp,
    later: Timestamp,
    base: nat,
)
    requires
        now.nanos <= later.nanos,
    ensures
        polling::is_due(run, None, now, base),
        polling::is_due(run, Some(seen), now, base) <==> now.nanos - seen.observed_at.nanos
            >= polling::probe_interval(run, Some(seen.health), base) * 1_000_000_000,
        polling::is_due(run, Some(seen), now, base) ==> polling::is_due(
            run,
            Some(seen),
            later,
            base,
        ),
{
}

/// The names of the due runs are those of the runs in the ledger that have not
/// ended and whose last sighting, of the attempt at which they are, is old
/// enough.
pub proof fn due_names_are_the_due_runs(s: StoreView, now: Timestamp, base: nat, i: int)
    requires
        0 <= i < s.runs.len(),
    ensures
        ({
            let run = s.runs[i];
            let number = match run.attempt_no {
                Some(number) => number,
                None => 1,
            };
            let seen = seqs::first(s.observations, store::by_observed(run.run_id, number));
            let live = run.status != RunStatus::Succeeded && run.status != RunStatus::Failed
                && run.status != RunStatus::Cancelled;
            &&& live && polling::is_due(run, seen, now, base) ==> polling::due_names(
                s,
                now,
                base,
            ).contains(run.run_id)
            &&& s.keyed() && polling::due_names(s, now, base).contains(run.run_id) ==> live
                && polling::is_due(run, seen, now, base)
        }),
{
    let wanted = polling::due_now(s, now, base);
    let picked = s.runs.filter(wanted);
    let names = polling::due_names(s, now, base);
    let run = s.runs[i];
    if wanted(run) {
        seqs::lemma_picks(s.runs, wanted, i);
        let k = choose|k: int| 0 <= k < picked.len() && picked[k] == run;
        assert(names[k] == run.run_id);
    }
    if s.keyed() && names.contains(run.run_id) {
        let k = choose|k: int| 0 <= k < names.len() && names[k] == run.run_id;
        seqs::lemma_picked(s.runs, wanted, k);
        let j = choose|j: int| 0 <= j < s.runs.len() && s.runs[j] == picked[k];
        assert(store::run_key()(s.runs[j]) == store::run_key()(s.runs[i]));
        assert(i == j);
    }
}

/// A run is asked about together with others only where the ledger agrees with
/// itself about it: the attempt at which it is has the same runner, the same job
/// and the same file of its end.
pub proof fn batched_run_agrees_with_its_attempt(
    run: RunRecordView,
    attempt: Option<RunAttemptRecordView>,
    runner: RunnerKind,
)
    ensures
        polling::attempt_agrees(run, attempt, runner) <==> attempt is Some && run.runner == runner
            && (attempt->0).runner == runner && run.attempt_no == Some((attempt->0).attempt_no)
            && run.job_id is Some && run.job_id == (attempt->0).job_id && run.remote_terminal
            == Some((attempt->0).terminal_path),
{
}

/// The runs that are asked about together are at least two, all of them due runs
/// of the ledger on one host and of one runner.
pub proof fn batch_is_of_one_host(
    s: StoreView,
    due: Seq<Seq<char>>,
    runner: RunnerKind,
    g: int,
    i: int,
    j: int,
)
    requires
        0 <= g < polling::batches(s, due, runner).len(),
        0 <= i < polling::batches(s, due, runner)[g].len(),
        0 <= j < polling::batches(s, due, runner)[g].len(),
    ensures
        ({
            let group = polling::batches(s, due, runner)[g];
            &&& group.len() >= 2
            &&& group[i].host == group[j].host
            &&& group[i].runner == runner
            &&& due.contains(group[i].run_id)
            &&& s.runs.contains(group[i])
        }),
{
    let members = s.runs.filter(polling::asked_together(s, due, runner));
    let hosts = reading::distinct(members.map_values(polling::run_host()));
    let groups = hosts.map_values(polling::same_host(members));
    let kept = groups.filter(polling::several());
    let group = kept[g];
    seqs::lemma_picked(groups, polling::several(), g);
    let h = choose|h: int| 0 <= h < groups.len() && groups[h] == group;
    assert(group == members.filter(polling::on_host(hosts[h])));
    seqs::lemma_picked(members, polling::on_host(hosts[h]), i);
    seqs::lemma_picked(members, polling::on_host(hosts[h]), j);
    let m = choose|m: int| 0 <= m < members.len() && members[m] == group[i];
    seqs::lemma_picked(s.runs, polling::asked_together(s, due, runner), m);
}

// ---------------------------------------------------------------------------
// What a sighting changes
// ---------------------------------------------------------------------------

/// A sighting that was made is read back as it was made, and says of which
/// attempt it is; the runs and the notices stay as they are.
pub proof fn sighting_is_read_back(s: StoreView, seen: ObservationRecordView)
    ensures
        ({
            let t = runs::observed(s, seen);
            &&& seqs::first(t.observations, store::by_observed(seen.run_id, seen.attempt_no))
                == Some(seen)
            &&& t.runs == s.runs
            &&& t.attempts == s.attempts
            &&& t.deliveries == s.deliveries
            &&& t.bindings == s.bindings
        }),
{
    seqs::lemma_put_first(
        s.observations,
        store::by_observed(seen.run_id, seen.attempt_no),
        seen,
    );
}

/// A sighting that tells something new leaves an event with all that was seen: the
/// first of an attempt, and one that differs from the last in anything but its
/// moment.
pub proof fn new_sighting_is_an_event(s: StoreView, seen: ObservationRecordView)
    ensures
        ({
            let before = seqs::first(
                s.observations,
                store::by_observed(seen.run_id, seen.attempt_no),
            );
            let t = runs::observed(s, seen);
            let news = match before {
                None => true,
                Some(last) => last.source != seen.source || last.health != seen.health
                    || last.execution_status != seen.execution_status || last.raw_state
                    != seen.raw_state || last.reason != seen.reason || last.command_exit_code
                    != seen.command_exit_code,
            };
            &&& !news ==> t.events == s.events
            &&& news ==> ({
                &&& t.events.len() == s.events.len() + 1
                &&& t.events.drop_last() == s.events
                &&& t.events.last().run_id == seen.run_id
                &&& t.events.last().at == seen.observed_at
                &&& t.events.last().kind == "observation_changed"@
                &&& t.events.last().payload == EventPayloadView::Observation(seen)
            })
        }),
{
    let t = runs::observed(s, seen);
    assert(t.events.len() > s.events.len() ==> t.events.drop_last() =~= s.events);
}

/// A change that a sighting shows is entered: the run has the new status, nothing
/// else of it changes but the time, and the round lists the change. A run whose
/// status did not change is not touched.
pub proof fn seen_change_is_entered(p: Round, run: RunRecordView, next: RunStatus, now: Timestamp)
    ensures
        ({
            let after = answers::transited(p, run, next, now);
            &&& next == run.status ==> after == p
            &&& next != run.status ==> ({
                &&& after.store.run(run.run_id) == Some(
                    RunRecordView { status: next, updated_at: now, ..run },
                )
                &&& after.transitions == p.transitions.push(
                    TransitionView { run_id: run.run_id, from: run.status, to: next },
                )
                &&& after.errors == p.errors
                &&& after.store.attempts == p.store.attempts
            })
        }),
{
    let changed = RunRecordView { status: next, updated_at: now, ..run };
    laws::stored_run_is_read_back(p.store, changed, run.run_id);
    let s = p.store.with_run(changed);
    assert(deliveries::notified(s, changed, now).runs == s.runs);
    assert(deliveries::notified(s, changed, now).attempts == s.attempts);
}

/// A run that is seen to have ended has its notice in the same step, and the
/// notice tells that end.
pub proof fn seen_end_is_told(
    p: Round,
    run: RunRecordView,
    next: RunStatus,
    binding: ContinuationBindingView,
    now: Timestamp,
)
    requires
        next != run.status,
        next == RunStatus::Succeeded || next == RunStatus::Failed || next == RunStatus::Cancelled,
        p.store.binding(run.run_id) == Some(binding),
        p.store.delivery(notices::notice_name(run)) is None,
    ensures
        answers::transited(p, run, next, now).store.delivery(
            notices::notice_name(run),
        ) matches Some(row) && row.state == DeliveryState::Pending && row.payload.status == next
            && row.payload.run_id == run.run_id && row.payload.job_id == run.job_id
            && row.payload.binding == binding && row.payload.attempt_no == notices::attempt_of(run),
{
    let changed = RunRecordView { status: next, updated_at: now, ..run };
    let s = p.store.with_run(changed);
    notices::notice_tells_the_truth(s, changed, binding, now);
}

/// Whether the round has a sighting of the run.
pub open spec fn has_sighting(
    p: Round,
    run: RunRecordView,
    source: ObservationSource,
    health: ObservationHealth,
    status: RunStatus,
    exit_code: Option<u32>,
    now: Timestamp,
) -> bool {
    let number = match run.attempt_no {
        Some(number) => number,
        None => 1,
    };
    match seqs::first(p.store.observations, store::by_observed(run.run_id, number)) {
        Some(seen) => {
            &&& seen.run_id == run.run_id
            &&& seen.attempt_no == number
            &&& seen.observed_at == now
            &&& seen.source == source
            &&& seen.health == health
            &&& seen.execution_status == status
            &&& seen.command_exit_code == exit_code
        },
        None => false,
    }
}

/// Whether the round has taken over what a probe says of a run: a fresh sighting,
/// and the status where it changed.
pub open spec fn took_over(
    p: Round,
    q: Round,
    run: RunRecordView,
    probe: ProbeInterpretationView,
    exit_code: Option<u32>,
    now: Timestamp,
) -> bool {
    &&& has_sighting(q, run, probe.source, ObservationHealth::Fresh, probe.status, exit_code, now)
    &&& q.errors == p.errors
    &&& probe.status == run.status ==> q.store.runs == p.store.runs && q.transitions
        == p.transitions
    &&& probe.status != run.status ==> q.store.run(run.run_id) == Some(
        RunRecordView { status: probe.status, updated_at: now, ..run },
    ) && q.transitions == p.transitions.push(
        TransitionView { run_id: run.run_id, from: run.status, to: probe.status },
    )
}

/// Whether the round has left a run as it is, with a sighting that says why and
/// a line that names it.
pub open spec fn left_alone(
    p: Round,
    q: Round,
    run: RunRecordView,
    source: ObservationSource,
    health: ObservationHealth,
    exit_code: Option<u32>,
    now: Timestamp,
) -> bool {
    &&& has_sighting(q, run, source, health, run.status, exit_code, now)
    &&& q.store.runs == p.store.runs
    &&& q.store.deliveries == p.store.deliveries
    &&& q.transitions == p.transitions
    &&& q.errors.len() == p.errors.len() + 1
    &&& q.errors.drop_last() == p.errors
    &&& text::has_prefix(q.errors.last(), run.run_id + ": "@)
}

proof fn lemma_took_over(
    p: Round,
    run: RunRecordView,
    probe: ProbeInterpretationView,
    exit_code: Option<u32>,
    now: Timestamp,
)
    ensures
        took_over(p, answers::learned(p, run, probe, exit_code, now), run, probe, exit_code, now),
{
    let seen = polling::sighting(
        run,
        probe.source,
        ObservationHealth::Fresh,
        probe.status,
        polling::kept_text(probe.raw_state),
        None,
        exit_code,
        now,
    );
    sighting_is_read_back(p.store, seen);
    let middle = Round { store: runs::observed(p.store, seen), ..p };
    seen_change_is_entered(middle, run, probe.status, now);
    let changed = RunRecordView { status: probe.status, updated_at: now, ..run };
    let t = middle.store.with_run(changed);
    assert(deliveries::notified(t, changed, now).observations == t.observations);
}

proof fn lemma_left_alone(
    p: Round,
    run: RunRecordView,
    source: ObservationSource,
    health: ObservationHealth,
    raw_state: Option<Seq<char>>,
    reason: Option<Seq<char>>,
    message: Seq<char>,
    exit_code: Option<u32>,
    now: Timestamp,
)
    ensures
        left_alone(
            p,
            answers::missed(p, run, source, health, raw_state, reason, message, exit_code, now),
            run,
            source,
            health,
            exit_code,
            now,
        ),
{
    let seen = polling::sighting(run, source, health, run.status, raw_state, reason, exit_code, now);
    sighting_is_read_back(p.store, seen);
    let q = answers::missed(p, run, source, health, raw_state, reason, message, exit_code, now);
    assert(q.errors.drop_last() =~= p.errors);
    text::lemma_without_prefix(run.run_id + ": "@, message);
}

/// What a host answered about one run is what becomes of the run: an answer that
/// was given and understood is taken over; one that failed or was not understood,
/// and a host that could not be reached, leave the run alone, and the sighting
/// tells the one from the other.
pub proof fn answer_decides_on_the_run(
    p: Round,
    run: RunRecordView,
    output: ExecOutputView,
    error: TransportErrorView,
    now: Timestamp,
)
    ensures
        ({
            let probe = probe::observation(run, output.stdout);
            let q = answers::answered(p, run, ExecResultView::Output(output), now);
            if output.code == Some(0u32) && probe.recognized {
                took_over(p, q, run, probe, Some(0u32), now)
            } else {
                left_alone(
                    p,
                    q,
                    run,
                    probe.source,
                    ObservationHealth::ProbeError,
                    output.code,
                    now,
                )
            }
        }),
        left_alone(
            p,
            answers::answered(p, run, ExecResultView::Failure(error), now),
            run,
            ObservationSource::Transport,
            ObservationHealth::Unreachable,
            None,
            now,
        ),
{
    let probe = probe::observation(run, output.stdout);
    let unknown = "remote probe returned an unrecognized execution state"@;
    let detail = answers::exit_detail("remote probe"@, output);
    lemma_took_over(p, run, probe, output.code, now);
    lemma_left_alone(
        p,
        run,
        probe.source,
        ObservationHealth::ProbeError,
        polling::kept_text(probe.raw_state),
        Some(unknown),
        unknown,
        output.code,
        now,
    );
    lemma_left_alone(
        p,
        run,
        probe.source,
        ObservationHealth::ProbeError,
        polling::kept_text(probe.raw_state),
        polling::kept_text(detail),
        answers::or_else(polling::kept_text(detail), "remote probe failed"@),
        output.code,
        now,
    );
    lemma_left_alone(
        p,
        run,
        ObservationSource::Transport,
        ObservationHealth::Unreachable,
        None,
        polling::kept_text(error.full),
        error.brief,
        None,
        now,
    );
}

/// What Slurm said of a run among many is taken over where it was understood, and
/// otherwise leaves the run alone.
pub proof fn slurm_answer_decides_on_the_run(
    p: Round,
    run: RunRecordView,
    result: SlurmBatchProbeResultView,
    now: Timestamp,
)
    ensures
        result.probe.recognized ==> took_over(
            p,
            answers::slurm_answered(p, run, result, now),
            run,
            result.probe,
            Some(0u32),
            now,
        ),
        !result.probe.recognized ==> left_alone(
            p,
            answers::slurm_answered(p, run, result, now),
            run,
            result.probe.source,
            ObservationHealth::ProbeError,
            Some(0u32),
            now,
        ),
{
    lemma_took_over(p, run, result.probe, Some(0u32), now);
    let reason = answers::or_else(
        result.reason,
        "batched Slurm probe returned no recognized state"@,
    );
    lemma_left_alone(
        p,
        run,
        result.probe.source,
        ObservationHealth::ProbeError,
        polling::kept_text(result.probe.raw_state),
        Some(reason),
        reason,
        Some(0u32),
        now,
    );
}

/// What LSF said of a run among many is taken over where it was understood. A
/// file of the run's end that was not understood leaves the run alone; a run that
/// LSF did not list is not touched at all, and is still to be asked about.
pub proof fn lsf_answer_decides_on_the_run(
    p: Round,
    run: RunRecordView,
    result: LsfBatchProbeResultView,
    now: Timestamp,
)
    ensures
        result.probe.recognized ==> answers::lsf_settles(result) && took_over(
            p,
            answers::lsf_answered(p, run, result, now),
            run,
            result.probe,
            Some(0u32),
            now,
        ),
        !result.probe.recognized && result.probe.source == ObservationSource::Sentinel
            ==> answers::lsf_settles(result) && left_alone(
            p,
            answers::lsf_answered(p, run, result, now),
            run,
            ObservationSource::Sentinel,
            ObservationHealth::ProbeError,
            Some(0u32),
            now,
        ),
        !result.probe.recognized && result.probe.source != ObservationSource::Sentinel
            ==> !answers::lsf_settles(result) && answers::lsf_answered(p, run, result, now) == p,
{
    lemma_took_over(p, run, result.probe, Some(0u32), now);
    let reason = answers::or_else(result.reason, "batched LSF sentinel was not recognized"@);
    lemma_left_alone(
        p,
        run,
        ObservationSource::Sentinel,
        ObservationHealth::ProbeError,
        polling::kept_text(result.probe.raw_state),
        Some(reason),
        reason,
        Some(0u32),
        now,
    );
}

/// An answer about many runs is read only where it was given: a failed question
/// changes no run and no notice, and each run of it has a line.
pub proof fn failed_batch_changes_no_run(
    p: Round,
    runs: Seq<RunRecordView>,
    result: ExecResultView,
    now: Timestamp,
)
    requires
        match result {
            ExecResultView::Output(output) => output.code != Some(0u32),
            ExecResultView::Failure(_) => true,
        },
    ensures
        same_runs(p, answers::slurm_polled(p, runs, result, now), runs.len()),
        same_runs(p, answers::lsf_polled(p, runs, result, now), runs.len()),
        answers::lsf_handled(runs, result) == runs.map_values(|run: RunRecordView| run.run_id),
{
    match result {
        ExecResultView::Output(output) => {
            lemma_all_missed(
                p,
                runs,
                runs.len(),
                ObservationSource::Scheduler,
                ObservationHealth::ProbeError,
                polling::kept_text(answers::exit_detail("batched Slurm remote probe"@, output)),
                answers::exit_detail("batched Slurm remote probe"@, output),
                output.code,
                now,
            );
            lemma_all_missed(
                p,
                runs,
                runs.len(),
                ObservationSource::Scheduler,
                ObservationHealth::ProbeError,
                polling::kept_text(answers::exit_detail("batched LSF remote probe"@, output)),
                answers::exit_detail("batched LSF remote probe"@, output),
                output.code,
                now,
            );
        },
        ExecResultView::Failure(error) => {
            lemma_all_missed(
                p,
                runs,
                runs.len(),
                ObservationSource::Transport,
                ObservationHealth::Unreachable,
                polling::kept_text(error.full),
                error.brief,
                None,
                now,
            );
        },
    }
    assert(answers::lsf_handled(runs, result) =~= runs.map_values(
        |run: RunRecordView| run.run_id,
    ));
}

/// Whether two rounds have the same runs, notices and changes, and the second has
/// some lines more.
pub open spec fn same_runs(p: Round, q: Round, lines: nat) -> bool {
    &&& q.store.runs == p.store.runs
    &&& q.store.attempts == p.store.attempts
    &&& q.store.deliveries == p.store.deliveries
    &&& q.transitions == p.transitions
    &&& q.errors.len() == p.errors.len() + lines
}

proof fn lemma_all_missed(
    p: Round,
    runs: Seq<RunRecordView>,
    count: nat,
    source: ObservationSource,
    health: ObservationHealth,
    reason: Option<Seq<char>>,
    message: Seq<char>,
    exit_code: Option<u32>,
    now: Timestamp,
)
    ensures
        same_runs(
            p,
            answers::all_missed(
                p,
                runs,
                count,
                source,
                health,
                reason,
                message,
                exit_code,
                now,
            ),
            count,
        ),
    decreases count,
{
    if count > 0 {
        lemma_all_missed(
            p,
            runs,
            (count - 1) as nat,
            source,
            health,
            reason,
            message,
            exit_code,
            now,
        );
    }
}

/// What is seen of a process on this machine is what becomes of its run and of
/// its attempt; where it could not be looked at, the run is left alone.
pub proof fn local_look_decides_on_the_run(
    p: Round,
    run: RunRecordView,
    next: RunStatus,
    error: Seq<char>,
    now: Timestamp,
)
    ensures
        ({
            let q = answers::watched(p, run, Ok(next), now);
            &&& has_sighting(
                q,
                run,
                ObservationSource::LocalProcess,
                ObservationHealth::Fresh,
                next,
                None,
                now,
            )
            &&& q.errors == p.errors
            &&& next == run.status ==> q.store.runs == p.store.runs && q.transitions
                == p.transitions
            &&& next != run.status ==> q.store.run(run.run_id) == Some(
                RunRecordView { status: next, updated_at: now, ..run },
            ) && q.transitions == p.transitions.push(
                TransitionView { run_id: run.run_id, from: run.status, to: next },
            )
            &&& next != run.status && run.attempt_no is Some && p.store.attempt(
                run.run_id,
                run.attempt_no->0,
            ) is Some ==> (q.store.attempt(run.run_id, run.attempt_no->0) matches Some(attempt)
                && attempt.status == next)
        }),
        left_alone(
            p,
            answers::watched(p, run, Err(error), now),
            run,
            ObservationSource::LocalProcess,
            ObservationHealth::ProbeError,
            None,
            now,
        ),
{
    lemma_left_alone(
        p,
        run,
        ObservationSource::LocalProcess,
        ObservationHealth::ProbeError,
        run.job_id,
        polling::kept_text(error),
        error,
        None,
        now,
    );
    let seen = polling::sighting(
        run,
        ObservationSource::LocalProcess,
        ObservationHealth::Fresh,
        next,
        run.job_id,
        None,
        None,
        now,
    );
    sighting_is_read_back(p.store, seen);
    let s = runs::observed(p.store, seen);
    let changed = RunRecordView { status: next, updated_at: now, ..run };
    laws::stored_run_is_read_back(s, changed, run.run_id);
    let t = match polling::attempt_of(s, run) {
        Some(attempt) => runs::recorded(
            s,
            changed,
            RunAttemptRecordView { status: next, updated_at: now, ..attempt },
            "local_process_observed"@,
        ),
        None => s.with_run(changed),
    };
    assert(t.runs == s.with_run(changed).runs);
    assert(t.observations == s.observations);
    assert(deliveries::notified(t, changed, now).runs == t.runs);
    assert(deliveries::notified(t, changed, now).attempts == t.attempts);
    assert(deliveries::notified(t, changed, now).observations == t.observations);
    if let Some(number) = run.attempt_no {
        if let Some(attempt) = s.attempt(run.run_id, number) {
            seqs::lemma_present(s.attempts, store::by_attempt(run.run_id, number));
            let updated = RunAttemptRecordView { status: next, updated_at: now, ..attempt };
            laws::stored_attempt_is_read_back(
                s.with_run(changed),
                updated,
                updated.run_id,
                updated.attempt_no,
            );
            assert(t.attempts == s.with_run(changed).with_attempt(updated).attempts);
        }
    }
}

// ---------------------------------------------------------------------------
// Which runs a round takes
// ---------------------------------------------------------------------------

/// An ended run is never asked about again. Of the others that a round takes, a
/// process on this machine is looked at here, and a run on a host is asked about
/// on that host with its own question.
pub proof fn round_takes_live_runs(run: RunRecordView, selection: Selection, step: PollStep)
    requires
        answers::step_answers(run, selection, step),
    ensures
        run.status == RunStatus::Succeeded || run.status == RunStatus::Failed || run.status
            == RunStatus::Cancelled ==> step is Skip,
        !selection.covers(run) ==> step is Skip,
        step is Local ==> run.runner == RunnerKind::Process,
        step matches PollStep::Remote { host, command } ==> run.runner != RunnerKind::Process
            && host@ == run.host && probe::remote_question(run) == Some(command@),
        !(run.status == RunStatus::Succeeded || run.status == RunStatus::Failed || run.status
            == RunStatus::Cancelled) && selection.covers(run) && run.runner == RunnerKind::Process
            ==> step is Local,
        !(run.status == RunStatus::Succeeded || run.status == RunStatus::Failed || run.status
            == RunStatus::Cancelled) && selection.covers(run) && run.runner != RunnerKind::Process
            && probe::remote_question(run) is Some ==> step is Remote,
{
}

/// A round takes all runs, the one that was named, or those that are due and were
/// not dealt with before.
pub proof fn selection_covers_what_it_says(selection: Selection, run: RunRecordView)
    ensures
        selection is All ==> selection.covers(run),
        selection matches Selection::One(name) ==> (selection.covers(run) <==> run.run_id == name@),
        selection matches Selection::Due { due, handled } ==> (selection.covers(run)
            <==> due.deep_view().contains(run.run_id) && !handled.deep_view().contains(run.run_id)),
{
}

/// What a round reports counts the runs: those that have not ended, those that
/// failed, and all of them; and it lists the latest first.
pub proof fn report_counts_the_runs(runs: Seq<RunRecordView>, i: int)
    ensures
        answers::report_head(runs) == text::decimal(
            runs.filter(
                |run: RunRecordView|
                    run.status != RunStatus::Succeeded && run.status != RunStatus::Failed
                        && run.status != RunStatus::Cancelled,
            ).len(),
        ) + " live    "@ + text::decimal(
            runs.filter(|run: RunRecordView| run.status == RunStatus::Failed).len(),
        ) + " failed    "@ + text::decimal(runs.len()) + " total"@,
        answers::report_rows(runs).len() == if runs.len() < 24 {
            runs.len()
        } else {
            24
        },
        0 <= i < answers::report_rows(runs).len() ==> text::has_prefix(
            answers::report_rows(runs)[i],
            runs[runs.len() - 1 - i].run_id + "  "@ + runs[runs.len() - 1 - i].status.name() + "  "@
                + runs[runs.len() - 1 - i].host + "  job "@,
        ),
{
    lemma_same_filter(
        runs,
        answers::is_live(),
        |run: RunRecordView|
            run.status != RunStatus::Succeeded && run.status != RunStatus::Failed && run.status
                != RunStatus::Cancelled,
    );
    lemma_same_filter(
        runs,
        answers::has_failed(),
        |run: RunRecordView| run.status == RunStatus::Failed,
    );
    if 0 <= i < answers::report_rows(runs).len() {
        let run = runs[runs.len() - 1 - i];
        let head = run.run_id + "  "@ + run.status.name() + "  "@ + run.host + "  job "@;
        let row = answers::report_rows(runs)[i];
        assert(row.take(head.len() as int) =~= head);
    }
}

proof fn lemma_same_filter(
    runs: Seq<RunRecordView>,
    a: spec_fn(RunRecordView) -> bool,
    b: spec_fn(RunRecordView) -> bool,
)
    requires
        forall|run: RunRecordView| #[trigger] a(run) == b(run),
    ensures
        runs.filter(a) == runs.filter(b),
    decreases runs.len(),
{
    reveal(Seq::filter);
    if runs.len() > 0 {
        lemma_same_filter(runs.drop_last(), a, b);
        assert(a(runs.last()) == b(runs.last()));
    }
}

/// What is kept of a text is the text without white around it, and of a long one
/// its first 2048 characters; nothing is kept of an empty one.
pub proof fn kept_text_is_bounded(value: Seq<char>)
    ensures
        polling::kept_text(value) is None <==> text::trimmed(value).len() == 0,
        polling::kept_text(value) matches Some(kept) ==> kept.len() <= 2048 && text::has_prefix(
            text::trimmed(value),
            kept,
        ) && (text::trimmed(value).len() <= 2048 ==> kept == text::trimmed(value)),
{
    let inner = text::trimmed(value);
    assert(inner.take(inner.len() as int) =~= inner);
    if let Some(kept) = polling::kept_text(value) {
        assert(inner.take(kept.len() as int) =~= kept);
    }
}

/// The report says that there is no run exactly where there is none, and
/// otherwise has the rows, each on a line of its own.
pub proof fn report_shows_its_rows(runs: Seq<RunRecordView>)
    ensures
        runs.len() == 0 ==> answers::report_body(runs) == "No runs in runwatch.db yet."@,
        runs.len() > 0 ==> answers::report_body(runs) == text::joined(
            answers::report_rows(runs),
            "\n"@,
        ),
        forall|i: int|
            0 <= i < runs.len() && i < 24 ==> (#[trigger] answers::report_rows(runs)[i])
                == runs[runs.len() - 1 - i].run_id + "  "@ + runs[runs.len() - 1 - i].status.name()
                + "  "@ + runs[runs.len() - 1 - i].host + "  job "@ + (match runs[runs.len() - 1
                - i].job_id {
                Some(job) => job,
                None => "-"@,
            }),
{
}

} // verus!
