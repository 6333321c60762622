//! What the answers about runs change in the ledger, and the report of it.
use crate::polling;
use crate::polling::{observation_text, persist_observation};
use crate::probe;
use crate::probe::{
    interpret_lsf_batch, interpret_observation, interpret_slurm_batch, remote_command,
    LsfBatchProbeResult, LsfBatchProbeResultView, ProbeInterpretation, ProbeInterpretationView,
    SlurmBatchProbeResult, SlurmBatchProbeResultView,
};
use crate::seqs;
use crate::seqs::count;
use crate::store::deliveries;
use crate::store::runs;
use crate::store::{RunStore, StoreView};
use crate::submission::{ExecOutput, ExecOutputView, ExecResult, ExecResultView};
use crate::text;
use crate::text::{decimal_text, show_option};
use crate::time::Timestamp;
use crate::types::{
    clone_text, ObservationHealth, ObservationSource, RunAttemptRecordView, RunRecord,
    RunRecordView, RunStatus, RunnerKind,
};
use vstd::prelude::*;
use vstd::string::*;

verus! {

/// How many runs a report shows.
pub const REPORT_ROWS: usize = 24;

/// A change of the status of a run.
#[derive(Debug)]
pub struct Transition {
    pub run_id: String,
    pub from: RunStatus,
    pub to: RunStatus,
}

/// What a `Transition` says.
pub struct TransitionView {
    pub run_id: Seq<char>,
    pub from: RunStatus,
    pub to: RunStatus,
}

impl View for Transition {
    type V = TransitionView;

    open spec fn view(&self) -> TransitionView {
        TransitionView {
            run_id: self.run_id@,
            from: self.from,
            to: self.to,
        }
    }
}

impl DeepView for Transition {
    type V = TransitionView;

    open spec fn deep_view(&self) -> TransitionView {
        self.view()
    }
}

impl Clone for Transition {
    fn clone(&self) -> (copy: Self)
        ensures
            copy@ == self@,
    {
        Transition {
            run_id: self.run_id.clone(),
            from: self.from,
            to: self.to,
        }
    }
}

/// What a round of looking at runs has brought.
pub struct Tally {
    pub transitions: Vec<Transition>,
    pub errors: Vec<String>,
}

/// What a round of looking at runs makes of the ledger and its report.
pub struct Round {
    pub store: StoreView,
    pub transitions: Seq<TransitionView>,
    pub errors: Seq<Seq<char>>,
}

impl Tally {
    /// The ledger with this tally.
    pub open spec fn round(&self, s: StoreView) -> Round {
        Round {
            store: s,
            transitions: self.transitions.deep_view(),
            errors: self.errors.deep_view(),
        }
    }

    pub fn new() -> (tally: Tally)
        ensures
            tally.transitions.deep_view() == Seq::<TransitionView>::empty(),
            tally.errors.deep_view() == Seq::<Seq<char>>::empty(),
    {
        let tally = Tally { transitions: Vec::new(), errors: Vec::new() };
        assert(tally.transitions.deep_view() =~= Seq::<TransitionView>::empty());
        assert(tally.errors.deep_view() =~= Seq::<Seq<char>>::empty());
        tally
    }

    fn note_error(&mut self, run_id: &str, message: &str)
        ensures
            final(self).transitions == old(self).transitions,
            final(self).errors.deep_view() == old(self).errors.deep_view().push(
                run_id@ + ": "@ + message@,
            ),
    {
        let mut line = run_id.to_owned();
        line.append(": ");
        line.append(message);
        let ghost before = self.errors;
        self.errors.push(line);
        proof {
            seqs::lemma_deep_push(before, self.errors, line);
        }
    }

    fn note_transition(&mut self, run_id: &str, from: RunStatus, to: RunStatus)
        ensures
            final(self).errors == old(self).errors,
            final(self).transitions.deep_view() == old(self).transitions.deep_view().push(
                TransitionView { run_id: run_id@, from, to },
            ),
    {
        let change = Transition { run_id: run_id.to_owned(), from, to };
        let ghost before = self.transitions;
        self.transitions.push(change);
        proof {
            seqs::lemma_deep_push(before, self.transitions, change);
        }
    }
}

// ---------------------------------------------------------------------------
// One run
// ---------------------------------------------------------------------------

/// The round in which the run takes the status `next`: the change is stored and
/// told, and a run that ends owes its session a notice.
pub open spec fn transited(p: Round, run: RunRecordView, next: RunStatus, now: Timestamp) -> Round {
    if next == run.status {
        p
    } else {
        let changed = runs::restated(run, next, now);
        let s = p.store.with_run(changed);
        Round {
            store: if next.terminal() {
                deliveries::notified(s, changed, now)
            } else {
                s
            },
            transitions: p.transitions.push(
                TransitionView { run_id: run.run_id, from: run.status, to: next },
            ),
            errors: p.errors,
        }
    }
}

pub fn persist_remote_transition(
    store: &mut RunStore,
    rec: &RunRecord,
    next: RunStatus,
    tally: &mut Tally,
    now: Timestamp,
)
    ensures
        final(tally).round(final(store)@) == transited(
            old(tally).round(old(store)@),
            rec@,
            next,
            now,
        ),
        old(store)@.sound() ==> final(store)@.sound(),
{
    if next == rec.status {
        return ;
    }
    let mut changed = rec.clone();
    changed.status = next;
    changed.updated_at = now;
    store.upsert(&changed);
    if next.is_terminal() {
        store.ensure_terminal_delivery(&changed, now);
    }
    tally.note_transition(rec.run_id.as_str(), rec.status, next);
}

/// The round in which an answer was understood.
pub open spec fn learned(
    p: Round,
    run: RunRecordView,
    probe: ProbeInterpretationView,
    exit_code: Option<u32>,
    now: Timestamp,
) -> Round {
    let seen = polling::sighting(
        run,
        probe.source,
        ObservationHealth::Fresh,
        probe.status,
        polling::kept_text(probe.raw_state),
        None,
        exit_code,
        now,
    );
    transited(Round { store: runs::observed(p.store, seen), ..p }, run, probe.status, now)
}

fn learn(
    store: &mut RunStore,
    rec: &RunRecord,
    probe: &ProbeInterpretation,
    exit_code: Option<u32>,
    tally: &mut Tally,
    now: Timestamp,
)
    ensures
        final(tally).round(final(store)@) == learned(
            old(tally).round(old(store)@),
            rec@,
            probe@,
            exit_code,
            now,
        ),
        old(store)@.sound() ==> final(store)@.sound(),
{
    persist_observation(
        store,
        rec,
        probe.source,
        ObservationHealth::Fresh,
        probe.status,
        observation_text(probe.raw_state.as_str()),
        None,
        exit_code,
        now,
    );
    persist_remote_transition(store, rec, probe.status, tally, now);
}

/// The round in which nothing was learned of a run: it keeps its status, and
/// what went wrong is written down.
pub open spec fn missed(
    p: Round,
    run: RunRecordView,
    source: ObservationSource,
    health: ObservationHealth,
    raw_state: Option<Seq<char>>,
    reason: Option<Seq<char>>,
    message: Seq<char>,
    exit_code: Option<u32>,
    now: Timestamp,
) -> Round {
    let seen = polling::sighting(run, source, health, run.status, raw_state, reason, exit_code, now);
    Round {
        store: runs::observed(p.store, seen),
        transitions: p.transitions,
        errors: p.errors.push(run.run_id + ": "@ + message),
    }
}

fn miss(
    store: &mut RunStore,
    rec: &RunRecord,
    source: ObservationSource,
    health: ObservationHealth,
    raw_state: Option<String>,
    reason: Option<String>,
    message: &str,
    exit_code: Option<u32>,
    tally: &mut Tally,
    now: Timestamp,
)
    ensures
        final(tally).round(final(store)@) == missed(
            old(tally).round(old(store)@),
            rec@,
            source,
            health,
            text::text_opt(raw_state),
            text::text_opt(reason),
            message@,
            exit_code,
            now,
        ),
        old(store)@.sound() ==> final(store)@.sound(),
{
    persist_observation(
        store,
        rec,
        source,
        health,
        rec.status,
        raw_state,
        reason,
        exit_code,
        now,
    );
    tally.note_error(rec.run_id.as_str(), message);
}

/// How the failed exit of a probe is told.
pub open spec fn exit_detail(what: Seq<char>, output: ExecOutputView) -> Seq<char> {
    let head = what + " exit status "@ + text::shown_option(output.code);
    match polling::kept_text(output.stderr) {
        None => head,
        Some(stderr) => head + ": "@ + stderr,
    }
}

fn tell_exit(what: &str, output: &ExecOutput) -> (detail: String)
    ensures
        detail@ == exit_detail(what@, output@),
{
    let mut detail = what.to_owned();
    detail.append(" exit status ");
    detail.append(show_option(output.code).as_str());
    if let Some(stderr) = observation_text(output.stderr.as_str()) {
        detail.append(": ");
        detail.append(stderr.as_str());
    }
    detail
}

pub open spec fn or_else(value: Option<Seq<char>>, other: Seq<char>) -> Seq<char> {
    match value {
        Some(value) => value,
        None => other,
    }
}

/// The round after a host's answer about one run.
pub open spec fn answered(p: Round, run: RunRecordView, result: ExecResultView, now: Timestamp) -> Round {
    match result {
        ExecResultView::Output(output) => {
            let probe = probe::observation(run, output.stdout);
            let unknown = "remote probe returned an unrecognized execution state"@;
            let detail = exit_detail("remote probe"@, output);
            if output.code == Some(0u32) && probe.recognized {
                learned(p, run, probe, output.code, now)
            } else if output.code == Some(0u32) {
                missed(
                    p,
                    run,
                    probe.source,
                    ObservationHealth::ProbeError,
                    polling::kept_text(probe.raw_state),
                    Some(unknown),
                    unknown,
                    output.code,
                    now,
                )
            } else {
                missed(
                    p,
                    run,
                    probe.source,
                    ObservationHealth::ProbeError,
                    polling::kept_text(probe.raw_state),
                    polling::kept_text(detail),
                    or_else(polling::kept_text(detail), "remote probe failed"@),
                    output.code,
                    now,
                )
            }
        },
        ExecResultView::Failure(error) => missed(
            p,
            run,
            ObservationSource::Transport,
            ObservationHealth::Unreachable,
            None,
            polling::kept_text(error.full),
            error.brief,
            None,
            now,
        ),
    }
}

/// Takes a host's answer about one run.
pub fn absorb_answer(
    store: &mut RunStore,
    rec: &RunRecord,
    result: &ExecResult,
    tally: &mut Tally,
    now: Timestamp,
)
    ensures
        final(tally).round(final(store)@) == answered(
            old(tally).round(old(store)@),
            rec@,
            result@,
            now,
        ),
        old(store)@.sound() ==> final(store)@.sound(),
{
    let output = match result {
        ExecResult::Output(output) => output,
        ExecResult::Failure(error) => {
            miss(
                store,
                rec,
                ObservationSource::Transport,
                ObservationHealth::Unreachable,
                None,
                observation_text(error.full.as_str()),
                error.brief.as_str(),
                None,
                tally,
                now,
            );
            return ;
        },
    };
    let probe = interpret_observation(rec, output.stdout.as_str());
    if output.code == Some(0u32) && probe.recognized {
        learn(store, rec, &probe, output.code, tally, now);
        return ;
    }
    let raw_state = observation_text(probe.raw_state.as_str());
    if output.code == Some(0u32) {
        let unknown = "remote probe returned an unrecognized execution state";
        miss(
            store,
            rec,
            probe.source,
            ObservationHealth::ProbeError,
            raw_state,
            Some(unknown.to_owned()),
            unknown,
            output.code,
            tally,
            now,
        );
        return ;
    }
    let reason = observation_text(tell_exit("remote probe", output).as_str());
    let message = match &reason {
        Some(reason) => reason.clone(),
        None => "remote probe failed".to_owned(),
    };
    miss(
        store,
        rec,
        probe.source,
        ObservationHealth::ProbeError,
        raw_state,
        reason,
        message.as_str(),
        output.code,
        tally,
        now,
    );
}

/// The round after a look at a process on this machine.
pub open spec fn watched(
    p: Round,
    run: RunRecordView,
    looked: Result<RunStatus, Seq<char>>,
    now: Timestamp,
) -> Round {
    match looked {
        Err(error) => missed(
            p,
            run,
            ObservationSource::LocalProcess,
            ObservationHealth::ProbeError,
            run.job_id,
            polling::kept_text(error),
            error,
            None,
            now,
        ),
        Ok(next) => {
            let seen = polling::sighting(
                run,
                ObservationSource::LocalProcess,
                ObservationHealth::Fresh,
                next,
                run.job_id,
                None,
                None,
                now,
            );
            let s = runs::observed(p.store, seen);
            if next == run.status {
                Round { store: s, ..p }
            } else {
                let changed = runs::restated(run, next, now);
                let t = match polling::attempt_of(s, run) {
                    Some(attempt) => runs::recorded(
                        s,
                        changed,
                        RunAttemptRecordView { status: next, updated_at: now, ..attempt },
                        "local_process_observed"@,
                    ),
                    None => s.with_run(changed),
                };
                Round {
                    store: if next.terminal() {
                        deliveries::notified(t, changed, now)
                    } else {
                        t
                    },
                    transitions: p.transitions.push(
                        TransitionView { run_id: run.run_id, from: run.status, to: next },
                    ),
                    errors: p.errors,
                }
            }
        },
    }
}

/// Takes what a look at a process on this machine has shown.
pub fn absorb_local(
    store: &mut RunStore,
    rec: &RunRecord,
    looked: &Result<RunStatus, String>,
    tally: &mut Tally,
    now: Timestamp,
)
    ensures
        final(tally).round(final(store)@) == watched(
            old(tally).round(old(store)@),
            rec@,
            match *looked {
                Ok(next) => Ok(next),
                Err(error) => Err(error@),
            },
            now,
        ),
        old(store)@.sound() ==> final(store)@.sound(),
{
    let next = match looked {
        Ok(next) => *next,
        Err(error) => {
            miss(
                store,
                rec,
                ObservationSource::LocalProcess,
                ObservationHealth::ProbeError,
                clone_text(&rec.job_id),
                observation_text(error.as_str()),
                error.as_str(),
                None,
                tally,
                now,
            );
            return ;
        },
    };
    persist_observation(
        store,
        rec,
        ObservationSource::LocalProcess,
        ObservationHealth::Fresh,
        next,
        clone_text(&rec.job_id),
        None,
        None,
        now,
    );
    if next == rec.status {
        return ;
    }
    let mut changed = rec.clone();
    changed.status = next;
    changed.updated_at = now;
    let found = match rec.attempt_no {
        Some(number) => store.get_attempt(rec.run_id.as_str(), number),
        None => None,
    };
    match found {
        Some(attempt) => {
            let mut attempt = attempt;
            attempt.status = next;
            attempt.updated_at = now;
            store.persist_run_attempt_event(&changed, &attempt, "local_process_observed");
        },
        None => store.upsert(&changed),
    }
    if next.is_terminal() {
        store.ensure_terminal_delivery(&changed, now);
    }
    tally.note_transition(rec.run_id.as_str(), rec.status, next);
}

// ---------------------------------------------------------------------------
// Several runs at once
// ---------------------------------------------------------------------------

/// The round in which nothing was learned of the first `count` runs.
pub open spec fn all_missed(
    p: Round,
    runs: Seq<RunRecordView>,
    count: nat,
    source: ObservationSource,
    health: ObservationHealth,
    reason: Option<Seq<char>>,
    message: Seq<char>,
    exit_code: Option<u32>,
    now: Timestamp,
) -> Round
    decreases count,
{
    if count == 0 {
        p
    } else {
        missed(
            all_missed(
                p,
                runs,
                (count - 1) as nat,
                source,
                health,
                reason,
                message,
                exit_code,
                now,
            ),
            runs[count - 1],
            source,
            health,
            None,
            reason,
            message,
            exit_code,
            now,
        )
    }
}

fn miss_all(
    store: &mut RunStore,
    records: &Vec<RunRecord>,
    source: ObservationSource,
    health: ObservationHealth,
    reason: &Option<String>,
    message: &str,
    exit_code: Option<u32>,
    tally: &mut Tally,
    now: Timestamp,
)
    ensures
        final(tally).round(final(store)@) == all_missed(
            old(tally).round(old(store)@),
            records.deep_view(),
            records@.len(),
            source,
            health,
            text::text_opt(*reason),
            message@,
            exit_code,
            now,
        ),
        old(store)@.sound() ==> final(store)@.sound(),
{
    let ghost start = tally.round(store@);
    let ghost was_sound = store@.sound();
    let mut i: usize = 0;
    while i < records.len()
        invariant
            i <= records@.len(),
            was_sound ==> store@.sound(),
            tally.round(store@) == all_missed(
                start,
                records.deep_view(),
                i as nat,
                source,
                health,
                text::text_opt(*reason),
                message@,
                exit_code,
                now,
            ),
        decreases records@.len() - i,
    {
        assert(records.deep_view()[i as int] == records@[i as int]@);
        miss(
            store,
            &records[i],
            source,
            health,
            None,
            clone_text(reason),
            message,
            exit_code,
            tally,
            now,
        );
        i += 1;
    }
}

/// The round in which a batch went without an answer.
pub open spec fn batch_missed(
    p: Round,
    runs: Seq<RunRecordView>,
    what: Seq<char>,
    result: ExecResultView,
    now: Timestamp,
) -> Round {
    match result {
        ExecResultView::Output(output) => all_missed(
            p,
            runs,
            runs.len(),
            ObservationSource::Scheduler,
            ObservationHealth::ProbeError,
            polling::kept_text(exit_detail(what, output)),
            exit_detail(what, output),
            output.code,
            now,
        ),
        ExecResultView::Failure(error) => all_missed(
            p,
            runs,
            runs.len(),
            ObservationSource::Transport,
            ObservationHealth::Unreachable,
            polling::kept_text(error.full),
            error.brief,
            None,
            now,
        ),
    }
}

fn miss_batch(
    store: &mut RunStore,
    records: &Vec<RunRecord>,
    what: &str,
    result: &ExecResult,
    tally: &mut Tally,
    now: Timestamp,
)
    ensures
        final(tally).round(final(store)@) == batch_missed(
            old(tally).round(old(store)@),
            records.deep_view(),
            what@,
            result@,
            now,
        ),
        old(store)@.sound() ==> final(store)@.sound(),
{
    assert(records.deep_view().len() == records@.len());
    match result {
        ExecResult::Output(output) => {
            let detail = tell_exit(what, output);
            let reason = observation_text(detail.as_str());
            miss_all(
                store,
                records,
                ObservationSource::Scheduler,
                ObservationHealth::ProbeError,
                &reason,
                detail.as_str(),
                output.code,
                tally,
                now,
            );
        },
        ExecResult::Failure(error) => {
            let reason = observation_text(error.full.as_str());
            miss_all(
                store,
                records,
                ObservationSource::Transport,
                ObservationHealth::Unreachable,
                &reason,
                error.brief.as_str(),
                None,
                tally,
                now,
            );
        },
    }
}

/// Whether a batch was answered.
pub open spec fn batch_answer(result: ExecResultView) -> Option<Seq<char>> {
    match result {
        ExecResultView::Output(output) => if output.code == Some(0u32) {
            Some(output.stdout)
        } else {
            None
        },
        ExecResultView::Failure(_) => None,
    }
}

/// The round after Slurm's answer about one run of a batch.
pub open spec fn slurm_answered(
    p: Round,
    run: RunRecordView,
    result: SlurmBatchProbeResultView,
    now: Timestamp,
) -> Round {
    if result.probe.recognized {
        learned(p, run, result.probe, Some(0u32), now)
    } else {
        let reason = or_else(result.reason, "batched Slurm probe returned no recognized state"@);
        missed(
            p,
            run,
            result.probe.source,
            ObservationHealth::ProbeError,
            polling::kept_text(result.probe.raw_state),
            Some(reason),
            reason,
            Some(0u32),
            now,
        )
    }
}

/// The round after Slurm's answers about the first `count` runs of a batch.
pub open spec fn slurm_walk(
    p: Round,
    runs: Seq<RunRecordView>,
    results: Seq<SlurmBatchProbeResultView>,
    count: nat,
    now: Timestamp,
) -> Round
    decreases count,
{
    if count == 0 {
        p
    } else {
        slurm_answered(
            slurm_walk(p, runs, results, (count - 1) as nat, now),
            runs[count - 1],
            results[count - 1],
            now,
        )
    }
}

/// The round after Slurm was asked about a batch.
pub open spec fn slurm_polled(
    p: Round,
    runs: Seq<RunRecordView>,
    result: ExecResultView,
    now: Timestamp,
) -> Round {
    match batch_answer(result) {
        Some(stdout) => slurm_walk(
            p,
            runs,
            probe::slurm_batch_results(runs, stdout),
            runs.len(),
            now,
        ),
        None => batch_missed(p, runs, "batched Slurm remote probe"@, result, now),
    }
}

fn absorb_slurm_result(
    store: &mut RunStore,
    rec: &RunRecord,
    result: &SlurmBatchProbeResult,
    tally: &mut Tally,
    now: Timestamp,
)
    ensures
        final(tally).round(final(store)@) == slurm_answered(
            old(tally).round(old(store)@),
            rec@,
            result@,
            now,
        ),
        old(store)@.sound() ==> final(store)@.sound(),
{
    if result.probe.recognized {
        learn(store, rec, &result.probe, Some(0u32), tally, now);
        return ;
    }
    let reason = match &result.reason {
        Some(reason) => reason.clone(),
        None => "batched Slurm probe returned no recognized state".to_owned(),
    };
    miss(
        store,
        rec,
        result.probe.source,
        ObservationHealth::ProbeError,
        observation_text(result.probe.raw_state.as_str()),
        Some(reason.clone()),
        reason.as_str(),
        Some(0u32),
        tally,
        now,
    );
}

/// Takes Slurm's answer about a batch. No run of the batch is looked at again
/// in this round.
pub fn absorb_slurm_batch(
    store: &mut RunStore,
    records: &Vec<RunRecord>,
    result: &ExecResult,
    tally: &mut Tally,
    now: Timestamp,
)
    ensures
        final(tally).round(final(store)@) == slurm_polled(
            old(tally).round(old(store)@),
            records.deep_view(),
            result@,
            now,
        ),
        old(store)@.sound() ==> final(store)@.sound(),
{
    if let ExecResult::Output(output) = result {
        if output.code == Some(0u32) {
            let results = interpret_slurm_batch(records.as_slice(), output.stdout.as_str());
            let ghost start = tally.round(store@);
            let ghost was_sound = store@.sound();
            let ghost read = probe::slurm_batch_results(records.deep_view(), output.stdout@);
            assert(results.deep_view().len() == results@.len());
            assert(records.deep_view().len() == records@.len());
            let mut i: usize = 0;
            while i < records.len()
                invariant
                    i <= records@.len(),
                    results@.len() == records@.len(),
                    results.deep_view() == read,
                    was_sound ==> store@.sound(),
                    tally.round(store@) == slurm_walk(
                        start,
                        records.deep_view(),
                        read,
                        i as nat,
                        now,
                    ),
                decreases records@.len() - i,
            {
                assert(records.deep_view()[i as int] == records@[i as int]@);
                assert(results.deep_view()[i as int] == results@[i as int]@);
                absorb_slurm_result(store, &records[i], &results[i], tally, now);
                i += 1;
            }
            return ;
        }
    }
    miss_batch(store, records, "batched Slurm remote probe", result, tally, now);
}

/// Whether LSF's answer settles this round for a run. A job that it does not
/// list may have aged out: the run is then asked about alone, with its history.
pub open spec fn lsf_settles(result: LsfBatchProbeResultView) -> bool {
    result.probe.recognized || result.probe.source == ObservationSource::Sentinel
}

/// The round after LSF's answer about one run of a batch.
pub open spec fn lsf_answered(
    p: Round,
    run: RunRecordView,
    result: LsfBatchProbeResultView,
    now: Timestamp,
) -> Round {
    if result.probe.recognized {
        learned(p, run, result.probe, Some(0u32), now)
    } else if result.probe.source == ObservationSource::Sentinel {
        let reason = or_else(result.reason, "batched LSF sentinel was not recognized"@);
        missed(
            p,
            run,
            ObservationSource::Sentinel,
            ObservationHealth::ProbeError,
            polling::kept_text(result.probe.raw_state),
            Some(reason),
            reason,
            Some(0u32),
            now,
        )
    } else {
        p
    }
}

/// The round after LSF's answers about the first `count` runs of a batch.
pub open spec fn lsf_walk(
    p: Round,
    runs: Seq<RunRecordView>,
    results: Seq<LsfBatchProbeResultView>,
    count: nat,
    now: Timestamp,
) -> Round
    decreases count,
{
    if count == 0 {
        p
    } else {
        lsf_answered(
            lsf_walk(p, runs, results, (count - 1) as nat, now),
            runs[count - 1],
            results[count - 1],
            now,
        )
    }
}

/// The names of those of the first `count` runs that LSF's answers settle.
pub open spec fn lsf_settled(
    runs: Seq<RunRecordView>,
    results: Seq<LsfBatchProbeResultView>,
    count: nat,
) -> Seq<Seq<char>>
    decreases count,
{
    if count == 0 {
        Seq::empty()
    } else {
        let before = lsf_settled(runs, results, (count - 1) as nat);
        if lsf_settles(results[count - 1]) {
            before.push(runs[count - 1].run_id)
        } else {
            before
        }
    }
}

/// The round after LSF was asked about a batch.
pub open spec fn lsf_polled(
    p: Round,
    runs: Seq<RunRecordView>,
    result: ExecResultView,
    now: Timestamp,
) -> Round {
    match batch_answer(result) {
        Some(stdout) => lsf_walk(p, runs, probe::lsf_batch_results(runs, stdout), runs.len(), now),
        None => batch_missed(p, runs, "batched LSF remote probe"@, result, now),
    }
}

/// The names of the runs that are done with in this round.
pub open spec fn lsf_handled(runs: Seq<RunRecordView>, result: ExecResultView) -> Seq<Seq<char>> {
    match batch_answer(result) {
        Some(stdout) => lsf_settled(runs, probe::lsf_batch_results(runs, stdout), runs.len()),
        None => runs.map_values(polling::run_name()),
    }
}

fn absorb_lsf_result(
    store: &mut RunStore,
    rec: &RunRecord,
    result: &LsfBatchProbeResult,
    tally: &mut Tally,
    now: Timestamp,
) -> (settled: bool)
    ensures
        settled == lsf_settles(result@),
        final(tally).round(final(store)@) == lsf_answered(
            old(tally).round(old(store)@),
            rec@,
            result@,
            now,
        ),
        old(store)@.sound() ==> final(store)@.sound(),
{
    if result.probe.recognized {
        learn(store, rec, &result.probe, Some(0u32), tally, now);
        return true;
    }
    if result.probe.source != ObservationSource::Sentinel {
        return false;
    }
    let reason = match &result.reason {
        Some(reason) => reason.clone(),
        None => "batched LSF sentinel was not recognized".to_owned(),
    };
    miss(
        store,
        rec,
        ObservationSource::Sentinel,
        ObservationHealth::ProbeError,
        observation_text(result.probe.raw_state.as_str()),
        Some(reason.clone()),
        reason.as_str(),
        Some(0u32),
        tally,
        now,
    );
    true
}

/// Takes LSF's answer about a batch, and gives back the names of the runs that
/// are done with in this round.
pub fn absorb_lsf_batch(
    store: &mut RunStore,
    records: &Vec<RunRecord>,
    result: &ExecResult,
    tally: &mut Tally,
    now: Timestamp,
) -> (handled: Vec<String>)
    ensures
        handled.deep_view() == lsf_handled(records.deep_view(), result@),
        final(tally).round(final(store)@) == lsf_polled(
            old(tally).round(old(store)@),
            records.deep_view(),
            result@,
            now,
        ),
        old(store)@.sound() ==> final(store)@.sound(),
{
    if let ExecResult::Output(output) = result {
        if output.code == Some(0u32) {
            let results = interpret_lsf_batch(records.as_slice(), output.stdout.as_str());
            let ghost start = tally.round(store@);
            let ghost was_sound = store@.sound();
            let ghost read = probe::lsf_batch_results(records.deep_view(), output.stdout@);
            let mut handled: Vec<String> = Vec::new();
            assert(results.deep_view().len() == results@.len());
            assert(records.deep_view().len() == records@.len());
            assert(handled.deep_view() =~= Seq::<Seq<char>>::empty());
            let mut i: usize = 0;
            while i < records.len()
                invariant
                    i <= records@.len(),
                    results@.len() == records@.len(),
                    results.deep_view() == read,
                    was_sound ==> store@.sound(),
                    tally.round(store@) == lsf_walk(
                        start,
                        records.deep_view(),
                        read,
                        i as nat,
                        now,
                    ),
                    handled.deep_view() == lsf_settled(records.deep_view(), read, i as nat),
                decreases records@.len() - i,
            {
                assert(records.deep_view()[i as int] == records@[i as int]@);
                assert(results.deep_view()[i as int] == results@[i as int]@);
                let settled = absorb_lsf_result(store, &records[i], &results[i], tally, now);
                if settled {
                    let name = records[i].run_id.clone();
                    let ghost before = handled;
                    handled.push(name);
                    proof {
                        seqs::lemma_deep_push(before, handled, name);
                    }
                }
                i += 1;
            }
            return handled;
        }
    }
    miss_batch(store, records, "batched LSF remote probe", result, tally, now);
    polling::names_of(records)
}

// ---------------------------------------------------------------------------
// A round
// ---------------------------------------------------------------------------

/// Which runs a round looks at.
pub enum Selection {
    All,
    One(String),
    /// The due ones that no batch has dealt with.
    Due { due: Vec<String>, handled: Vec<String> },
}

impl Selection {
    pub open spec fn covers(self, run: RunRecordView) -> bool {
        match self {
            Selection::All => true,
            Selection::One(run_id) => run.run_id == run_id@,
            Selection::Due { due, handled } => due.deep_view().contains(run.run_id)
                && !handled.deep_view().contains(run.run_id),
        }
    }

    pub fn takes(&self, rec: &RunRecord) -> (yes: bool)
        ensures
            yes == self.covers(rec@),
    {
        match self {
            Selection::All => true,
            Selection::One(run_id) => rec.run_id == *run_id,
            Selection::Due { due, handled } => polling::holds_name(due, &rec.run_id)
                && !polling::holds_name(handled, &rec.run_id),
        }
    }
}

/// What is to be done about a run.
pub enum PollStep {
    /// Nothing.
    Skip,
    /// Its process on this machine is looked at.
    Local,
    /// Its host is asked.
    Remote { host: String, command: String },
}

/// What is to be done about a run in a round.
pub open spec fn step_answers(
    run: RunRecordView,
    selection: Selection,
    step: PollStep,
) -> bool {
    if run.status.terminal() || !selection.covers(run) {
        step is Skip
    } else if run.runner == RunnerKind::Process {
        step is Local
    } else {
        match (probe::remote_question(run), step) {
            (Some(question), PollStep::Remote { host, command }) => host@ == run.host && command@
                == question,
            (None, PollStep::Skip) => true,
            _ => false,
        }
    }
}

/// What is to be done about a run in a round. A run that has ended gets the
/// notice that it still owes.
pub fn poll_step(
    store: &mut RunStore,
    rec: &RunRecord,
    selection: &Selection,
    now: Timestamp,
) -> (step: PollStep)
    ensures
        step_answers(rec@, *selection, step),
        final(store)@ == if rec@.status.terminal() {
            deliveries::notified(old(store)@, rec@, now)
        } else {
            old(store)@
        },
        old(store)@.sound() ==> final(store)@.sound(),
{
    if rec.status.is_terminal() {
        store.ensure_terminal_delivery(rec, now);
        return PollStep::Skip;
    }
    if !selection.takes(rec) {
        return PollStep::Skip;
    }
    if rec.runner == RunnerKind::Process {
        return PollStep::Local;
    }
    match remote_command(rec) {
        Some(command) => PollStep::Remote { host: rec.host.clone(), command },
        None => PollStep::Skip,
    }
}

/// Which runs a round looks at that is about one run.
pub fn probe_run(store: &RunStore, run_id: &str) -> (result: Result<Selection, String>)
    ensures
        match result {
            Ok(selection) => {
                &&& store@.run(run_id@) is Some
                &&& selection matches Selection::One(name) && name@ == run_id@
            },
            Err(reason) => store@.run(run_id@) is None && reason@ == "unknown run "@ + run_id@,
        },
{
    match store.get(run_id) {
        Some(_) => Ok(Selection::One(run_id.to_owned())),
        None => {
            let mut reason = "unknown run ".to_owned();
            reason.append(run_id);
            Err(reason)
        },
    }
}

/// What a round has found.
pub struct TickReport {
    pub runs: Vec<RunRecord>,
    pub transitions: Vec<Transition>,
    pub errors: Vec<String>,
}

/// The report of a round.
pub fn finish_tick(store: &RunStore, tally: Tally) -> (report: TickReport)
    ensures
        report.runs.deep_view() == store@.runs,
        report.transitions == tally.transitions,
        report.errors == tally.errors,
{
    TickReport { runs: store.list(), transitions: tally.transitions, errors: tally.errors }
}

/// The report of a round that broke off.
pub fn failed_tick(store: &RunStore, error: &str) -> (report: TickReport)
    ensures
        report.runs.deep_view() == store@.runs,
        report.transitions.deep_view() == Seq::<TransitionView>::empty(),
        report.errors.deep_view() == seq![error@],
{
    let tally = Tally::new();
    let mut errors: Vec<String> = Vec::new();
    errors.push(error.to_owned());
    assert(errors.deep_view() =~= seq![error@]);
    TickReport { runs: store.list(), transitions: tally.transitions, errors }
}

pub open spec fn is_live() -> spec_fn(RunRecordView) -> bool {
    |run: RunRecordView| !run.status.terminal()
}

pub open spec fn has_failed() -> spec_fn(RunRecordView) -> bool {
    |run: RunRecordView| run.status == RunStatus::Failed
}

/// A run in one line.
pub open spec fn report_row(run: RunRecordView) -> Seq<char> {
    run.run_id + "  "@ + run.status.name() + "  "@ + run.host + "  job "@ + or_else(
        run.job_id,
        "-"@,
    )
}

/// How many runs are shown of so many.
pub open spec fn shown_rows(total: nat) -> nat {
    if total < REPORT_ROWS {
        total
    } else {
        REPORT_ROWS as nat
    }
}

/// The last runs, the latest first.
pub open spec fn report_rows(runs: Seq<RunRecordView>) -> Seq<Seq<char>> {
    Seq::new(shown_rows(runs.len()), |i: int| report_row(runs[runs.len() - 1 - i]))
}

/// The counts of a report.
pub open spec fn report_head(runs: Seq<RunRecordView>) -> Seq<char> {
    text::decimal(runs.filter(is_live()).len()) + " live    "@ + text::decimal(
        runs.filter(has_failed()).len(),
    ) + " failed    "@ + text::decimal(runs.len()) + " total"@
}

pub open spec fn report_body(runs: Seq<RunRecordView>) -> Seq<char> {
    if runs.len() == 0 {
        "No runs in runwatch.db yet."@
    } else {
        text::joined(report_rows(runs), "\n"@)
    }
}

fn show_row(rec: &RunRecord) -> (row: String)
    ensures
        row@ == report_row(rec@),
{
    let mut row = rec.run_id.clone();
    row.append("  ");
    row.append(rec.status.as_text().as_str());
    row.append("  ");
    row.append(rec.host.as_str());
    row.append("  job ");
    match &rec.job_id {
        Some(job) => row.append(job.as_str()),
        None => row.append("-"),
    }
    row
}

impl TickReport {
    /// The counts and the latest runs.
    pub fn summarize(&self) -> (lines: (String, String))
        ensures
            lines.0@ == report_head(self.runs.deep_view()),
            lines.1@ == report_body(self.runs.deep_view()),
    {
        let ghost all = self.runs.deep_view();
        assert(all.len() == self.runs@.len());
        let live_test = |rec: &RunRecord| -> (yes: bool)
            ensures
                yes == is_live()(rec.deep_view()),
            {
                !rec.status.is_terminal()
            };
        let failed_test = |rec: &RunRecord| -> (yes: bool)
            ensures
                yes == has_failed()(rec.deep_view()),
            {
                rec.status == RunStatus::Failed
            };
        let live = count(&self.runs, live_test, Ghost(is_live()));
        let failed = count(&self.runs, failed_test, Ghost(has_failed()));
        let mut head = decimal_text(live as u64);
        head.append(" live    ");
        head.append(decimal_text(failed as u64).as_str());
        head.append(" failed    ");
        head.append(decimal_text(self.runs.len() as u64).as_str());
        head.append(" total");
        if self.runs.len() == 0 {
            return (head, "No runs in runwatch.db yet.".to_owned());
        }
        let total = self.runs.len();
        let shown: usize = if total < REPORT_ROWS {
            total
        } else {
            REPORT_ROWS
        };
        let mut rows: Vec<String> = Vec::new();
        let mut i: usize = 0;
        while i < shown
            invariant
                i <= shown <= total,
                shown == shown_rows(all.len()),
                total == self.runs@.len(),
                all == self.runs.deep_view(),
                all.len() == total,
                text::texts(rows@) =~= report_rows(all).take(i as int),
            decreases shown - i,
        {
            let row = show_row(&self.runs[total - 1 - i]);
            proof {
                text::lemma_texts_push(rows@, row);
                assert(all[total - 1 - i] == self.runs@[total - 1 - i]@);
            }
            rows.push(row);
            i += 1;
        }
        assert(text::texts(rows@) =~= report_rows(all));
        (head, text::join(&rows, "\n"))
    }
}

// ---------------------------------------------------------------------------
// Laws
// ---------------------------------------------------------------------------

/// A look that brings nothing never changes a run: neither a host that cannot
/// be reached nor an answer that is not understood.
pub proof fn failed_look_changes_no_run(
    p: Round,
    run: RunRecordView,
    result: ExecResultView,
    now: Timestamp,
)
    requires
        match result {
            ExecResultView::Output(output) => output.code != Some(0u32) || !probe::observation(
                run,
                output.stdout,
            ).recognized,
            ExecResultView::Failure(_) => true,
        },
    ensures
        answered(p, run, result, now).store.runs == p.store.runs,
        answered(p, run, result, now).store.attempts == p.store.attempts,
        answered(p, run, result, now).store.deliveries == p.store.deliveries,
        answered(p, run, result, now).transitions == p.transitions,
{
}

/// Looking at an unchanged run makes no transition and leaves every run as it
/// is.
pub proof fn unchanged_run_makes_no_transition(
    p: Round,
    run: RunRecordView,
    output: ExecOutputView,
    now: Timestamp,
)
    requires
        probe::observation(run, output.stdout).status == run.status,
    ensures
        answered(p, run, ExecResultView::Output(output), now).store.runs == p.store.runs,
        answered(p, run, ExecResultView::Output(output), now).transitions == p.transitions,
{
}

/// A run that ends in a round owes its session a notice, and has one afterwards
/// where it is bound to a session.
pub proof fn ended_run_has_its_notice(
    p: Round,
    run: RunRecordView,
    next: RunStatus,
    now: Timestamp,
)
    requires
        next != run.status,
        next.terminal(),
        p.store.binding(run.run_id) is Some,
    ensures
        transited(p, run, next, now).store.delivery(
            deliveries::terminal_delivery_id(run.run_id, deliveries::ended_attempt(run)),
        ) is Some,
{
    let changed = runs::restated(run, next, now);
    let s = p.store.with_run(changed);
    crate::store::laws::notice_is_made_once(s, changed, now, now);
}

/// A run waits at least the base interval between two looks, and at most five
/// minutes or the base interval.
pub proof fn interval_is_bounded(
    run: RunRecordView,
    health: Option<ObservationHealth>,
    base: nat,
)
    ensures
        probe_floor(base) <= polling::probe_interval(run, health, base),
        polling::probe_interval(run, health, base) <= base || polling::probe_interval(
            run,
            health,
            base,
        ) <= polling::MAX_PROBE_SECONDS,
{
    let floor = probe_floor(base);
    let factor = polling::patience(run.status, health);
    assert(floor * factor >= floor) by (nonlinear_arith)
        requires
            floor >= 1,
            factor >= 1,
    ;
}

/// The base interval, at least one second.
pub open spec fn probe_floor(base: nat) -> nat {
    if base < 1 {
        1
    } else {
        base
    }
}

/// A run that LSF did not list is looked at alone in the same round.
pub proof fn unlisted_run_is_asked_alone(
    runs: Seq<RunRecordView>,
    results: Seq<LsfBatchProbeResultView>,
    i: int,
)
    requires
        0 <= i < runs.len(),
        runs.len() == results.len(),
        forall|a: int, b: int|
            0 <= a < b < runs.len() ==> #[trigger] runs[a].run_id != #[trigger] runs[b].run_id,
        !lsf_settles(results[i]),
    ensures
        !lsf_settled(runs, results, runs.len()).contains(runs[i].run_id),
{
    lemma_settled(runs, results, runs.len(), i);
}

proof fn lemma_settled(
    runs: Seq<RunRecordView>,
    results: Seq<LsfBatchProbeResultView>,
    count: nat,
    i: int,
)
    requires
        0 <= i < runs.len(),
        count <= runs.len(),
        runs.len() == results.len(),
        forall|a: int, b: int|
            0 <= a < b < runs.len() ==> #[trigger] runs[a].run_id != #[trigger] runs[b].run_id,
        !lsf_settles(results[i]),
    ensures
        !lsf_settled(runs, results, count).contains(runs[i].run_id),
    decreases count,
{
    if count > 0 {
        lemma_settled(runs, results, (count - 1) as nat, i);
        let before = lsf_settled(runs, results, (count - 1) as nat);
        let name = runs[i].run_id;
        if lsf_settles(results[count - 1]) {
            assert(runs[count - 1].run_id != name);
            let after = before.push(runs[count - 1].run_id);
            if after.contains(name) {
                let j = choose|j: int| 0 <= j < after.len() && after[j] == name;
                if j < before.len() {
                    assert(before[j] == name);
                }
            }
        }
    }
}

} // verus!
