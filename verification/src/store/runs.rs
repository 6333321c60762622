//! Runs, their attempts and what was observed of them.
use crate::paths;
use crate::paths::{join_path, PathStyle};
use crate::seqs;
use crate::seqs::{copy_rows, select, stable_sort};
use crate::store;
use crate::store::{EventPayload, EventPayloadView, RunStore, StoreView};
use crate::text;
use crate::text::{same, text_before};
use crate::time::Timestamp;
use crate::types::{
    same_text, ObservationRecord, ObservationRecordView, RunAttemptRecord, RunAttemptRecordView,
    RunRecord, RunRecordView, RunStatus,
};
use vstd::prelude::*;

verus! {

// ---------------------------------------------------------------------------
// What the requests make of the tables
// ---------------------------------------------------------------------------

/// A database without rows.
pub open spec fn empty_store(path: Seq<char>, legacy_path: Seq<char>) -> StoreView {
    StoreView {
        path,
        legacy_path,
        runs: Seq::empty(),
        attempts: Seq::empty(),
        retries: Seq::empty(),
        events: Seq::empty(),
        observations: Seq::empty(),
        deliveries: Seq::empty(),
        bindings: Seq::empty(),
        leases: Seq::empty(),
        invocations: Seq::empty(),
    }
}

/// The run with another status, changed at `now`.
pub open spec fn restated(run: RunRecordView, status: RunStatus, now: Timestamp) -> RunRecordView {
    RunRecordView { status, updated_at: now, ..run }
}

/// What the event of an attempt tells.
pub open spec fn attempt_event(attempt: RunAttemptRecordView) -> EventPayloadView {
    EventPayloadView::Attempt {
        attempt_no: attempt.attempt_no,
        status: attempt.status,
        job_id: attempt.job_id,
        error: attempt.error,
    }
}

/// The run and the attempt as given, and the event that says so.
pub open spec fn recorded(
    s: StoreView,
    run: RunRecordView,
    attempt: RunAttemptRecordView,
    event_kind: Seq<char>,
) -> StoreView {
    s.with_run(run).with_attempt(attempt).with_event(
        run.run_id,
        run.updated_at,
        event_kind,
        attempt_event(attempt),
    )
}

/// Holds of the attempts of one run.
pub open spec fn of_run(run_id: Seq<char>) -> spec_fn(RunAttemptRecordView) -> bool {
    |row: RunAttemptRecordView| row.run_id == run_id
}

pub open spec fn earlier_attempt() -> spec_fn(RunAttemptRecordView, RunAttemptRecordView) -> bool {
    |a: RunAttemptRecordView, b: RunAttemptRecordView| a.attempt_no < b.attempt_no
}

/// Observations stand by the name of their run, then by attempt.
pub open spec fn earlier_observation() -> spec_fn(
    ObservationRecordView,
    ObservationRecordView,
) -> bool {
    |a: ObservationRecordView, b: ObservationRecordView|
        text::precedes(a.run_id, b.run_id) || (a.run_id == b.run_id && a.attempt_no
            < b.attempt_no)
}

/// Whether two observations differ in more than the moment they were made.
pub open spec fn observed_change(
    before: Option<ObservationRecordView>,
    after: ObservationRecordView,
) -> bool {
    match before {
        Some(seen) => (ObservationRecordView {
            run_id: after.run_id,
            attempt_no: after.attempt_no,
            observed_at: after.observed_at,
            ..seen
        }) != after,
        None => true,
    }
}

/// The observation in its place, with an event where it tells something new.
pub open spec fn observed(s: StoreView, seen: ObservationRecordView) -> StoreView {
    let before = seqs::first(s.observations, store::by_observed(seen.run_id, seen.attempt_no));
    if observed_change(before, seen) {
        s.with_observation(seen).with_event(
            seen.run_id,
            seen.observed_at,
            "observation_changed"@,
            EventPayloadView::Observation(seen),
        )
    } else {
        s.with_observation(seen)
    }
}

// ---------------------------------------------------------------------------
// The requests
// ---------------------------------------------------------------------------

impl RunStore {
    /// The database in the data directory, before its rows are read.
    pub fn open_default(data_dir: &str, style: PathStyle) -> (opened: RunStore)
        ensures
            opened@ == empty_store(
                paths::joined_path(data_dir@, "runwatch.db"@, style),
                paths::joined_path(data_dir@, "runs.jsonl"@, style),
            ),
            opened@.sound(),
    {
        let opened = RunStore {
            path: join_path(data_dir, "runwatch.db", style),
            legacy_path: join_path(data_dir, "runs.jsonl", style),
            runs: Vec::new(),
            attempts: Vec::new(),
            retries: Vec::new(),
            events: Vec::new(),
            observations: Vec::new(),
            deliveries: Vec::new(),
            bindings: Vec::new(),
            leases: Vec::new(),
            invocations: Vec::new(),
        };
        assert(opened@ =~= empty_store(opened.path@, opened.legacy_path@));
        opened
    }

    pub fn path(&self) -> (path: &String)
        ensures
            path@ == self@.path,
    {
        &self.path
    }

    pub fn legacy_path(&self) -> (path: &String)
        ensures
            path@ == self@.legacy_path,
    {
        &self.legacy_path
    }

    /// All runs in the order in which they came.
    pub fn list(&self) -> (rows: Vec<RunRecord>)
        ensures
            rows.deep_view() == self@.runs,
    {
        copy_rows(&self.runs)
    }

    /// Stores the run, in the place of the one of that name where there is one.
    pub fn upsert(&mut self, record: &RunRecord)
        ensures
            final(self)@ == old(self)@.with_run(record@),
            old(self)@.sound() ==> final(self)@.sound(),
    {
        self.put_run(record.clone());
    }

    pub fn get(&self, run_id: &str) -> (found: Option<RunRecord>)
        ensures
            found.deep_view() == self@.run(run_id@),
    {
        let at = self.find_run(run_id);
        if at < self.runs.len() {
            Some(self.runs[at].clone())
        } else {
            None
        }
    }

    /// Gives the run another status, where there is such a run.
    pub fn set_status(&mut self, run_id: &str, status: RunStatus, now: Timestamp) -> (changed:
        Option<RunRecord>)
        ensures
            changed.deep_view() == (match old(self)@.run(run_id@) {
                Some(run) => Some(restated(run, status, now)),
                None => None,
            }),
            final(self)@ == (match old(self)@.run(run_id@) {
                Some(run) => old(self)@.with_run(restated(run, status, now)),
                None => old(self)@,
            }),
            old(self)@.sound() ==> final(self)@.sound(),
    {
        let at = self.find_run(run_id);
        if at < self.runs.len() {
            let mut record = self.runs[at].clone();
            record.status = status;
            record.updated_at = now;
            self.put_run(record.clone());
            Some(record)
        } else {
            None
        }
    }

    pub fn get_attempt(&self, run_id: &str, attempt_no: u32) -> (found: Option<RunAttemptRecord>)
        ensures
            found.deep_view() == self@.attempt(run_id@, attempt_no),
    {
        let at = self.find_attempt(run_id, attempt_no);
        if at < self.attempts.len() {
            Some(self.attempts[at].clone())
        } else {
            None
        }
    }

    /// The attempts of a run by their number.
    pub fn list_attempts(&self, run_id: &str) -> (rows: Vec<RunAttemptRecord>)
        ensures
            rows.deep_view() == seqs::stable_sorted(
                self@.attempts.filter(of_run(run_id@)),
                earlier_attempt(),
            ),
    {
        let test = |row: &RunAttemptRecord| -> (yes: bool)
            ensures
                yes == of_run(run_id@)(row.deep_view()),
            {
                same(row.run_id.as_str(), run_id)
            };
        let rows = select(&self.attempts, test, Ghost(of_run(run_id@)));
        let before = |a: &RunAttemptRecord, b: &RunAttemptRecord| -> (yes: bool)
            ensures
                yes == earlier_attempt()(a.deep_view(), b.deep_view()),
            {
                a.attempt_no < b.attempt_no
            };
        stable_sort(rows, before, Ghost(earlier_attempt()))
    }

    pub fn get_observation(&self, run_id: &str, attempt_no: u32) -> (found: Option<
        ObservationRecord,
    >)
        ensures
            found.deep_view() == seqs::first(
                self@.observations,
                store::by_observed(run_id@, attempt_no),
            ),
    {
        let at = self.find_observation(run_id, attempt_no);
        if at < self.observations.len() {
            Some(self.observations[at].clone())
        } else {
            None
        }
    }

    pub fn list_observations(&self) -> (rows: Vec<ObservationRecord>)
        ensures
            rows.deep_view() == seqs::stable_sorted(self@.observations, earlier_observation()),
    {
        let rows = copy_rows(&self.observations);
        let before = |a: &ObservationRecord, b: &ObservationRecord| -> (yes: bool)
            ensures
                yes == earlier_observation()(a.deep_view(), b.deep_view()),
            {
                text_before(a.run_id.as_str(), b.run_id.as_str()) || (same(
                    a.run_id.as_str(),
                    b.run_id.as_str(),
                ) && a.attempt_no < b.attempt_no)
            };
        stable_sort(rows, before, Ghost(earlier_observation()))
    }

    /// Records what was seen of an attempt, and whether it was news.
    pub fn upsert_observation(&mut self, observation: &ObservationRecord) -> (changed: bool)
        ensures
            changed == observed_change(
                seqs::first(
                    old(self)@.observations,
                    store::by_observed(observation@.run_id, observation@.attempt_no),
                ),
                observation@,
            ),
            final(self)@ == observed(old(self)@, observation@),
            old(self)@.sound() ==> final(self)@.sound(),
    {
        let at = self.find_observation(observation.run_id.as_str(), observation.attempt_no);
        let changed = if at < self.observations.len() {
            let previous = &self.observations[at];
            previous.source != observation.source || previous.health != observation.health
                || previous.execution_status != observation.execution_status || !same_text(
                &previous.raw_state,
                &observation.raw_state,
            ) || !same_text(&previous.reason, &observation.reason) || previous.command_exit_code
                != observation.command_exit_code
        } else {
            true
        };
        self.put_observation(observation.clone());
        if changed {
            self.add_event(
                observation.run_id.clone(),
                observation.observed_at,
                "observation_changed".to_owned(),
                EventPayload::Observation(observation.clone()),
            );
        }
        changed
    }

    /// Records the run, the attempt and the event of their change together.
    pub fn persist_run_attempt_event(
        &mut self,
        run: &RunRecord,
        attempt: &RunAttemptRecord,
        event_kind: &str,
    )
        ensures
            final(self)@ == recorded(old(self)@, run@, attempt@, event_kind@),
            old(self)@.sound() ==> final(self)@.sound(),
    {
        self.put_run(run.clone());
        self.put_attempt(attempt.clone());
        self.add_event(
            run.run_id.clone(),
            run.updated_at,
            event_kind.to_owned(),
            EventPayload::Attempt {
                attempt_no: attempt.attempt_no,
                status: attempt.status,
                job_id: crate::types::clone_text(&attempt.job_id),
                error: crate::types::clone_text(&attempt.error),
            },
        );
    }
}

} // verus!
