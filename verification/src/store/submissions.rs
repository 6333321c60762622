//! How a run, a retry and the scheduler's answer enter the ledger, each at most
//! once.
use crate::seqs;
use crate::seqs::{select, stable_sort};
use crate::store;
use crate::store::runs;
use crate::store::{
    BindingRow, BindingRowView, EventPayload, EventPayloadView, RetryIntentRow, RetryIntentRowView,
    RunStore, StoreView,
};
use crate::text;
use crate::text::{decimal_text, show_option};
use crate::types::{
    same_text, same_workspace, ContinuationBinding, ContinuationBindingView, RetryRunSpec,
    RetryRunSpecView, RunAttemptRecord, RunAttemptRecordView, RunRecord, RunRecordView, RunStatus,
};
use vstd::prelude::*;
use vstd::string::*;

verus! {

// ---------------------------------------------------------------------------
// Submission
// ---------------------------------------------------------------------------

/// Why a new run cannot be entered: a row of it is there without the run.
pub open spec fn intent_refusal(
    s: StoreView,
    run: RunRecordView,
    attempt: RunAttemptRecordView,
    binding: Option<ContinuationBindingView>,
) -> Option<Seq<char>> {
    if s.run(run.run_id) is Some {
        None
    } else if s.attempt(attempt.run_id, attempt.attempt_no) is Some {
        Some("UNIQUE constraint failed: run_attempts.run_id, run_attempts.attempt_no"@)
    } else if binding is Some && s.binding(run.run_id) is Some {
        Some("UNIQUE constraint failed: continuation_bindings.run_id"@)
    } else {
        None
    }
}

/// The ledger with a new run, its attempt, its binding and the event of its
/// submission.
pub open spec fn intended(
    s: StoreView,
    run: RunRecordView,
    attempt: RunAttemptRecordView,
    binding: Option<ContinuationBindingView>,
) -> StoreView {
    let rows = s.with_run(run).with_attempt(attempt);
    let bound = match binding {
        Some(binding) => rows.with_binding(BindingRowView { run_id: run.run_id, binding }),
        None => rows,
    };
    bound.with_event(
        run.run_id,
        run.updated_at,
        "submission_intent"@,
        EventPayloadView::SubmissionIntent {
            attempt_no: attempt.attempt_no,
            runner: attempt.runner,
            host: attempt.host,
            workdir: attempt.workdir,
            job_name: attempt.job_name,
        },
    )
}

/// What a submission leaves: a run of that name stands already, or it is
/// entered, or nothing changes.
pub open spec fn after_intent(
    s: StoreView,
    run: RunRecordView,
    attempt: RunAttemptRecordView,
    binding: Option<ContinuationBindingView>,
) -> StoreView {
    if s.run(run.run_id) is Some || intent_refusal(s, run, attempt, binding) is Some {
        s
    } else {
        intended(s, run, attempt, binding)
    }
}

// ---------------------------------------------------------------------------
// Retry
// ---------------------------------------------------------------------------

/// Why a retry is not well formed, whatever the ledger holds.
pub open spec fn retry_malformed(
    request: RetryRunSpecView,
    run: RunRecordView,
    attempt: RunAttemptRecordView,
) -> Option<Seq<char>> {
    let next = request.expected_attempt_no + 1;
    if next > u32::MAX {
        Some("retry attempt number overflow"@)
    } else if attempt.run_id != request.run_id || attempt.attempt_no != next {
        Some("retry Attempt identity does not match request"@)
    } else if run.run_id != request.run_id || run.attempt_no != Some(next as u32) || run.status
        != RunStatus::Submitting || run.job_id is Some {
        Some("retry Run intent is not a clean submitting N+1 snapshot"@)
    } else {
        None
    }
}

/// The retry that was asked for under this request's name.
pub open spec fn earlier_retry(s: StoreView, request: RetryRunSpecView) -> Option<
    RetryIntentRowView,
> {
    seqs::first(s.retries, store::by_request(request.run_id, request.request_id))
}

/// Whether a status is one from which a run is tried again.
pub open spec fn retryable(status: RunStatus) -> bool {
    status == RunStatus::Failed || status == RunStatus::Cancelled
}

/// Why a retry that was not asked for before cannot start from what the
/// ledger holds of its run.
pub open spec fn retry_conflict(
    s: StoreView,
    request: RetryRunSpecView,
    run: RunRecordView,
    attempt: RunAttemptRecordView,
) -> Option<Seq<char>> {
    match s.run(request.run_id) {
        None => Some("unknown run "@ + request.run_id),
        Some(current) => if current.attempt_no != Some(request.expected_attempt_no) {
            Some(
                "retry expected attempt "@ + text::decimal(request.expected_attempt_no as nat)
                    + " but Run is at "@ + text::shown_option(current.attempt_no),
            )
        } else if !retryable(current.status) {
            Some("retry requires the current Run to be failed or cancelled"@)
        } else if s.binding(request.run_id) is Some {
            Some(
                "retry_run_v1 currently requires an unbound Run; retry agent-bound workflows through the owning Agent Integration"@,
            )
        } else if current.session_id is Some || current.agent is Some || current.project_root is Some {
            Some(
                "retry_run_v1 refuses a Run that carries agent identity without a durable continuation binding; retry through the owning Agent Integration"@,
            )
        } else {
            match s.attempt(request.run_id, request.expected_attempt_no) {
                None => Some("current Run is missing its durable Attempt"@),
                Some(previous) => if !retryable(previous.status) {
                    Some("retry requires the current Attempt to be failed or cancelled"@)
                } else if !same_execution(request, previous, attempt) {
                    Some(
                        "retry Attempt changed immutable execution identity or resource request"@,
                    )
                } else if !same_logical_run(current, run) {
                    Some("retry Run changed immutable logical identity"@)
                } else if s.attempt(attempt.run_id, attempt.attempt_no) is Some {
                    Some(
                        "UNIQUE constraint failed: run_attempts.run_id, run_attempts.attempt_no"@,
                    )
                } else if seqs::present(
                    s.retries,
                    store::by_retry_attempt(request.run_id, attempt.attempt_no),
                ) {
                    Some(
                        "UNIQUE constraint failed: retry_intents.run_id, retry_intents.attempt_no"@,
                    )
                } else {
                    None
                },
            }
        },
    }
}

/// The new attempt runs the same command in the same place, with the
/// resources that were asked for, and has not started.
pub open spec fn same_execution(
    request: RetryRunSpecView,
    previous: RunAttemptRecordView,
    attempt: RunAttemptRecordView,
) -> bool {
    let resources = match request.resources {
        Some(resources) => resources,
        None => previous.resources,
    };
    &&& attempt.runner == previous.runner
    &&& attempt.host == previous.host
    &&& attempt.workdir == previous.workdir
    &&& attempt.command == previous.command
    &&& attempt.resources == resources
    &&& attempt.job_id is None
    &&& attempt.status == RunStatus::Submitting
}

/// The run stays the same logical run, and no agent's.
pub open spec fn same_logical_run(current: RunRecordView, run: RunRecordView) -> bool {
    &&& run.runner == current.runner
    &&& run.host == current.host
    &&& run.workspace == current.workspace
    &&& run.name == current.name
    &&& run.session_id is None
    &&& run.agent is None
    &&& run.project_root is None
}

/// Why a retry is refused.
pub open spec fn retry_refusal(
    s: StoreView,
    request: RetryRunSpecView,
    run: RunRecordView,
    attempt: RunAttemptRecordView,
) -> Option<Seq<char>> {
    if retry_malformed(request, run, attempt) is Some {
        retry_malformed(request, run, attempt)
    } else {
        match earlier_retry(s, request) {
            Some(row) => if row.request != request || row.attempt_no != attempt.attempt_no {
                Some("retry request_id already exists with a different request"@)
            } else {
                None
            },
            None => retry_conflict(s, request, run, attempt),
        }
    }
}

/// The ledger with the next attempt of a run and the request that made it.
pub open spec fn retried(
    s: StoreView,
    request: RetryRunSpecView,
    run: RunRecordView,
    attempt: RunAttemptRecordView,
) -> StoreView {
    let rows = s.with_attempt(attempt).with_run(run);
    StoreView {
        retries: rows.retries.push(
            RetryIntentRowView {
                request,
                attempt_no: attempt.attempt_no,
                created_at: run.updated_at,
            },
        ),
        ..rows
    }.with_event(
        run.run_id,
        run.updated_at,
        "retry_intent"@,
        EventPayloadView::RetryIntent {
            request_id: request.request_id,
            from_attempt_no: request.expected_attempt_no,
            attempt_no: attempt.attempt_no,
            resources: request.resources,
        },
    )
}

/// What a retry leaves.
pub open spec fn after_retry(
    s: StoreView,
    request: RetryRunSpecView,
    run: RunRecordView,
    attempt: RunAttemptRecordView,
) -> StoreView {
    if retry_refusal(s, request, run, attempt) is Some || earlier_retry(s, request) is Some {
        s
    } else {
        retried(s, request, run, attempt)
    }
}

/// Whether the attempt of a retry is still the current one and has no handle.
pub open spec fn awaits_handle(s: StoreView) -> spec_fn(RetryIntentRowView) -> bool {
    |row: RetryIntentRowView|
        (match s.run(row.request.run_id) {
            Some(run) => run.status == RunStatus::Submitting && run.attempt_no == Some(
                row.attempt_no,
            ) && run.job_id is None,
            None => false,
        }) && (match s.attempt(row.request.run_id, row.attempt_no) {
            Some(attempt) => attempt.status == RunStatus::Submitting && attempt.job_id is None,
            None => false,
        })
}

pub open spec fn asked_before() -> spec_fn(RetryIntentRowView, RetryIntentRowView) -> bool {
    |a: RetryIntentRowView, b: RetryIntentRowView| a.created_at.nanos < b.created_at.nanos
}

pub open spec fn request_of() -> spec_fn(RetryIntentRowView) -> RetryRunSpecView {
    |row: RetryIntentRowView| row.request
}

/// The requests whose attempts may have to be submitted again, oldest first.
pub open spec fn pending_retries(s: StoreView) -> Seq<RetryRunSpecView> {
    seqs::stable_sorted(s.retries.filter(awaits_handle(s)), asked_before()).map_values(request_of())
}

// ---------------------------------------------------------------------------
// Acceptance
// ---------------------------------------------------------------------------

/// Why the scheduler's answer is not well formed, whatever the ledger holds.
pub open spec fn acceptance_malformed(run: RunRecordView, attempt: RunAttemptRecordView) -> Option<
    Seq<char>,
> {
    if run.run_id != attempt.run_id || run.attempt_no != Some(attempt.attempt_no) {
        Some("submission acceptance Run/Attempt identity mismatch"@)
    } else if attempt.job_id is None {
        Some("submission acceptance Attempt has no handle"@)
    } else if run.job_id != attempt.job_id || run.status != attempt.status || (run.status
        != RunStatus::Queued && run.status != RunStatus::Running) {
        Some("submission acceptance must carry one queued/running handle snapshot"@)
    } else {
        None
    }
}

/// Nothing but the handle, the status and the moment of change differs.
pub open spec fn same_submission(
    current_run: RunRecordView,
    current: RunAttemptRecordView,
    run: RunRecordView,
    attempt: RunAttemptRecordView,
) -> bool {
    &&& current_run.runner == run.runner
    &&& current_run.host == run.host
    &&& current_run.workspace == run.workspace
    &&& current_run.name == run.name
    &&& current.runner == attempt.runner
    &&& current.host == attempt.host
    &&& current.workdir == attempt.workdir
    &&& current.command == attempt.command
    &&& current.resources == attempt.resources
    &&& current.job_name == attempt.job_name
    &&& current.script_path == attempt.script_path
    &&& current.stdout_path == attempt.stdout_path
    &&& current.stderr_path == attempt.stderr_path
    &&& current.terminal_path == attempt.terminal_path
    &&& current.receipt_path == attempt.receipt_path
}

/// Why the scheduler's answer is refused.
pub open spec fn acceptance_refusal(
    s: StoreView,
    run: RunRecordView,
    attempt: RunAttemptRecordView,
) -> Option<Seq<char>> {
    if acceptance_malformed(run, attempt) is Some {
        acceptance_malformed(run, attempt)
    } else {
        match (s.run(run.run_id), s.attempt(attempt.run_id, attempt.attempt_no)) {
            (None, _) => Some("unknown run "@ + run.run_id + " during submission acceptance"@),
            (Some(_), None) => Some(
                "Run "@ + attempt.run_id + " is missing Attempt "@ + text::decimal(
                    attempt.attempt_no as nat,
                ) + " during submission acceptance"@,
            ),
            (Some(current_run), Some(current)) => if current_run.attempt_no != Some(
                attempt.attempt_no,
            ) {
                Some(
                    "submission acceptance Attempt "@ + text::decimal(attempt.attempt_no as nat)
                        + " is no longer current for Run "@ + run.run_id,
                )
            } else if current.job_id is Some {
                if current.job_id != attempt.job_id || current_run.job_id != current.job_id {
                    Some(
                        "submission acceptance handle conflict for Run "@ + run.run_id
                            + " Attempt "@ + text::decimal(attempt.attempt_no as nat),
                    )
                } else {
                    None
                }
            } else if current_run.job_id is Some || current_run.status != RunStatus::Submitting
                || current.status != RunStatus::Submitting {
                Some(
                    "submission acceptance canonical state is not a clean Submitting snapshot"@,
                )
            } else if !same_submission(current_run, current, run, attempt) {
                Some("submission acceptance changed immutable execution identity"@)
            } else {
                None
            },
        }
    }
}

/// Whether the attempt has a handle already.
pub open spec fn accepted_before(s: StoreView, attempt: RunAttemptRecordView) -> bool {
    match s.attempt(attempt.run_id, attempt.attempt_no) {
        Some(current) => current.job_id is Some,
        None => false,
    }
}

/// What the scheduler's answer leaves.
pub open spec fn after_acceptance(
    s: StoreView,
    run: RunRecordView,
    attempt: RunAttemptRecordView,
    event_kind: Seq<char>,
) -> StoreView {
    if acceptance_refusal(s, run, attempt) is Some || accepted_before(s, attempt) {
        s
    } else {
        runs::recorded(s, run, attempt, event_kind)
    }
}

// ---------------------------------------------------------------------------
// The requests
// ---------------------------------------------------------------------------

impl RunStore {
    /// Enters a new run before anything is sent to its scheduler. `false`
    /// where a run of that name stands already.
    pub fn create_submission_intent(
        &mut self,
        run: &RunRecord,
        attempt: &RunAttemptRecord,
        binding: Option<&ContinuationBinding>,
    ) -> (result: Result<bool, String>)
        ensures
            match result {
                Ok(fresh) => {
                    &&& intent_refusal(old(self)@, run@, attempt@, binding.deep_view()) is None
                    &&& fresh == (old(self)@.run(run@.run_id) is None)
                },
                Err(reason) => intent_refusal(old(self)@, run@, attempt@, binding.deep_view())
                    == Some(reason@),
            },
            final(self)@ == after_intent(old(self)@, run@, attempt@, binding.deep_view()),
            old(self)@.sound() ==> final(self)@.sound(),
    {
        if self.find_run(run.run_id.as_str()) < self.runs.len() {
            return Ok(false);
        }
        if self.find_attempt(attempt.run_id.as_str(), attempt.attempt_no) < self.attempts.len() {
            return Err(
                "UNIQUE constraint failed: run_attempts.run_id, run_attempts.attempt_no".to_owned(),
            );
        }
        if binding.is_some() && self.find_binding(run.run_id.as_str()) < self.bindings.len() {
            return Err("UNIQUE constraint failed: continuation_bindings.run_id".to_owned());
        }
        self.put_run(run.clone());
        self.put_attempt(attempt.clone());
        if let Some(binding) = binding {
            self.put_binding(BindingRow { run_id: run.run_id.clone(), binding: binding.clone() });
        }
        self.add_event(
            run.run_id.clone(),
            run.updated_at,
            "submission_intent".to_owned(),
            EventPayload::SubmissionIntent {
                attempt_no: attempt.attempt_no,
                runner: attempt.runner,
                host: attempt.host.clone(),
                workdir: attempt.workdir.clone(),
                job_name: attempt.job_name.clone(),
            },
        );
        Ok(true)
    }

    /// Enters the next attempt of a failed or cancelled run. `false` where
    /// the same request was entered before.
    pub fn create_retry_intent(
        &mut self,
        request: &RetryRunSpec,
        run: &RunRecord,
        attempt: &RunAttemptRecord,
    ) -> (result: Result<bool, String>)
        ensures
            match result {
                Ok(fresh) => {
                    &&& retry_refusal(old(self)@, request@, run@, attempt@) is None
                    &&& fresh == (earlier_retry(old(self)@, request@) is None)
                },
                Err(reason) => retry_refusal(old(self)@, request@, run@, attempt@) == Some(
                    reason@,
                ),
            },
            final(self)@ == after_retry(old(self)@, request@, run@, attempt@),
            old(self)@.sound() ==> final(self)@.sound(),
    {
        if request.expected_attempt_no == u32::MAX {
            return Err("retry attempt number overflow".to_owned());
        }
        let next: u32 = request.expected_attempt_no + 1;
        if attempt.run_id != request.run_id || attempt.attempt_no != next {
            return Err("retry Attempt identity does not match request".to_owned());
        }
        if run.run_id != request.run_id || run.attempt_no != Some(next) || run.status
            != RunStatus::Submitting || run.job_id.is_some() {
            return Err("retry Run intent is not a clean submitting N+1 snapshot".to_owned());
        }
        let asked = self.find_request(request.run_id.as_str(), request.request_id.as_str());
        if asked < self.retries.len() {
            let row = &self.retries[asked];
            if !row.request.same(request) || row.attempt_no != next {
                return Err("retry request_id already exists with a different request".to_owned());
            }
            return Ok(false);
        }
        match self.retry_obstacle(request, run, attempt) {
            Some(reason) => return Err(reason),
            None => {},
        }
        self.put_attempt(attempt.clone());
        self.put_run(run.clone());
        let ghost before = *self;
        let row = RetryIntentRow {
            request: request.clone(),
            attempt_no: next,
            created_at: run.updated_at,
        };
        self.retries.push(row);
        proof {
            seqs::lemma_deep_push(before.retries, self.retries, row);
            seqs::lemma_put_unique(
                before@.retries,
                store::by_request(row@.request.run_id, row@.request.request_id),
                row@,
                store::request_key(),
            );
            seqs::lemma_put_unique(
                before@.retries,
                store::by_retry_attempt(row@.request.run_id, row@.attempt_no),
                row@,
                store::retry_attempt_key(),
            );
            assert(self@ =~= StoreView { retries: before@.retries.push(row@), ..before@ });
        }
        self.add_event(
            run.run_id.clone(),
            run.updated_at,
            "retry_intent".to_owned(),
            EventPayload::RetryIntent {
                request_id: request.request_id.clone(),
                from_attempt_no: request.expected_attempt_no,
                attempt_no: next,
                resources: match &request.resources {
                    Some(resources) => Some(resources.clone()),
                    None => None,
                },
            },
        );
        Ok(true)
    }

    fn retry_obstacle(
        &self,
        request: &RetryRunSpec,
        run: &RunRecord,
        attempt: &RunAttemptRecord,
    ) -> (obstacle: Option<String>)
        ensures
            text::text_opt(obstacle) == retry_conflict(self@, request@, run@, attempt@),
    {
        let at = self.find_run(request.run_id.as_str());
        if at >= self.runs.len() {
            let mut reason = "unknown run ".to_owned();
            reason.append(request.run_id.as_str());
            return Some(reason);
        }
        let current = &self.runs[at];
        if current.attempt_no != Some(request.expected_attempt_no) {
            let mut reason = "retry expected attempt ".to_owned();
            reason.append(decimal_text(request.expected_attempt_no as u64).as_str());
            reason.append(" but Run is at ");
            reason.append(show_option(current.attempt_no).as_str());
            return Some(reason);
        }
        if !matches!(current.status, RunStatus::Failed | RunStatus::Cancelled) {
            return Some("retry requires the current Run to be failed or cancelled".to_owned());
        }
        if self.find_binding(request.run_id.as_str()) < self.bindings.len() {
            return Some(
                "retry_run_v1 currently requires an unbound Run; retry agent-bound workflows through the owning Agent Integration".to_owned(),
            );
        }
        if current.session_id.is_some() || current.agent.is_some()
            || current.project_root.is_some() {
            return Some(
                "retry_run_v1 refuses a Run that carries agent identity without a durable continuation binding; retry through the owning Agent Integration".to_owned(),
            );
        }
        let before = self.find_attempt(request.run_id.as_str(), request.expected_attempt_no);
        if before >= self.attempts.len() {
            return Some("current Run is missing its durable Attempt".to_owned());
        }
        let previous = &self.attempts[before];
        if !matches!(previous.status, RunStatus::Failed | RunStatus::Cancelled) {
            return Some("retry requires the current Attempt to be failed or cancelled".to_owned());
        }
        let resources = match &request.resources {
            Some(resources) => resources,
            None => &previous.resources,
        };
        if attempt.runner != previous.runner || attempt.host != previous.host || attempt.workdir
            != previous.workdir || attempt.command != previous.command || !attempt.resources.same(
            resources,
        ) || attempt.job_id.is_some() || attempt.status != RunStatus::Submitting {
            return Some(
                "retry Attempt changed immutable execution identity or resource request".to_owned(),
            );
        }
        if run.runner != current.runner || run.host != current.host || !same_workspace(
            &run.workspace,
            &current.workspace,
        ) || !same_text(&run.name, &current.name) || run.session_id.is_some()
            || run.agent.is_some() || run.project_root.is_some() {
            return Some("retry Run changed immutable logical identity".to_owned());
        }
        if self.find_attempt(attempt.run_id.as_str(), attempt.attempt_no) < self.attempts.len() {
            return Some(
                "UNIQUE constraint failed: run_attempts.run_id, run_attempts.attempt_no".to_owned(),
            );
        }
        if self.find_retry_attempt(request.run_id.as_str(), attempt.attempt_no)
            < self.retries.len() {
            return Some(
                "UNIQUE constraint failed: retry_intents.run_id, retry_intents.attempt_no".to_owned(),
            );
        }
        None
    }

    fn retry_awaits_handle(&self, row: &RetryIntentRow) -> (yes: bool)
        ensures
            yes == awaits_handle(self@)(row@),
    {
        let run_at = self.find_run(row.request.run_id.as_str());
        let attempt_at = self.find_attempt(row.request.run_id.as_str(), row.attempt_no);
        if run_at >= self.runs.len() || attempt_at >= self.attempts.len() {
            return false;
        }
        let run = &self.runs[run_at];
        let attempt = &self.attempts[attempt_at];
        run.status == RunStatus::Submitting && run.attempt_no == Some(row.attempt_no)
            && run.job_id.is_none() && attempt.status == RunStatus::Submitting
            && attempt.job_id.is_none()
    }

    /// The retries whose attempts were entered and may not have reached the
    /// scheduler.
    pub fn list_pending_retry_intents(&self) -> (requests: Vec<RetryRunSpec>)
        ensures
            requests.deep_view() == pending_retries(self@),
    {
        let test = |row: &RetryIntentRow| -> (yes: bool)
            ensures
                yes == awaits_handle(self@)(row.deep_view()),
            {
                self.retry_awaits_handle(row)
            };
        let rows = select(&self.retries, test, Ghost(awaits_handle(self@)));
        let before = |a: &RetryIntentRow, b: &RetryIntentRow| -> (yes: bool)
            ensures
                yes == asked_before()(a.deep_view(), b.deep_view()),
            {
                a.created_at.nanos < b.created_at.nanos
            };
        let sorted = stable_sort(rows, before, Ghost(asked_before()));
        let mut requests: Vec<RetryRunSpec> = Vec::new();
        let mut i: usize = 0;
        while i < sorted.len()
            invariant
                i <= sorted@.len(),
                requests.deep_view() =~= sorted.deep_view().map_values(request_of()).take(i as int),
            decreases sorted@.len() - i,
        {
            let ghost before = requests;
            let request = sorted[i].request.clone();
            requests.push(request);
            proof {
                seqs::lemma_deep_push(before, requests, request);
            }
            i += 1;
        }
        requests
    }

    /// Records the handle that the scheduler gave. `false` where the attempt
    /// has that handle already.
    pub fn persist_submission_acceptance(
        &mut self,
        run: &RunRecord,
        attempt: &RunAttemptRecord,
        event_kind: &str,
    ) -> (result: Result<bool, String>)
        ensures
            match result {
                Ok(fresh) => {
                    &&& acceptance_refusal(old(self)@, run@, attempt@) is None
                    &&& fresh == !accepted_before(old(self)@, attempt@)
                },
                Err(reason) => acceptance_refusal(old(self)@, run@, attempt@) == Some(reason@),
            },
            final(self)@ == after_acceptance(old(self)@, run@, attempt@, event_kind@),
            old(self)@.sound() ==> final(self)@.sound(),
    {
        if run.run_id != attempt.run_id || run.attempt_no != Some(attempt.attempt_no) {
            return Err("submission acceptance Run/Attempt identity mismatch".to_owned());
        }
        if attempt.job_id.is_none() {
            return Err("submission acceptance Attempt has no handle".to_owned());
        }
        if !same_text(&run.job_id, &attempt.job_id) || run.status != attempt.status || !matches!(
            run.status,
            RunStatus::Queued | RunStatus::Running
        ) {
            return Err(
                "submission acceptance must carry one queued/running handle snapshot".to_owned(),
            );
        }
        let run_at = self.find_run(run.run_id.as_str());
        if run_at >= self.runs.len() {
            let mut reason = "unknown run ".to_owned();
            reason.append(run.run_id.as_str());
            reason.append(" during submission acceptance");
            return Err(reason);
        }
        let attempt_at = self.find_attempt(attempt.run_id.as_str(), attempt.attempt_no);
        if attempt_at >= self.attempts.len() {
            let mut reason = "Run ".to_owned();
            reason.append(attempt.run_id.as_str());
            reason.append(" is missing Attempt ");
            reason.append(decimal_text(attempt.attempt_no as u64).as_str());
            reason.append(" during submission acceptance");
            return Err(reason);
        }
        let current_run = &self.runs[run_at];
        let current = &self.attempts[attempt_at];
        if current_run.attempt_no != Some(attempt.attempt_no) {
            let mut reason = "submission acceptance Attempt ".to_owned();
            reason.append(decimal_text(attempt.attempt_no as u64).as_str());
            reason.append(" is no longer current for Run ");
            reason.append(run.run_id.as_str());
            return Err(reason);
        }
        if current.job_id.is_some() {
            if !same_text(&current.job_id, &attempt.job_id) || !same_text(
                &current_run.job_id,
                &current.job_id,
            ) {
                let mut reason = "submission acceptance handle conflict for Run ".to_owned();
                reason.append(run.run_id.as_str());
                reason.append(" Attempt ");
                reason.append(decimal_text(attempt.attempt_no as u64).as_str());
                return Err(reason);
            }
            return Ok(false);
        }
        if current_run.job_id.is_some() || current_run.status != RunStatus::Submitting
            || current.status != RunStatus::Submitting {
            return Err(
                "submission acceptance canonical state is not a clean Submitting snapshot".to_owned(),
            );
        }
        if current_run.runner != run.runner || current_run.host != run.host || !same_workspace(
            &current_run.workspace,
            &run.workspace,
        ) || !same_text(&current_run.name, &run.name) || current.runner != attempt.runner
            || current.host != attempt.host || current.workdir != attempt.workdir
            || current.command != attempt.command || !current.resources.same(&attempt.resources)
            || current.job_name != attempt.job_name || current.script_path != attempt.script_path
            || current.stdout_path != attempt.stdout_path || current.stderr_path
            != attempt.stderr_path || current.terminal_path != attempt.terminal_path
            || current.receipt_path != attempt.receipt_path {
            return Err("submission acceptance changed immutable execution identity".to_owned());
        }
        self.persist_run_attempt_event(run, attempt, event_kind);
        Ok(true)
    }
}

} // verus!
