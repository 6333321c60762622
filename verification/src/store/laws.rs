//! What holds of the ledger across requests.
use crate::seqs;
use crate::store;
use crate::store::deliveries;
use crate::store::offline;
use crate::store::reading;
use crate::store::runs;
use crate::store::submissions;
use crate::store::{DeliveryRowView, DeliveryState, EventRowView, RetryIntentRowView, StoreView};
use crate::time::Timestamp;
use crate::types::{
    AgentSessionRegistrationView, ContinuationBindingView, ObservationRecordView, RetryRunSpecView,
    RunAttemptRecordView, RunRecordView,
};
use vstd::prelude::*;

verus! {

// ---------------------------------------------------------------------------
// Rows that were written are read back
// ---------------------------------------------------------------------------

/// A run that was stored is read back as it was stored, and no other run is
/// touched.
pub proof fn stored_run_is_read_back(s: StoreView, run: RunRecordView, other: Seq<char>)
    ensures
        s.with_run(run).run(run.run_id) == Some(run),
        other != run.run_id ==> s.with_run(run).run(other) == s.run(other),
{
    seqs::lemma_put_first(s.runs, store::by_run(run.run_id), run);
    if other != run.run_id {
        seqs::lemma_put_other(s.runs, store::by_run(run.run_id), run, store::by_run(other));
    }
}

/// An attempt that was stored is read back as it was stored, and no other
/// attempt is touched.
pub proof fn stored_attempt_is_read_back(
    s: StoreView,
    attempt: RunAttemptRecordView,
    other_run: Seq<char>,
    other_no: u32,
)
    ensures
        s.with_attempt(attempt).attempt(attempt.run_id, attempt.attempt_no) == Some(attempt),
        other_run != attempt.run_id || other_no != attempt.attempt_no ==> s.with_attempt(
            attempt,
        ).attempt(other_run, other_no) == s.attempt(other_run, other_no),
{
    let wanted = store::by_attempt(attempt.run_id, attempt.attempt_no);
    seqs::lemma_put_first(s.attempts, wanted, attempt);
    if other_run != attempt.run_id || other_no != attempt.attempt_no {
        seqs::lemma_put_other(
            s.attempts,
            wanted,
            attempt,
            store::by_attempt(other_run, other_no),
        );
    }
}

/// A notice that was stored is read back as it was stored.
pub proof fn stored_notice_is_read_back(s: StoreView, row: DeliveryRowView)
    ensures
        s.with_delivery(row).delivery(row.delivery_id) == Some(row),
{
    seqs::lemma_put_first(s.deliveries, store::by_delivery(row.delivery_id), row);
}

// ---------------------------------------------------------------------------
// Submission, retry and acceptance happen once
// ---------------------------------------------------------------------------

/// Once a run of some name has been entered, a submission under that name
/// changes nothing.
pub proof fn submission_happens_once(
    s: StoreView,
    run: RunRecordView,
    attempt: RunAttemptRecordView,
    binding: Option<ContinuationBindingView>,
    again: RunRecordView,
    again_attempt: RunAttemptRecordView,
    again_binding: Option<ContinuationBindingView>,
)
    requires
        submissions::intent_refusal(s, run, attempt, binding) is None,
        again.run_id == run.run_id,
    ensures
        ({
            let t = submissions::after_intent(s, run, attempt, binding);
            &&& t.run(run.run_id) is Some
            &&& submissions::intent_refusal(t, again, again_attempt, again_binding) is None
            &&& submissions::after_intent(t, again, again_attempt, again_binding) == t
        }),
{
    seqs::lemma_put_first(s.runs, store::by_run(run.run_id), run);
}

/// A retry that was entered and is asked for again, under the same name and in
/// the same words, makes no second attempt.
pub proof fn retry_happens_once(
    s: StoreView,
    request: RetryRunSpecView,
    run: RunRecordView,
    attempt: RunAttemptRecordView,
    again: RunRecordView,
    again_attempt: RunAttemptRecordView,
)
    requires
        submissions::retry_refusal(s, request, run, attempt) is None,
        submissions::retry_malformed(request, again, again_attempt) is None,
    ensures
        ({
            let t = submissions::after_retry(s, request, run, attempt);
            &&& submissions::earlier_retry(t, request) is Some
            &&& submissions::retry_refusal(t, request, again, again_attempt) is None
            &&& submissions::after_retry(t, request, again, again_attempt) == t
        }),
{
    let wanted = store::by_request(request.run_id, request.request_id);
    if submissions::earlier_retry(s, request) is None {
        let row = RetryIntentRowView {
            request,
            attempt_no: attempt.attempt_no,
            created_at: run.updated_at,
        };
        seqs::lemma_put_first(s.retries, wanted, row);
    }
}

/// A name under which a retry was entered does not serve for another one.
pub proof fn retry_name_is_taken(
    s: StoreView,
    request: RetryRunSpecView,
    run: RunRecordView,
    attempt: RunAttemptRecordView,
    other: RetryRunSpecView,
    other_run: RunRecordView,
    other_attempt: RunAttemptRecordView,
)
    requires
        submissions::retry_refusal(s, request, run, attempt) is None,
        other.run_id == request.run_id,
        other.request_id == request.request_id,
        other != request,
    ensures
        submissions::retry_refusal(
            submissions::after_retry(s, request, run, attempt),
            other,
            other_run,
            other_attempt,
        ) is Some,
{
    let wanted = store::by_request(request.run_id, request.request_id);
    if submissions::earlier_retry(s, request) is None {
        let row = RetryIntentRowView {
            request,
            attempt_no: attempt.attempt_no,
            created_at: run.updated_at,
        };
        seqs::lemma_put_first(s.retries, wanted, row);
    }
}

/// Of two retries that start from the same attempt under different names, the
/// second is refused.
pub proof fn retry_does_not_fork(
    s: StoreView,
    request: RetryRunSpecView,
    run: RunRecordView,
    attempt: RunAttemptRecordView,
    other: RetryRunSpecView,
    other_run: RunRecordView,
    other_attempt: RunAttemptRecordView,
)
    requires
        submissions::retry_refusal(s, request, run, attempt) is None,
        submissions::earlier_retry(s, request) is None,
        other.run_id == request.run_id,
        other.request_id != request.request_id,
        other.expected_attempt_no == request.expected_attempt_no,
        submissions::earlier_retry(s, other) is None,
    ensures
        submissions::retry_refusal(
            submissions::after_retry(s, request, run, attempt),
            other,
            other_run,
            other_attempt,
        ) is Some,
{
    let t = submissions::after_retry(s, request, run, attempt);
    let row = RetryIntentRowView {
        request,
        attempt_no: attempt.attempt_no,
        created_at: run.updated_at,
    };
    let wanted = store::by_request(request.run_id, request.request_id);
    let asked = store::by_request(other.run_id, other.request_id);
    seqs::lemma_put_other(s.retries, wanted, row, asked);
    seqs::lemma_put_first(s.runs, store::by_run(run.run_id), run);
    assert(t.run(other.run_id) == Some(run));
}

/// Once an attempt has its handle, the same answer of the scheduler changes
/// nothing, and another handle is refused: an acceptance is never undone.
pub proof fn acceptance_happens_once(
    s: StoreView,
    run: RunRecordView,
    attempt: RunAttemptRecordView,
    event_kind: Seq<char>,
    again: RunRecordView,
    again_attempt: RunAttemptRecordView,
    again_kind: Seq<char>,
)
    requires
        submissions::acceptance_refusal(s, run, attempt) is None,
        submissions::acceptance_malformed(again, again_attempt) is None,
        again_attempt.run_id == attempt.run_id,
        again_attempt.attempt_no == attempt.attempt_no,
    ensures
        ({
            let t = submissions::after_acceptance(s, run, attempt, event_kind);
            &&& submissions::after_acceptance(t, again, again_attempt, again_kind) == t
            &&& submissions::acceptance_refusal(t, again, again_attempt) is None
                <==> again_attempt.job_id == attempt.job_id
        }),
{
    let t = submissions::after_acceptance(s, run, attempt, event_kind);
    if !submissions::accepted_before(s, attempt) {
        stored_run_is_read_back(s, run, run.run_id);
        stored_attempt_is_read_back(s.with_run(run), attempt, attempt.run_id, attempt.attempt_no);
        assert(t.run(run.run_id) == Some(run));
        assert(t.attempt(attempt.run_id, attempt.attempt_no) == Some(attempt));
    }
}

/// An accepted retry is no longer waiting to be submitted.
pub proof fn accepted_retry_is_not_pending(
    s: StoreView,
    run: RunRecordView,
    attempt: RunAttemptRecordView,
    event_kind: Seq<char>,
    row: RetryIntentRowView,
)
    requires
        submissions::acceptance_refusal(s, run, attempt) is None,
        row.request.run_id == attempt.run_id,
        row.attempt_no == attempt.attempt_no,
    ensures
        !submissions::awaits_handle(submissions::after_acceptance(s, run, attempt, event_kind))(
            row,
        ),
{
    if !submissions::accepted_before(s, attempt) {
        stored_attempt_is_read_back(s.with_run(run), attempt, attempt.run_id, attempt.attempt_no);
    }
}

// ---------------------------------------------------------------------------
// Observation
// ---------------------------------------------------------------------------

/// Seeing the same again refreshes the observation and adds no event.
pub proof fn same_observation_is_no_event(
    s: StoreView,
    seen: ObservationRecordView,
    later: Timestamp,
)
    ensures
        ({
            let t = runs::observed(s, seen);
            let again = ObservationRecordView { observed_at: later, ..seen };
            let u = runs::observed(t, again);
            &&& u.events == t.events
            &&& seqs::first(u.observations, store::by_observed(seen.run_id, seen.attempt_no))
                == Some(again)
        }),
{
    let wanted = store::by_observed(seen.run_id, seen.attempt_no);
    let t = runs::observed(s, seen);
    let again = ObservationRecordView { observed_at: later, ..seen };
    seqs::lemma_put_first(s.observations, wanted, seen);
    seqs::lemma_put_first(t.observations, wanted, again);
    assert(wanted == store::by_observed(again.run_id, again.attempt_no));
}

// ---------------------------------------------------------------------------
// Notices
// ---------------------------------------------------------------------------

/// An ended run is given its notice once, however often it is asked for.
pub proof fn notice_is_made_once(
    s: StoreView,
    run: RunRecordView,
    now: Timestamp,
    later: Timestamp,
)
    ensures
        deliveries::notified(deliveries::notified(s, run, now), run, later)
            == deliveries::notified(s, run, now),
        deliveries::owed_delivery(s, run) matches Some(id) ==> deliveries::notified(
            s,
            run,
            now,
        ).delivery(id) is Some,
{
    match (deliveries::owed_delivery(s, run), s.binding(run.run_id)) {
        (Some(id), Some(binding)) => {
            if s.delivery(id) is None {
                let row = DeliveryRowView {
                    delivery_id: id,
                    run_id: run.run_id,
                    state: DeliveryState::Pending,
                    attempts: 0,
                    next_retry_at: None,
                    last_error: None,
                    payload: deliveries::terminal_payload(run, binding, now),
                };
                stored_notice_is_read_back(s, row);
                assert(deliveries::notified(s, run, now).bindings == s.bindings);
            }
        },
        _ => {},
    }
}

/// A session that an instance has taken is refused to every other instance
/// until the lease ends, and open to the instance itself for as long.
pub proof fn lease_is_exclusive(
    s: StoreView,
    registration: AgentSessionRegistrationView,
    until: Timestamp,
    rival: AgentSessionRegistrationView,
    later: Timestamp,
)
    requires
        rival.agent_kind == registration.agent_kind,
        rival.session_id == registration.session_id,
        rival.owner_instance_id != registration.owner_instance_id,
        later.nanos < until.nanos,
    ensures
        ({
            let t = s.with_lease(deliveries::lease_of(registration, until));
            &&& deliveries::lease_conflict(t, rival, later) is Some
            &&& deliveries::lease_conflict(t, registration, later) is None
            &&& deliveries::lease_refusal(
                t,
                rival.agent_kind,
                rival.session_id,
                rival.owner_instance_id,
                later,
            ) is Some
            &&& deliveries::lease_refusal(
                t,
                registration.agent_kind,
                registration.session_id,
                registration.owner_instance_id,
                later,
            ) is None
        }),
{
    seqs::lemma_put_first(
        s.leases,
        store::by_session(registration.agent_kind, registration.session_id),
        deliveries::lease_of(registration, until),
    );
}

/// One claim hands out no more notices than it may, and only notices that were
/// due and are for the session.
pub proof fn claim_takes_due_notices(
    rows: Seq<DeliveryRowView>,
    agent_kind: Seq<char>,
    session_id: Seq<char>,
    limit: nat,
    now: Timestamp,
)
    ensures
        deliveries::claim_walk(rows, agent_kind, session_id, limit, now).taken.len() <= limit,
        forall|k: int|
            0 <= k < deliveries::claim_walk(rows, agent_kind, session_id, limit, now).taken.len()
                ==> exists|i: int|
                0 <= i < rows.len() && deliveries::due(#[trigger] rows[i], now)
                    && deliveries::addressed(rows[i], agent_kind, session_id)
                    && deliveries::claim_of(rows[i]) == #[trigger] deliveries::claim_walk(
                    rows,
                    agent_kind,
                    session_id,
                    limit,
                    now,
                ).taken[k],
    decreases rows.len(),
{
    if rows.len() > 0 {
        let head = rows.drop_last();
        claim_takes_due_notices(head, agent_kind, session_id, limit, now);
        let before = deliveries::claim_walk(head, agent_kind, session_id, limit, now);
        let after = deliveries::claim_walk(rows, agent_kind, session_id, limit, now);
        assert forall|k: int| 0 <= k < after.taken.len() implies exists|i: int|
            0 <= i < rows.len() && deliveries::due(#[trigger] rows[i], now)
                && deliveries::addressed(rows[i], agent_kind, session_id) && deliveries::claim_of(
                rows[i],
            ) == #[trigger] after.taken[k] by {
            if k < before.taken.len() {
                assert(after.taken[k] == before.taken[k]);
                let i = choose|i: int|
                    0 <= i < head.len() && deliveries::due(#[trigger] head[i], now)
                        && deliveries::addressed(head[i], agent_kind, session_id)
                        && deliveries::claim_of(head[i]) == before.taken[k];
                assert(rows[i] == head[i]);
            } else {
                assert(deliveries::claim_of(rows[rows.len() - 1]) == after.taken[k]);
            }
        }
    }
}

/// A claim changes only what it takes: every other notice stays as it is.
pub proof fn claim_leaves_the_rest(
    rows: Seq<DeliveryRowView>,
    agent_kind: Seq<char>,
    session_id: Seq<char>,
    limit: nat,
    now: Timestamp,
)
    ensures
        ({
            let walk = deliveries::claim_walk(rows, agent_kind, session_id, limit, now);
            &&& walk.rows.len() == rows.len()
            &&& forall|i: int|
                0 <= i < rows.len() ==> (#[trigger] walk.rows[i] == rows[i] || (walk.rows[i]
                    == deliveries::taken_row(rows[i], now.plus(60)) && walk.taken.contains(
                    deliveries::claim_of(rows[i]),
                )))
        }),
    decreases rows.len(),
{
    if rows.len() > 0 {
        let head = rows.drop_last();
        claim_leaves_the_rest(head, agent_kind, session_id, limit, now);
        let before = deliveries::claim_walk(head, agent_kind, session_id, limit, now);
        let after = deliveries::claim_walk(rows, agent_kind, session_id, limit, now);
        assert forall|i: int| 0 <= i < rows.len() implies (#[trigger] after.rows[i] == rows[i] || (
        after.rows[i] == deliveries::taken_row(rows[i], now.plus(60)) && after.taken.contains(
            deliveries::claim_of(rows[i]),
        ))) by {
            if i < head.len() {
                assert(after.rows[i] == before.rows[i]);
                assert(head[i] == rows[i]);
                if before.rows[i] != head[i] {
                    let k = choose|k: int|
                        0 <= k < before.taken.len() && before.taken[k] == deliveries::claim_of(
                            head[i],
                        );
                    assert(after.taken[k] == before.taken[k]);
                }
            } else if after.rows[i] != rows[i] {
                assert(after.taken[after.taken.len() - 1] == deliveries::claim_of(rows[i]));
            }
        }
    }
}

/// A notice that has been handed out is not due again before its claim runs
/// out, and is given back then.
pub proof fn claim_holds_until_it_expires(row: DeliveryRowView, now: Timestamp, later: Timestamp)
    requires
        now.clocked(),
    ensures
        ({
            let taken = deliveries::taken_row(row, now.plus(60));
            &&& later.nanos < now.plus(60).nanos ==> !deliveries::due(
                deliveries::requeued_row(taken, later),
                later,
            ) && deliveries::requeued_row(taken, later) == taken
            &&& later.nanos >= now.plus(60).nanos ==> deliveries::due(
                deliveries::requeued_row(taken, later),
                later,
            )
        }),
{
}

/// A delivered notice stays as it is: it is never due, never given back, never
/// bound anew, and takes no second outcome.
pub proof fn delivered_is_final(
    s: StoreView,
    row: DeliveryRowView,
    run_id: Seq<char>,
    binding: ContinuationBindingView,
    now: Timestamp,
)
    requires
        row.state == DeliveryState::Delivered,
    ensures
        !deliveries::due(row, now),
        deliveries::requeued_row(row, now) == row,
        deliveries::rebound_row(row, run_id, binding) == row,
        s.delivery(row.delivery_id) == Some(row) ==> !deliveries::finishable(s, row.delivery_id),
{
}

/// An acknowledged notice is delivered, and a second outcome does not change it.
pub proof fn acknowledgement_is_final(
    s: StoreView,
    delivery_id: Seq<char>,
    now: Timestamp,
)
    requires
        deliveries::finishable(s, delivery_id),
    ensures
        ({
            let t = deliveries::finished(s, delivery_id, "delivered"@, None, now);
            &&& t.delivery(delivery_id) matches Some(row) && row.state == DeliveryState::Delivered
            &&& !deliveries::finishable(t, delivery_id)
        }),
{
    let row = s.delivery(delivery_id)->0;
    seqs::lemma_present(s.deliveries, store::by_delivery(delivery_id));
    stored_notice_is_read_back(
        s,
        deliveries::finished_row(row, DeliveryState::Delivered, None, now),
    );
}

/// Binding a run anew reaches every notice of it that can still go out, and
/// leaves none of them blocked.
pub proof fn rebinding_reaches_open_notices(
    s: StoreView,
    run_id: Seq<char>,
    binding: ContinuationBindingView,
    now: Timestamp,
    i: int,
)
    requires
        deliveries::rebind_refusal(s, run_id) is None,
        0 <= i < s.deliveries.len(),
        s.deliveries[i].run_id == run_id,
    ensures
        ({
            let t = deliveries::rebound(s, run_id, binding, now);
            let row = t.deliveries[i];
            &&& t.binding(run_id) == Some(binding)
            &&& row.state != DeliveryState::NeedsRebind
            &&& row.state != DeliveryState::Delivering
            &&& row.state != DeliveryState::Delivered ==> row.payload.binding == binding
        }),
{
    seqs::lemma_put_first(
        s.bindings,
        store::by_bound(run_id),
        store::BindingRowView { run_id, binding },
    );
    seqs::lemma_present(s.deliveries, deliveries::in_flight(run_id));
    assert(!deliveries::in_flight(run_id)(s.deliveries[i]));
}

/// Binding a run anew touches no notice of another run.
pub proof fn rebinding_spares_other_runs(
    s: StoreView,
    run_id: Seq<char>,
    binding: ContinuationBindingView,
    now: Timestamp,
    i: int,
)
    requires
        0 <= i < s.deliveries.len(),
        s.deliveries[i].run_id != run_id,
    ensures
        deliveries::rebound(s, run_id, binding, now).deliveries[i] == s.deliveries[i],
{
}

// ---------------------------------------------------------------------------
// Processes
// ---------------------------------------------------------------------------

/// While a started process holds its session, no second one is started for
/// any notice of that session.
pub proof fn one_process_per_session(
    s: StoreView,
    grace_seconds: int,
    now: Timestamp,
    notice: DeliveryRowView,
    cutoff: Timestamp,
    later: Timestamp,
)
    requires
        now.clocked(),
        offline::offline_choice(s, grace_seconds, now) matches Some(row)
            && notice.payload.binding.agent_kind == row.payload.binding.agent_kind
            && notice.payload.binding.session_id == row.payload.binding.session_id,
        later.nanos < now.plus(offline::OFFLINE_LEASE_SECONDS as int).nanos,
    ensures
        offline::offline_step(
            offline::reserved(s, grace_seconds, now),
            notice.payload,
            cutoff,
            later,
        ) !is Start,
{
    let row = offline::offline_choice(s, grace_seconds, now)->0;
    let ready = deliveries::requeued(s, now);
    let lease = deliveries::lease_of(
        offline::started_registration(row, now),
        now.plus(offline::OFFLINE_LEASE_SECONDS as int),
    );
    seqs::lemma_put_first(
        ready.leases,
        store::by_session(lease.agent_kind, lease.session_id),
        lease,
    );
}

/// Closing orphans leaves every notice alone that is not on its way: delivered
/// ones stay delivered.
pub proof fn reconciling_spares_settled_notices(
    s: StoreView,
    count: nat,
    delay: int,
    now: Timestamp,
    i: int,
)
    requires
        count <= s.invocations.len(),
        0 <= i < s.deliveries.len(),
        s.deliveries[i].state != DeliveryState::Delivering,
    ensures
        ({
            let t = offline::reconciled(s, count, delay, now);
            &&& t.deliveries.len() == s.deliveries.len()
            &&& t.deliveries[i] == s.deliveries[i]
        }),
    decreases count,
{
    if count > 0 {
        reconciling_spares_settled_notices(s, (count - 1) as nat, delay, now, i);
        let before = offline::reconciled(s, (count - 1) as nat, delay, now);
        let row = before.invocations[count - 1];
        let id = row.record.delivery_id;
        let wanted = store::by_delivery(id);
        seqs::lemma_present(before.deliveries, wanted);
    }
}

/// A process that has exited has given up its session, and a notice that it
/// held without acknowledging it is to be tried again.
pub proof fn exit_gives_everything_back(
    s: StoreView,
    invocation_id: Seq<char>,
    exit_code: Option<i32>,
    process_error: Option<Seq<char>>,
    now: Timestamp,
)
    requires
        s.sound(),
        s.invocation(invocation_id) is Some,
    ensures
        ({
            let row = s.invocation(invocation_id)->0;
            let binding = row.record.payload.binding;
            let t = offline::exited(s, invocation_id, exit_code, process_error, now);
            &&& !offline::owner_holds(t, binding, row.record.owner_instance_id, now)
            &&& deliveries::finishable(s, row.record.delivery_id) ==> (match t.delivery(
                row.record.delivery_id,
            ) {
                Some(given) => given.state == DeliveryState::Retrying,
                None => false,
            })
        }),
{
    let row = s.invocation(invocation_id)->0;
    let binding = row.record.payload.binding;
    let owner = row.record.owner_instance_id;
    let t = offline::exited(s, invocation_id, exit_code, process_error, now);
    let owned = store::by_owned_session(binding.agent_kind, binding.session_id, owner);
    let session = store::by_session(binding.agent_kind, binding.session_id);
    assert(t.leases == seqs::removed(s.leases, owned));
    seqs::lemma_present(s.leases, owned);
    seqs::lemma_present(t.leases, session);
    if offline::owner_holds(t, binding, owner, now) {
        let k = seqs::until(t.leases, session) as int;
        let gone = seqs::until(s.leases, owned) as int;
        assert(owned(t.leases[k]));
        if seqs::present(s.leases, owned) {
            let j = if k < gone {
                k
            } else {
                k + 1
            };
            assert(s.leases[j] == t.leases[k]);
            assert(store::session_key()(s.leases[j]) == store::session_key()(s.leases[gone]));
            assert(false);
        } else {
            assert(owned(s.leases[k]));
        }
    }
    match s.delivery(row.record.delivery_id) {
        Some(held) => {
            if held.state == DeliveryState::Delivering {
                seqs::lemma_present(s.deliveries, store::by_delivery(row.record.delivery_id));
                stored_notice_is_read_back(
                    s,
                    offline::lost_row(
                        held,
                        now.plus(30),
                        offline::exit_message(binding.agent_kind, exit_code, process_error),
                    ),
                );
            }
        },
        None => {},
    }
}

/// The exit of a process leaves a delivered notice delivered, whichever notice
/// the process had.
pub proof fn exit_spares_delivered_notices(
    s: StoreView,
    invocation_id: Seq<char>,
    exit_code: Option<i32>,
    process_error: Option<Seq<char>>,
    now: Timestamp,
    delivery_id: Seq<char>,
)
    requires
        s.delivery(delivery_id) matches Some(row) && row.state == DeliveryState::Delivered,
    ensures
        offline::exited(s, invocation_id, exit_code, process_error, now).delivery(delivery_id)
            == s.delivery(delivery_id),
{
    if let Some(row) = s.invocation(invocation_id) {
        let id = row.record.delivery_id;
        if let Some(held) = s.delivery(id) {
            if held.state == DeliveryState::Delivering {
                seqs::lemma_present(s.deliveries, store::by_delivery(id));
                seqs::lemma_put_other(
                    s.deliveries,
                    store::by_delivery(id),
                    offline::lost_row(
                        held,
                        now.plus(30),
                        offline::exit_message(
                            row.record.payload.binding.agent_kind,
                            exit_code,
                            process_error,
                        ),
                    ),
                    store::by_delivery(delivery_id),
                );
            }
        }
    }
}

// ---------------------------------------------------------------------------
// Reading
// ---------------------------------------------------------------------------

proof fn lemma_event_ids(events: Seq<EventRowView>, run_id: Seq<char>)
    requires
        events.len() <= u64::MAX,
    ensures
        forall|i: int|
            0 <= i < reading::events_of(events, run_id).len() ==> 0 < (
            #[trigger] reading::events_of(events, run_id)[i]).id <= events.len(),
        forall|i: int, j: int|
            0 <= i < j < reading::events_of(events, run_id).len() ==> (
            #[trigger] reading::events_of(events, run_id)[i]).id < (
            #[trigger] reading::events_of(events, run_id)[j]).id,
    decreases events.len(),
{
    if events.len() > 0 {
        lemma_event_ids(events.drop_last(), run_id);
    }
}

/// A list of events holds at most as many as one request reads, each with a
/// number above that of the one before it.
pub proof fn event_list_is_bounded_and_ordered(
    events: Seq<EventRowView>,
    run_id: Seq<char>,
    limit: usize,
)
    requires
        events.len() <= u64::MAX,
    ensures
        ({
            let list = seqs::last_items(
                reading::events_of(events, run_id),
                reading::event_limit(limit),
            );
            &&& list.len() <= reading::MAX_EVENTS
            &&& forall|i: int, j: int|
                0 <= i < j < list.len() ==> (#[trigger] list[i]).id < (#[trigger] list[j]).id
        }),
{
    lemma_event_ids(events, run_id);
}

/// A name that occurs is listed, one that does not is not, and none is listed
/// twice.
pub proof fn distinct_lists_each_once(items: Seq<Seq<char>>)
    ensures
        reading::distinct(items).no_duplicates(),
        forall|item: Seq<char>| #[trigger]
            reading::distinct(items).contains(item) <==> items.contains(item),
    decreases items.len(),
{
    if items.len() > 0 {
        let head = items.drop_last();
        let last = items.last();
        distinct_lists_each_once(head);
        let before = reading::distinct(head);
        let after = reading::distinct(items);
        assert forall|item: Seq<char>| #[trigger] after.contains(item) <==> items.contains(
            item,
        ) by {
            if items.contains(item) {
                let i = choose|i: int| 0 <= i < items.len() && items[i] == item;
                if i < head.len() {
                    assert(head[i] == item);
                    assert(head.contains(item));
                    assert(before.contains(item));
                    let k = choose|k: int| 0 <= k < before.len() && before[k] == item;
                    assert(after[k] == item);
                } else if !before.contains(last) {
                    assert(after[before.len() as int] == item);
                }
            }
            if after.contains(item) {
                let k = choose|k: int| 0 <= k < after.len() && after[k] == item;
                if k < before.len() {
                    assert(before[k] == item);
                    assert(before.contains(item));
                    assert(head.contains(item));
                    let i = choose|i: int| 0 <= i < head.len() && head[i] == item;
                    assert(items[i] == item);
                } else {
                    assert(items[items.len() - 1] == item);
                }
            }
        }
    }
}

} // verus!
