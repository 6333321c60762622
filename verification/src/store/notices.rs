//! What holds of a notice from the end of its run to its acknowledgement, stated
//! on the rows that are read back.
use crate::seqs;
use crate::store;
use crate::store::deliveries;
use crate::store::laws;
use crate::store::reading;
use crate::store::{DeliveryRowView, DeliveryState, EventPayloadView, EventRowView, StoreView};
use crate::text;
use crate::time::Timestamp;
use crate::types::{
    AgentSessionRegistrationView, ClaimedDeliveryView, ContinuationBindingView, RunRecordView,
    RunStatus,
};
use vstd::prelude::*;

verus! {

/// Whether a run has ended.
pub open spec fn has_ended(run: RunRecordView) -> bool {
    run.status == RunStatus::Succeeded || run.status == RunStatus::Failed || run.status
        == RunStatus::Cancelled
}

/// The attempt that a run has, the first one where it names none.
pub open spec fn attempt_of(run: RunRecordView) -> u32 {
    match run.attempt_no {
        Some(number) => number,
        None => 1,
    }
}

/// The name of the notice of a run's end.
pub open spec fn notice_name(run: RunRecordView) -> Seq<char> {
    run.run_id + ":a"@ + text::decimal(attempt_of(run) as nat) + ":terminal"@
}

/// The notice of an ended and bound run tells the truth about that run: read back
/// from the ledger, it has the run's name, status, job, attempt and workspace, is
/// for the agent to which the run is bound, and waits to be claimed.
pub proof fn notice_tells_the_truth(
    s: StoreView,
    run: RunRecordView,
    binding: ContinuationBindingView,
    now: Timestamp,
)
    requires
        has_ended(run),
        s.binding(run.run_id) == Some(binding),
        s.delivery(notice_name(run)) is None,
    ensures
        deliveries::owed_delivery(s, run) == Some(notice_name(run)),
        deliveries::notified(s, run, now).delivery(notice_name(run)) matches Some(row) && ({
            &&& row.delivery_id == notice_name(run)
            &&& row.run_id == run.run_id
            &&& row.state == DeliveryState::Pending
            &&& row.attempts == 0
            &&& row.next_retry_at is None
            &&& row.last_error is None
            &&& row.payload.delivery_id == notice_name(run)
            &&& row.payload.run_id == run.run_id
            &&& row.payload.attempt_no == attempt_of(run)
            &&& row.payload.status == run.status
            &&& row.payload.job_id == run.job_id
            &&& row.payload.binding == binding
            &&& run.workspace matches Some(workspace) ==> row.payload.workspace == workspace
            &&& run.workspace is None ==> row.payload.workspace == binding.workspace
            &&& row.payload.created_at == now
        }),
        deliveries::notified(s, run, now).events == s.events.push(
            EventRowView {
                run_id: run.run_id,
                at: now,
                kind: "continuation_pending"@,
                payload: EventPayloadView::NoticePending {
                    delivery_id: notice_name(run),
                    attempt_no: attempt_of(run),
                    session_id: binding.session_id,
                },
            },
        ),
        deliveries::notified(s, run, now).runs == s.runs,
        deliveries::notified(s, run, now).attempts == s.attempts,
        deliveries::notified(s, run, now).bindings == s.bindings,
        deliveries::notified(s, run, now).leases == s.leases,
        deliveries::notified(s, run, now).invocations == s.invocations,
{
    let row = DeliveryRowView {
        delivery_id: notice_name(run),
        run_id: run.run_id,
        state: DeliveryState::Pending,
        attempts: 0,
        next_retry_at: None,
        last_error: None,
        payload: deliveries::terminal_payload(run, binding, now),
    };
    laws::stored_notice_is_read_back(s, row);
    let t = deliveries::notified(s, run, now);
    assert(t.deliveries == s.with_delivery(row).deliveries);
    assert(t.delivery(notice_name(run)) == Some(row));
}

/// No notice is made of a run that has not ended or is bound to no agent, and
/// making a notice leaves the notices of other names as they are.
pub proof fn only_ended_runs_are_told(
    s: StoreView,
    run: RunRecordView,
    other: Seq<char>,
    now: Timestamp,
)
    ensures
        !has_ended(run) || s.binding(run.run_id) is None ==> deliveries::notified(s, run, now) == s
            && deliveries::owed_delivery(s, run) is None,
        other != notice_name(run) ==> deliveries::notified(s, run, now).delivery(other)
            == s.delivery(other),
{
    match s.binding(run.run_id) {
        Some(binding) => if has_ended(run) && s.delivery(notice_name(run)) is None && other
            != notice_name(run) {
            let row = DeliveryRowView {
                delivery_id: notice_name(run),
                run_id: run.run_id,
                state: DeliveryState::Pending,
                attempts: 0,
                next_retry_at: None,
                last_error: None,
                payload: deliveries::terminal_payload(run, binding, now),
            };
            seqs::lemma_put_other(
                s.deliveries,
                store::by_delivery(notice_name(run)),
                row,
                store::by_delivery(other),
            );
            assert(deliveries::notified(s, run, now).deliveries == s.with_delivery(row).deliveries);
        },
        None => {},
    }
}

// ---------------------------------------------------------------------------
// Claims
// ---------------------------------------------------------------------------

/// Whether a notice can be handed to a session now: it waits or is to be tried
/// again, its time has come, and it is for that session.
pub open spec fn ready_for(
    row: DeliveryRowView,
    agent_kind: Seq<char>,
    session_id: Seq<char>,
    now: Timestamp,
) -> bool {
    &&& row.state == DeliveryState::Pending || row.state == DeliveryState::Retrying
    &&& row.next_retry_at matches Some(at) ==> at.nanos <= now.nanos
    &&& row.payload.binding.agent_kind == agent_kind
    &&& row.payload.binding.session_id == session_id
}

/// Whether a claim hands out a notice as the ledger has it.
pub open spec fn hands_out(claim: ClaimedDeliveryView, row: DeliveryRowView) -> bool {
    &&& claim.delivery_id == row.delivery_id
    &&& claim.payload == row.payload
    &&& claim.attempts == row.attempts + 1
}

/// Whether a row is that of a notice which was handed out for one minute.
pub open spec fn handed_out(
    after: DeliveryRowView,
    before: DeliveryRowView,
    now: Timestamp,
) -> bool {
    &&& after.delivery_id == before.delivery_id
    &&& after.run_id == before.run_id
    &&& after.payload == before.payload
    &&& after.state == DeliveryState::Delivering
    &&& after.attempts == before.attempts + 1
    &&& after.next_retry_at matches Some(until) && until.nanos == now.nanos + 60_000_000_000
    &&& after.last_error is None
}

/// What a claim hands out are notices of the ledger, unchanged: each claim is a
/// notice that was ready for the session, and the ledger has each of them down as
/// handed out for one minute. All other notices stay as they are.
pub proof fn claimed_notice_is_the_stored_one(
    rows: Seq<DeliveryRowView>,
    agent_kind: Seq<char>,
    session_id: Seq<char>,
    limit: nat,
    now: Timestamp,
)
    requires
        now.clocked(),
        forall|i: int| 0 <= i < rows.len() ==> (#[trigger] rows[i]).attempts < u32::MAX,
    ensures
        ({
            let walk = deliveries::claim_walk(rows, agent_kind, session_id, limit, now);
            &&& walk.rows.len() == rows.len()
            &&& walk.taken.len() <= limit
            &&& forall|k: int|
                0 <= k < walk.taken.len() ==> exists|i: int|
                    0 <= i < rows.len() && ready_for(
                        #[trigger] rows[i],
                        agent_kind,
                        session_id,
                        now,
                    ) && hands_out(#[trigger] walk.taken[k], rows[i])
            &&& forall|i: int|
                0 <= i < rows.len() ==> #[trigger] walk.rows[i] == rows[i] || (ready_for(
                    rows[i],
                    agent_kind,
                    session_id,
                    now,
                ) && handed_out(walk.rows[i], rows[i], now))
        }),
    decreases rows.len(),
{
    if rows.len() > 0 {
        let head = rows.drop_last();
        assert forall|i: int| 0 <= i < head.len() implies (#[trigger] head[i]).attempts
            < u32::MAX by {
            assert(head[i] == rows[i]);
        }
        claimed_notice_is_the_stored_one(head, agent_kind, session_id, limit, now);
        let before = deliveries::claim_walk(head, agent_kind, session_id, limit, now);
        let walk = deliveries::claim_walk(rows, agent_kind, session_id, limit, now);
        let last = rows.len() - 1;
        assert(rows[last].attempts < u32::MAX);
        assert forall|k: int| 0 <= k < walk.taken.len() implies exists|i: int|
            0 <= i < rows.len() && ready_for(#[trigger] rows[i], agent_kind, session_id, now)
                && hands_out(#[trigger] walk.taken[k], rows[i]) by {
            if k < before.taken.len() {
                assert(walk.taken[k] == before.taken[k]);
                let i = choose|i: int|
                    0 <= i < head.len() && ready_for(
                        #[trigger] head[i],
                        agent_kind,
                        session_id,
                        now,
                    ) && hands_out(before.taken[k], head[i]);
                assert(rows[i] == head[i]);
            } else {
                assert(ready_for(rows[last], agent_kind, session_id, now));
                assert(hands_out(walk.taken[k], rows[last]));
            }
        }
        assert forall|i: int| 0 <= i < rows.len() implies #[trigger] walk.rows[i] == rows[i] || (
        ready_for(rows[i], agent_kind, session_id, now) && handed_out(walk.rows[i], rows[i], now)) by {
            if i < last {
                assert(walk.rows[i] == before.rows[i]);
                assert(head[i] == rows[i]);
            }
        }
    }
}

/// A notice that is ready for a session is handed to it, unless as many others
/// come first as one claim may take.
pub proof fn ready_notice_is_handed_out(
    rows: Seq<DeliveryRowView>,
    agent_kind: Seq<char>,
    session_id: Seq<char>,
    limit: nat,
    now: Timestamp,
    i: int,
)
    requires
        0 <= i < rows.len() <= limit,
        limit <= 16,
        ready_for(rows[i], agent_kind, session_id, now),
        rows[i].attempts < u32::MAX,
    ensures
        exists|k: int|
            0 <= k < deliveries::claim_walk(rows, agent_kind, session_id, limit, now).taken.len()
                && hands_out(
                #[trigger] deliveries::claim_walk(
                    rows,
                    agent_kind,
                    session_id,
                    limit,
                    now,
                ).taken[k],
                rows[i],
            ),
{
    lemma_ready_is_taken(rows, agent_kind, session_id, limit, now, i);
}

proof fn lemma_ready_is_taken(
    rows: Seq<DeliveryRowView>,
    agent_kind: Seq<char>,
    session_id: Seq<char>,
    limit: nat,
    now: Timestamp,
    i: int,
)
    requires
        0 <= i < rows.len() <= limit <= 16,
        ready_for(rows[i], agent_kind, session_id, now),
        rows[i].attempts < u32::MAX,
    ensures
        ({
            let walk = deliveries::claim_walk(rows, agent_kind, session_id, limit, now);
            &&& walk.seen <= rows.len()
            &&& walk.taken.len() <= rows.len()
            &&& exists|k: int| 0 <= k < walk.taken.len() && hands_out(#[trigger] walk.taken[k], rows[i])
        }),
    decreases rows.len(),
{
    let head = rows.drop_last();
    lemma_claim_sizes(head, agent_kind, session_id, limit, now);
    let before = deliveries::claim_walk(head, agent_kind, session_id, limit, now);
    let walk = deliveries::claim_walk(rows, agent_kind, session_id, limit, now);
    if i < head.len() {
        assert(head[i] == rows[i]);
        lemma_ready_is_taken(head, agent_kind, session_id, limit, now, i);
        let k = choose|k: int|
            0 <= k < before.taken.len() && hands_out(#[trigger] before.taken[k], head[i]);
        assert(walk.taken[k] == before.taken[k]);
    } else {
        let k = walk.taken.len() - 1;
        assert(hands_out(walk.taken[k], rows[i]));
    }
}

proof fn lemma_claim_sizes(
    rows: Seq<DeliveryRowView>,
    agent_kind: Seq<char>,
    session_id: Seq<char>,
    limit: nat,
    now: Timestamp,
)
    ensures
        deliveries::claim_walk(rows, agent_kind, session_id, limit, now).seen <= rows.len(),
        deliveries::claim_walk(rows, agent_kind, session_id, limit, now).taken.len() <= rows.len(),
    decreases rows.len(),
{
    if rows.len() > 0 {
        lemma_claim_sizes(rows.drop_last(), agent_kind, session_id, limit, now);
    }
}

/// One claim takes at least one notice and at most sixteen, whatever is asked
/// for.
pub proof fn claims_are_bounded(limit: usize)
    ensures
        1 <= deliveries::claim_limit(limit) <= 16,
        1 <= limit <= 16 ==> deliveries::claim_limit(limit) == limit,
{
}

/// A notice whose claim has run out waits again, with what went wrong; every
/// other notice stays as it is.
pub proof fn expired_claim_is_given_back(row: DeliveryRowView, now: Timestamp)
    ensures
        ({
            let after = deliveries::requeued_row(row, now);
            let expired = row.state == DeliveryState::Delivering && (match row.next_retry_at {
                Some(until) => until.nanos <= now.nanos,
                None => false,
            });
            &&& !expired ==> after == row
            &&& expired ==> {
                &&& after.state == DeliveryState::Pending
                &&& after.next_retry_at is None
                &&& after.last_error is Some
                &&& row.last_error is Some ==> after.last_error == row.last_error
                &&& after.delivery_id == row.delivery_id
                &&& after.run_id == row.run_id
                &&& after.attempts == row.attempts
                &&& after.payload == row.payload
            }
        }),
{
}

// ---------------------------------------------------------------------------
// Outcomes
// ---------------------------------------------------------------------------

/// What an agent says of a notice that it claimed is what the ledger has of it:
/// a delivered notice is delivered, one to be tried again is held back for half a
/// minute, and one that needs a new binding waits for that. The notice itself
/// stays as it is, and the event names the outcome.
pub proof fn outcome_is_recorded(
    s: StoreView,
    delivery_id: Seq<char>,
    outcome: Seq<char>,
    error: Option<Seq<char>>,
    now: Timestamp,
)
    requires
        now.clocked(),
        s.delivery(delivery_id) is Some,
        outcome == "delivered"@ || outcome == "retry"@ || outcome == "needs_rebind"@,
    ensures
        ({
            let row = s.delivery(delivery_id)->0;
            let t = deliveries::finished(s, delivery_id, outcome, error, now);
            t.delivery(delivery_id) matches Some(after) && ({
                &&& after.payload == row.payload
                &&& after.run_id == row.run_id
                &&& after.attempts == row.attempts
                &&& after.state == DeliveryState::Delivered <==> outcome == "delivered"@
                &&& after.state == DeliveryState::Retrying <==> outcome == "retry"@
                &&& after.state == DeliveryState::NeedsRebind <==> outcome == "needs_rebind"@
                &&& outcome == "retry"@ ==> after.last_error == error
                &&& outcome == "retry"@ ==> (match after.next_retry_at {
                    Some(at) => at.nanos == now.nanos + 30_000_000_000,
                    None => false,
                })
                &&& outcome != "retry"@ ==> after.next_retry_at is None
                &&& outcome == "delivered"@ ==> after.last_error is None
                &&& outcome == "needs_rebind"@ ==> after.last_error is Some && (error is Some
                    ==> after.last_error == error)
                &&& t.events.len() == s.events.len() + 1
                &&& t.events.last().run_id == row.payload.run_id
                &&& t.events.last().at == now
                &&& t.events.last().payload == (EventPayloadView::NoticeFinished {
                    delivery_id,
                    outcome,
                    error,
                })
                &&& outcome == "delivered"@ ==> t.events.last().kind == "continuation_"@
                    + "delivered"@
                &&& outcome == "retry"@ ==> t.events.last().kind == "continuation_"@ + "retrying"@
                &&& outcome == "needs_rebind"@ ==> t.events.last().kind == "continuation_"@
                    + "needs_rebind"@
            })
        }),
{
    let row = s.delivery(delivery_id)->0;
    seqs::lemma_present(s.deliveries, store::by_delivery(delivery_id));
    lemma_outcome_words();
    let state = deliveries::outcome_state(outcome)->0;
    laws::stored_notice_is_read_back(s, deliveries::finished_row(row, state, error, now));
    let t = deliveries::finished(s, delivery_id, outcome, error, now);
    assert(t.deliveries == s.with_delivery(
        deliveries::finished_row(row, state, error, now),
    ).deliveries);
}

proof fn lemma_outcome_words()
    ensures
        "delivered"@ != "retry"@,
        "delivered"@ != "needs_rebind"@,
        "retry"@ != "needs_rebind"@,
{
    reveal_strlit("delivered");
    reveal_strlit("retry");
    reveal_strlit("needs_rebind");
    assert("delivered"@.len() == 9);
    assert("retry"@.len() == 5);
    assert("needs_rebind"@.len() == 12);
}

/// Only three outcomes are known, and only a notice that is handed out takes
/// one: from the instance that holds the session, for which the notice is.
pub proof fn outcome_needs_the_claim(
    s: StoreView,
    agent_kind: Seq<char>,
    session_id: Seq<char>,
    owner: Seq<char>,
    delivery_id: Seq<char>,
    outcome: Seq<char>,
    now: Timestamp,
)
    ensures
        ({
            let held = holds_session(s, agent_kind, session_id, owner, now);
            let refusal = deliveries::finish_refusal(
                s,
                agent_kind,
                session_id,
                owner,
                delivery_id,
                outcome,
                now,
            );
            &&& !held ==> refusal is Some
            &&& held && s.delivery(delivery_id) is None ==> refusal is None
            &&& s.delivery(delivery_id) matches Some(row) ==> (refusal is None <==> held
                && row.payload.binding.agent_kind == agent_kind && row.payload.binding.session_id
                == session_id && (outcome == "delivered"@ || outcome == "retry"@ || outcome
                == "needs_rebind"@))
        }),
        deliveries::finishable(s, delivery_id) <==> (match s.delivery(delivery_id) {
            Some(row) => row.state == DeliveryState::Delivering,
            None => false,
        }),
{
}

// ---------------------------------------------------------------------------
// Sessions
// ---------------------------------------------------------------------------

/// Whether an instance holds a session now.
pub open spec fn holds_session(
    s: StoreView,
    agent_kind: Seq<char>,
    session_id: Seq<char>,
    owner: Seq<char>,
    now: Timestamp,
) -> bool {
    match s.lease(agent_kind, session_id) {
        Some(lease) => lease.owner_instance_id == owner && now.nanos < lease.expires_at.nanos,
        None => false,
    }
}

/// Exactly the instance that holds a session may act for it; a session can be
/// taken unless another instance holds it.
pub proof fn session_is_held_by_one(
    s: StoreView,
    registration: AgentSessionRegistrationView,
    now: Timestamp,
)
    ensures
        deliveries::lease_refusal(
            s,
            registration.agent_kind,
            registration.session_id,
            registration.owner_instance_id,
            now,
        ) is None <==> holds_session(
            s,
            registration.agent_kind,
            registration.session_id,
            registration.owner_instance_id,
            now,
        ),
        deliveries::lease_conflict(s, registration, now) is Some <==> (match s.lease(
            registration.agent_kind,
            registration.session_id,
        ) {
            Some(lease) => lease.owner_instance_id != registration.owner_instance_id && now.nanos
                < lease.expires_at.nanos,
            None => false,
        }),
{
}

/// A session that was taken is held until its time is over, by the instance that
/// took it: for as long as it asked for, but no less than five seconds and no
/// more than five minutes.
pub proof fn taken_session_is_held(
    s: StoreView,
    registration: AgentSessionRegistrationView,
    ttl_seconds: u64,
    now: Timestamp,
    later: Timestamp,
)
    requires
        now.clocked(),
    ensures
        ({
            let until = now.plus(deliveries::lease_seconds(ttl_seconds));
            let t = s.with_lease(deliveries::lease_of(registration, until));
            let seconds = (until.nanos - now.nanos) / 1_000_000_000;
            &&& until.nanos == now.nanos + seconds * 1_000_000_000
            &&& 5 <= seconds <= 300
            &&& 5 <= ttl_seconds <= 300 ==> seconds == ttl_seconds
            &&& ttl_seconds < 5 ==> seconds == 5
            &&& ttl_seconds > 300 ==> seconds == 300
            &&& holds_session(
                t,
                registration.agent_kind,
                registration.session_id,
                registration.owner_instance_id,
                later,
            ) <==> later.nanos < until.nanos
            &&& t.lease(registration.agent_kind, registration.session_id) matches Some(lease)
                && lease.registration == registration && lease.expires_at == until
        }),
{
    let until = now.plus(deliveries::lease_seconds(ttl_seconds));
    seqs::lemma_put_first(
        s.leases,
        store::by_session(registration.agent_kind, registration.session_id),
        deliveries::lease_of(registration, until),
    );
}

/// A session that was given up is held by nobody who gave it up, and other
/// sessions stay held.
pub proof fn released_session_is_free(
    s: StoreView,
    agent_kind: Seq<char>,
    session_id: Seq<char>,
    owner: Seq<char>,
    i: int,
)
    ensures
        ({
            let t = s.without_lease(agent_kind, session_id, owner);
            &&& 0 <= i < t.leases.len() && s.keyed() ==> !(t.leases[i].agent_kind == agent_kind
                && t.leases[i].session_id == session_id && t.leases[i].owner_instance_id == owner)
            &&& t.runs == s.runs
            &&& t.deliveries == s.deliveries
        }),
{
    let t = s.without_lease(agent_kind, session_id, owner);
    let wanted = store::by_owned_session(agent_kind, session_id, owner);
    seqs::lemma_until_bounds(s.leases, wanted);
    let k = seqs::until(s.leases, wanted) as int;
    if 0 <= i < t.leases.len() && s.keyed() {
        if k < s.leases.len() {
            assert(t.leases =~= s.leases.remove(k));
            if t.leases[i].agent_kind == agent_kind && t.leases[i].session_id == session_id {
                let j = if i < k { i } else { i + 1 };
                assert(t.leases[i] == s.leases[j]);
                assert(store::session_key()(s.leases[j]) == store::session_key()(s.leases[k]));
            }
        } else {
            assert(!wanted(s.leases[i]));
        }
    }
}

// ---------------------------------------------------------------------------
// Rebinding
// ---------------------------------------------------------------------------

/// Binding a run anew changes of its open notices only for whom they are, and
/// sets those waiting for a new binding free; delivered notices stay as they are.
/// A run is bound anew only where it is known and no notice of it is handed out.
pub proof fn rebound_notice_keeps_its_news(
    s: StoreView,
    run_id: Seq<char>,
    binding: ContinuationBindingView,
    now: Timestamp,
    i: int,
)
    requires
        0 <= i < s.deliveries.len(),
        s.deliveries[i].run_id == run_id,
    ensures
        ({
            let before = s.deliveries[i];
            let after = deliveries::rebound(s, run_id, binding, now).deliveries[i];
            &&& after.delivery_id == before.delivery_id
            &&& after.run_id == before.run_id
            &&& after.attempts == before.attempts
            &&& after.payload.run_id == before.payload.run_id
            &&& after.payload.status == before.payload.status
            &&& after.payload.job_id == before.payload.job_id
            &&& after.payload.attempt_no == before.payload.attempt_no
            &&& after.payload.delivery_id == before.payload.delivery_id
            &&& after.payload.created_at == before.payload.created_at
            &&& after.payload.workspace == before.payload.workspace
            &&& before.state == DeliveryState::NeedsRebind ==> after.state
                == DeliveryState::Pending && after.next_retry_at is None && after.last_error is None
                && after.payload.binding == binding
            &&& before.state == DeliveryState::Pending || before.state == DeliveryState::Retrying
                ==> after.state == before.state && after.next_retry_at == before.next_retry_at
                && after.last_error == before.last_error && after.payload.binding == binding
            &&& before.state == DeliveryState::Delivered || before.state
                == DeliveryState::Delivering ==> after == before
        }),
        deliveries::rebind_refusal(s, run_id) is None ==> s.run(run_id) is Some
            && s.deliveries[i].state != DeliveryState::Delivering,
        deliveries::rebound(s, run_id, binding, now).events.last().kind
            == "continuation_rebound"@,
{
    if deliveries::rebind_refusal(s, run_id) is None {
        seqs::lemma_present(s.deliveries, deliveries::in_flight(run_id));
        assert(!deliveries::in_flight(run_id)(s.deliveries[i]));
    }
}

/// The number of notices that a new binding sets free is the number of those
/// that waited for it.
pub proof fn rebinding_counts_what_it_frees(rows: Seq<DeliveryRowView>, run_id: Seq<char>)
    ensures
        deliveries::blocked_count(rows, run_id) == rows.filter(
            |row: DeliveryRowView|
                row.run_id == run_id && row.state == DeliveryState::NeedsRebind,
        ).len(),
    decreases rows.len(),
{
    reveal(Seq::filter);
    if rows.len() > 0 {
        rebinding_counts_what_it_frees(rows.drop_last(), run_id);
    }
}

// ---------------------------------------------------------------------------
// Counts
// ---------------------------------------------------------------------------

/// What is counted of the notices of a session in a state is how many of them
/// there are.
pub proof fn session_counts_are_true(
    rows: Seq<DeliveryRowView>,
    agent_kind: Seq<char>,
    session_id: Seq<char>,
    state: DeliveryState,
)
    ensures
        deliveries::count_state(rows, agent_kind, session_id, state) == rows.filter(
            |row: DeliveryRowView|
                row.payload.binding.agent_kind == agent_kind && row.payload.binding.session_id
                    == session_id && row.state == state,
        ).len(),
    decreases rows.len(),
{
    reveal(Seq::filter);
    if rows.len() > 0 {
        session_counts_are_true(rows.drop_last(), agent_kind, session_id, state);
    }
}

/// How many notices of a run are in a state.
pub open spec fn notices_in(rows: Seq<DeliveryRowView>, run_id: Seq<char>, state: DeliveryState) -> nat {
    rows.filter(|row: DeliveryRowView| row.run_id == run_id && row.state == state).len()
}

proof fn lemma_run_count(rows: Seq<DeliveryRowView>, run_id: Seq<char>, state: DeliveryState)
    ensures
        reading::run_count(rows, run_id, state) == notices_in(rows, run_id, state),
    decreases rows.len(),
{
    reveal(Seq::filter);
    if rows.len() > 0 {
        lemma_run_count(rows.drop_last(), run_id, state);
    }
}

/// What is told of the notices of a run is true: how many there are in each
/// state, for whom they are, and how the latest of them stands.
pub proof fn continuation_status_is_true(s: StoreView, run_id: Seq<char>, i: int)
    requires
        s.deliveries.len() <= u32::MAX,
    ensures
        ({
            let status = reading::continuation_status(s, run_id);
            let rows = s.deliveries;
            &&& status.run_id == run_id
            &&& status.pending == notices_in(rows, run_id, DeliveryState::Pending)
            &&& status.delivering == notices_in(rows, run_id, DeliveryState::Delivering)
            &&& status.retrying == notices_in(rows, run_id, DeliveryState::Retrying)
            &&& status.needs_rebind == notices_in(rows, run_id, DeliveryState::NeedsRebind)
            &&& status.delivered == notices_in(rows, run_id, DeliveryState::Delivered)
            &&& status.configured <==> s.binding(run_id) is Some
            &&& s.binding(run_id) matches Some(binding) ==> status.agent_kind == Some(
                binding.agent_kind,
            ) && status.session_id == Some(binding.session_id) && status.project_root == Some(
                binding.project_root,
            )
            &&& s.binding(run_id) is None ==> status.agent_kind is None && status.session_id is None
                && status.project_root is None
            &&& 0 <= i < rows.len() && rows[i].run_id == run_id && (forall|j: int|
                i < j < rows.len() ==> (#[trigger] rows[j]).run_id != run_id)
                ==> status.last_error == rows[i].last_error && status.last_state == Some(
                rows[i].state.name(),
            )
        }),
{
    let rows = s.deliveries;
    lemma_run_count(rows, run_id, DeliveryState::Pending);
    lemma_run_count(rows, run_id, DeliveryState::Delivering);
    lemma_run_count(rows, run_id, DeliveryState::Retrying);
    lemma_run_count(rows, run_id, DeliveryState::NeedsRebind);
    lemma_run_count(rows, run_id, DeliveryState::Delivered);
    lemma_run_count_bound(rows, run_id, DeliveryState::Pending);
    lemma_run_count_bound(rows, run_id, DeliveryState::Delivering);
    lemma_run_count_bound(rows, run_id, DeliveryState::Retrying);
    lemma_run_count_bound(rows, run_id, DeliveryState::NeedsRebind);
    lemma_run_count_bound(rows, run_id, DeliveryState::Delivered);
    if 0 <= i < rows.len() && rows[i].run_id == run_id && (forall|j: int|
        i < j < rows.len() ==> (#[trigger] rows[j]).run_id != run_id) {
        lemma_latest_notice(rows, run_id, i);
    }
}

proof fn lemma_run_count_bound(rows: Seq<DeliveryRowView>, run_id: Seq<char>, state: DeliveryState)
    ensures
        reading::run_count(rows, run_id, state) <= rows.len(),
    decreases rows.len(),
{
    if rows.len() > 0 {
        lemma_run_count_bound(rows.drop_last(), run_id, state);
    }
}

proof fn lemma_latest_notice(rows: Seq<DeliveryRowView>, run_id: Seq<char>, i: int)
    requires
        0 <= i < rows.len(),
        rows[i].run_id == run_id,
        forall|j: int| i < j < rows.len() ==> (#[trigger] rows[j]).run_id != run_id,
    ensures
        reading::latest_notice(rows, run_id) == Some(rows[i]),
    decreases rows.len(),
{
    let rest = rows.drop_last();
    if i < rest.len() {
        assert(rows[rows.len() - 1].run_id != run_id);
        assert(rest[i] == rows[i]);
        assert forall|j: int| i < j < rest.len() implies (#[trigger] rest[j]).run_id != run_id by {
            assert(rest[j] == rows[j]);
        }
        lemma_latest_notice(rest, run_id, i);
    }
}

/// The names of the states of a notice are all different, so that the name tells
/// the state.
pub proof fn notice_states_have_names(state: DeliveryState, other: DeliveryState)
    ensures
        state.name() == other.name() ==> state == other,
        state.name() == "pending"@ <==> state == DeliveryState::Pending,
        state.name() == "delivering"@ <==> state == DeliveryState::Delivering,
        state.name() == "retrying"@ <==> state == DeliveryState::Retrying,
        state.name() == "needs_rebind"@ <==> state == DeliveryState::NeedsRebind,
        state.name() == "delivered"@ <==> state == DeliveryState::Delivered,
        state.open() <==> state == DeliveryState::Pending || state == DeliveryState::Retrying,
{
    reveal_strlit("pending");
    reveal_strlit("delivering");
    reveal_strlit("retrying");
    reveal_strlit("needs_rebind");
    reveal_strlit("delivered");
    assert("pending"@.len() == 7 && "delivering"@.len() == 10 && "retrying"@.len() == 8
        && "needs_rebind"@.len() == 12 && "delivered"@.len() == 9);
}

/// Whether a run is bound or has a notice.
pub open spec fn is_told_of(s: StoreView, run_id: Seq<char>) -> bool {
    ||| exists|i: int| 0 <= i < s.bindings.len() && (#[trigger] s.bindings[i]).run_id == run_id
    ||| exists|i: int| 0 <= i < s.deliveries.len() && (#[trigger] s.deliveries[i]).run_id == run_id
}

/// The list of how far the notices have come has exactly one line for each run
/// that is bound or has a notice, that of the run, and goes by the names of the
/// runs.
pub proof fn told_runs_are_listed(s: StoreView)
    ensures
        ({
            let list = reading::continuation_statuses(s);
            &&& forall|k: int|
                #![trigger list[k]]
                0 <= k < list.len() ==> is_told_of(s, list[k].run_id) && list[k]
                    == reading::continuation_status(s, list[k].run_id)
            &&& forall|run_id: Seq<char>| #[trigger]
                is_told_of(s, run_id) ==> exists|k: int|
                    0 <= k < list.len() && (#[trigger] list[k]).run_id == run_id
            &&& forall|i: int, j: int|
                0 <= i < j < list.len() ==> text::precedes(
                    (#[trigger] list[i]).run_id,
                    (#[trigger] list[j]).run_id,
                )
        }),
{
    broadcast use vstd::seq_lib::group_to_multiset_ensures;

    let told = reading::told_names(s);
    let names = reading::distinct(told);
    let less = reading::name_order();
    let sorted = seqs::stable_sorted(names, less);
    let list = reading::continuation_statuses(s);
    laws::distinct_lists_each_once(told);
    seqs::sort_keeps_items(names, less);
    text::precedes_is_an_order();
    assert(seqs::weakly_ordered(less));
    seqs::sort_is_ordered(names, less);
    names.lemma_multiset_has_no_duplicates();
    sorted.lemma_multiset_has_no_duplicates_conv();
    assert forall|k: int| #![trigger list[k]] 0 <= k < list.len() implies is_told_of(
        s,
        list[k].run_id,
    ) && list[k] == reading::continuation_status(s, list[k].run_id) && list[k].run_id
        == sorted[k] by {
        assert(sorted.contains(sorted[k]));
        assert(names.to_multiset().count(sorted[k]) > 0);
        assert(names.contains(sorted[k]));
        lemma_told(s, sorted[k]);
    }
    assert forall|run_id: Seq<char>| #[trigger] is_told_of(s, run_id) implies exists|k: int|
        0 <= k < list.len() && (#[trigger] list[k]).run_id == run_id by {
        lemma_told(s, run_id);
        assert(names.contains(run_id));
        assert(sorted.to_multiset().count(run_id) > 0);
        assert(sorted.contains(run_id));
        let k = choose|k: int| 0 <= k < sorted.len() && sorted[k] == run_id;
        assert(list[k].run_id == run_id);
    }
    assert forall|i: int, j: int| 0 <= i < j < list.len() implies text::precedes(
        (#[trigger] list[i]).run_id,
        (#[trigger] list[j]).run_id,
    ) by {
        assert(sorted[i] != sorted[j]);
        assert(!less(sorted[j], sorted[i]));
    }
}

proof fn lemma_told(s: StoreView, run_id: Seq<char>)
    ensures
        reading::told_names(s).contains(run_id) <==> is_told_of(s, run_id),
{
    let told = reading::told_names(s);
    if told.contains(run_id) {
        let i = choose|i: int| 0 <= i < told.len() && told[i] == run_id;
        if i < s.bindings.len() {
            assert(s.bindings[i].run_id == run_id);
        } else {
            assert(s.deliveries[i - s.bindings.len()].run_id == run_id);
        }
    }
    if exists|i: int| 0 <= i < s.bindings.len() && (#[trigger] s.bindings[i]).run_id == run_id {
        let i = choose|i: int|
            0 <= i < s.bindings.len() && (#[trigger] s.bindings[i]).run_id == run_id;
        assert(told[i] == run_id);
    }
    if exists|i: int|
        0 <= i < s.deliveries.len() && (#[trigger] s.deliveries[i]).run_id == run_id {
        let i = choose|i: int|
            0 <= i < s.deliveries.len() && (#[trigger] s.deliveries[i]).run_id == run_id;
        assert(told[s.bindings.len() + i] == run_id);
    }
}

} // verus!
