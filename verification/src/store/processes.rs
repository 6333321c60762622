//! What holds of the agent processes that are started for notices, stated on the
//! rows that are read back.
use crate::seqs;
use crate::store;
use crate::store::deliveries;
use crate::store::laws;
use crate::store::offline;
use crate::store::{
    DeliveryRowView, DeliveryState, InvocationRowView, InvocationState, StoreView,
};
use crate::time::Timestamp;
use crate::types::DeliveryPayloadView;
use vstd::prelude::*;

verus! {

/// Whether somebody holds a session now.
pub open spec fn is_held(
    s: StoreView,
    agent_kind: Seq<char>,
    session_id: Seq<char>,
    now: Timestamp,
) -> bool {
    match s.lease(agent_kind, session_id) {
        Some(lease) => now.nanos < lease.expires_at.nanos,
        None => false,
    }
}

/// A process is started for a notice where it has waited long enough, is for an
/// agent that can be started, has all that such a start needs, and nobody holds
/// its session. A notice for another agent, or one that lacks what the start
/// needs, is blocked; every other one waits.
pub proof fn process_is_started_where_it_can_be(
    s: StoreView,
    payload: DeliveryPayloadView,
    cutoff: Timestamp,
    now: Timestamp,
)
    ensures
        ({
            let binding = payload.binding;
            let step = offline::offline_step(s, payload, cutoff, now);
            let old_enough = payload.created_at.nanos <= cutoff.nanos;
            let known = binding.agent_kind == "pi"@ || binding.agent_kind == "codex"@;
            let complete = binding.session_file is Some && (binding.agent_kind == "pi"@
                ==> binding.adapter_path is Some);
            let held = is_held(s, binding.agent_kind, binding.session_id, now);
            &&& step is Start <==> old_enough && known && complete && !held
            &&& step is Block <==> old_enough && !(known && complete)
            &&& step is Wait <==> !old_enough || (known && complete && held)
        }),
{
}

/// Whether a row is that of a notice which is taken for six hours.
pub open spec fn taken_for_a_process(
    after: DeliveryRowView,
    before: DeliveryRowView,
    now: Timestamp,
) -> bool {
    &&& after.delivery_id == before.delivery_id
    &&& after.run_id == before.run_id
    &&& after.payload == before.payload
    &&& after.state == DeliveryState::Delivering
    &&& after.attempts == before.attempts + 1
    &&& after.next_retry_at matches Some(until) && until.nanos == now.nanos + 21_600_000_000_000
    &&& after.last_error is None
}

/// Whether a notice can be given to a process now.
pub open spec fn can_start(
    s: StoreView,
    row: DeliveryRowView,
    cutoff: Timestamp,
    now: Timestamp,
) -> bool {
    &&& row.state == DeliveryState::Pending || row.state == DeliveryState::Retrying
    &&& row.next_retry_at matches Some(at) ==> at.nanos <= now.nanos
    &&& offline::offline_step(s, row.payload, cutoff, now) is Start
}

/// Whether a row is that of a notice which was set aside, with a reason, until
/// its run is bound anew.
pub open spec fn set_aside(after: DeliveryRowView, before: DeliveryRowView) -> bool {
    &&& after.delivery_id == before.delivery_id
    &&& after.run_id == before.run_id
    &&& after.payload == before.payload
    &&& after.attempts == before.attempts
    &&& after.state == DeliveryState::NeedsRebind
    &&& after.last_error is Some
}

proof fn lemma_walk(
    s: StoreView,
    rows: Seq<DeliveryRowView>,
    cutoff: Timestamp,
    now: Timestamp,
)
    requires
        now.clocked(),
        forall|i: int| 0 <= i < rows.len() ==> (#[trigger] rows[i]).attempts < u32::MAX,
    ensures
        ({
            let walk = offline::offline_walk(s, rows, cutoff, now);
            &&& walk.rows.len() == rows.len()
            &&& walk.chosen matches Some(at) ==> 0 <= at < rows.len() && can_start(
                s,
                rows[at],
                cutoff,
                now,
            ) && taken_for_a_process(walk.rows[at], rows[at], now)
            &&& forall|i: int|
                0 <= i < rows.len() && walk.chosen != Some(i) ==> #[trigger] walk.rows[i] == rows[i]
                    || (set_aside(walk.rows[i], rows[i]) && offline::offline_step(
                    s,
                    rows[i].payload,
                    cutoff,
                    now,
                ) is Block)
        }),
    decreases rows.len(),
{
    if rows.len() > 0 {
        let head = rows.drop_last();
        assert forall|i: int| 0 <= i < head.len() implies (#[trigger] head[i]).attempts
            < u32::MAX by {
            assert(head[i] == rows[i]);
        }
        lemma_walk(s, head, cutoff, now);
        let before = offline::offline_walk(s, head, cutoff, now);
        let walk = offline::offline_walk(s, rows, cutoff, now);
        let last = rows.len() - 1;
        assert(rows[last].attempts < u32::MAX);
        if let Some(at) = walk.chosen {
            if at < last {
                assert(before.chosen == Some(at));
                assert(walk.rows[at] == before.rows[at]);
                assert(head[at] == rows[at]);
            }
        }
        assert forall|i: int| 0 <= i < rows.len() && walk.chosen != Some(i) implies
            #[trigger] walk.rows[i] == rows[i] || (set_aside(walk.rows[i], rows[i])
            && offline::offline_step(s, rows[i].payload, cutoff, now) is Block) by {
            if i < last {
                assert(walk.rows[i] == before.rows[i]);
                assert(head[i] == rows[i]);
            }
        }
    }
}

/// A process is started for a notice that was ready for it: what it gets is that
/// notice, with the session, the adapter and the directory of its binding. The
/// ledger then has the notice as taken for six hours, the session as held by the
/// process for two minutes, and the process as starting.
pub proof fn started_process_has_its_notice(s: StoreView, grace_seconds: int, now: Timestamp)
    requires
        now.clocked(),
        deliveries::countable(s),
        offline::offline_choice(s, grace_seconds, now) is Some,
    ensures
        ({
            let ready = deliveries::requeued(s, now);
            let row = offline::offline_choice(s, grace_seconds, now)->0;
            let started = offline::started_process(row, now);
            let binding = row.payload.binding;
            let t = offline::reserved(s, grace_seconds, now);
            &&& ready.deliveries.contains(row)
            &&& can_start(ready, row, now.plus(-grace_seconds), now)
            &&& started.delivery_id == row.delivery_id
            &&& started.payload == row.payload
            &&& started.session_file == binding.session_file
            &&& started.adapter_path == binding.adapter_path
            &&& started.project_root == binding.project_root
            &&& started.state == "starting"@
            &&& started.pid is None
            &&& started.started_at == now
            &&& exists|i: int|
                0 <= i < ready.deliveries.len() && ready.deliveries[i] == row
                    && taken_for_a_process(#[trigger] t.deliveries[i], row, now)
            &&& t.lease(binding.agent_kind, binding.session_id) matches Some(lease)
                && lease.owner_instance_id == started.owner_instance_id && lease.expires_at.nanos
                == now.nanos + 120_000_000_000
            &&& t.invocation(started.invocation_id) matches Some(process) && process.record
                == started && process.state == InvocationState::Starting && process.pid is None
        }),
{
    let ready = deliveries::requeued(s, now);
    let rows = ready.deliveries;
    assert forall|i: int| 0 <= i < rows.len() implies (#[trigger] rows[i]).attempts < u32::MAX by {
        assert(s.deliveries[i].attempts < u32::MAX);
    }
    let cutoff = now.plus(-grace_seconds);
    lemma_walk(ready, rows, cutoff, now);
    let walk = offline::offline_walk(ready, rows, cutoff, now);
    let at = walk.chosen->0;
    let row = rows[at];
    let walked = StoreView { deliveries: walk.rows, ..ready };
    let lease = deliveries::lease_of(offline::started_registration(row, now), now.plus(120));
    seqs::lemma_put_first(
        walked.leases,
        store::by_session(lease.agent_kind, lease.session_id),
        lease,
    );
    let process = offline::started_row(row, now);
    seqs::lemma_put_first(
        walked.invocations,
        store::by_invocation(process.record.invocation_id),
        process,
    );
    let t = offline::reserved(s, grace_seconds, now);
    assert(t.deliveries == walk.rows);
    assert(t.deliveries[at] == walk.rows[at]);
    assert(t.leases == walked.with_lease(lease).leases);
    assert(t.invocations == walked.with_invocation(process).invocations);
}

/// A process that runs is down with its number, under its own name, and stays
/// the process of its notice.
pub proof fn running_process_has_its_number(
    s: StoreView,
    invocation_id: Seq<char>,
    pid: u32,
    now: Timestamp,
)
    requires
        s.invocation(invocation_id) is Some,
    ensures
        offline::running(s, invocation_id, pid, now).invocation(invocation_id) matches Some(
            after,
        ) && after.pid == Some(pid) && after.state == InvocationState::Running && after.updated_at
            == now && after.record == s.invocation(invocation_id)->0.record,
{
    let row = s.invocation(invocation_id)->0;
    let wanted = store::by_invocation(invocation_id);
    seqs::lemma_present(s.invocations, wanted);
    let updated = InvocationRowView {
        state: InvocationState::Running,
        pid: Some(pid),
        updated_at: now,
        ..row
    };
    seqs::lemma_put_first(s.invocations, wanted, updated);
    assert(seqs::put(s.invocations, wanted, updated) == seqs::replaced_row(
        s.invocations,
        wanted,
        updated,
    ));
}

/// A process still has its notice as long as it lives, holds the session, and the
/// notice is on its way.
pub proof fn process_owns_its_notice(
    s: StoreView,
    invocation_id: Seq<char>,
    delivery_id: Seq<char>,
    owner: Seq<char>,
    now: Timestamp,
)
    ensures
        offline::still_owned(s, invocation_id, delivery_id, owner, now) <==> (match s.invocation(
            invocation_id,
        ) {
            Some(row) => {
                let binding = row.record.payload.binding;
                &&& row.state == InvocationState::Starting || row.state == InvocationState::Running
                &&& row.record.delivery_id == delivery_id
                &&& row.record.owner_instance_id == owner
                &&& s.delivery(delivery_id) is Some
                &&& s.delivery(delivery_id)->0.state == DeliveryState::Delivering
                &&& s.lease(binding.agent_kind, binding.session_id) is Some
                &&& s.lease(binding.agent_kind, binding.session_id)->0.owner_instance_id == owner
                &&& now.nanos < s.lease(
                    binding.agent_kind,
                    binding.session_id,
                )->0.expires_at.nanos
            },
            None => false,
        }),
{
}

/// How a process is down that has exited, by how its notice stands: as done where
/// the notice was delivered, as blocked where it needs a new binding, and as
/// failed where the process left without a word. A notice that it held is to be
/// tried again in half a minute.
pub proof fn exit_is_recorded(
    s: StoreView,
    invocation_id: Seq<char>,
    exit_code: Option<i32>,
    process_error: Option<Seq<char>>,
    now: Timestamp,
)
    requires
        now.clocked(),
        s.invocation(invocation_id) is Some,
    ensures
        ({
            let row = s.invocation(invocation_id)->0;
            let notice = s.delivery(row.record.delivery_id);
            let t = offline::exited(s, invocation_id, exit_code, process_error, now);
            let state = match notice {
                None => InvocationState::Missing,
                Some(held) => match held.state {
                    DeliveryState::Delivered => InvocationState::Completed,
                    DeliveryState::NeedsRebind => InvocationState::Blocked,
                    DeliveryState::Retrying => InvocationState::Retrying,
                    DeliveryState::Delivering => InvocationState::Failed,
                    DeliveryState::Pending => InvocationState::Pending,
                },
            };
            &&& t.invocation(invocation_id) matches Some(after) && after.state == state
                && after.record == row.record && after.updated_at == now
            &&& notice is Some && notice->0.state == DeliveryState::Delivering ==> (t.delivery(
                row.record.delivery_id,
            ) matches Some(given) && given.state == DeliveryState::Retrying && given.payload
                == notice->0.payload && given.last_error is Some && given.next_retry_at
                == Some(now.plus(30)) && (process_error is Some ==> given.last_error
                == process_error))
            &&& notice is Some && notice->0.state != DeliveryState::Delivering ==> t.deliveries
                == s.deliveries
            &&& now.plus(30).nanos == now.nanos + 30_000_000_000
            &&& t.events.len() == s.events.len() + 1
            &&& t.events.last().kind == "agent_invocation_exit"@
            &&& t.events.last().run_id == row.record.payload.run_id
        }),
{
    let row = s.invocation(invocation_id)->0;
    let notice = s.delivery(row.record.delivery_id);
    let binding = row.record.payload.binding;
    let t = offline::exited(s, invocation_id, exit_code, process_error, now);
    seqs::lemma_present(s.invocations, store::by_invocation(invocation_id));
    let after = InvocationRowView {
        state: offline::exit_state(notice),
        updated_at: now,
        last_error: offline::exit_error(row, notice, exit_code, process_error),
        ..row
    };
    assert(row.record.invocation_id == invocation_id);
    seqs::lemma_put_first(s.invocations, store::by_invocation(invocation_id), after);
    assert(t.invocations == s.with_invocation(after).invocations);
    if let Some(held) = notice {
        seqs::lemma_present(s.deliveries, store::by_delivery(row.record.delivery_id));
        if held.state == DeliveryState::Delivering {
            let lost = offline::lost_row(
                held,
                now.plus(30),
                offline::exit_message(binding.agent_kind, exit_code, process_error),
            );
            laws::stored_notice_is_read_back(s, lost);
            assert(t.deliveries == s.with_delivery(lost).deliveries);
        }
    }
}

/// A process is an orphan where it is down as alive and does not hold its session
/// any more. Closing it gives the notice that it had back, after the delay, and
/// takes the session from it; a process that holds its session is not touched.
pub proof fn orphan_is_closed(s: StoreView, at: int, delay: int, now: Timestamp)
    requires
        0 <= at < s.invocations.len(),
    ensures
        ({
            let row = s.invocations[at];
            let binding = row.record.payload.binding;
            let alive = row.state == InvocationState::Starting || row.state
                == InvocationState::Running;
            let holds = match s.lease(binding.agent_kind, binding.session_id) {
                Some(lease) => lease.owner_instance_id == row.record.owner_instance_id && now.nanos
                    < lease.expires_at.nanos,
                None => false,
            };
            let notice = s.delivery(row.record.delivery_id);
            let t = offline::reconciled_one(s, at, delay, now);
            let state = match notice {
                None => InvocationState::Failed,
                Some(held) => match held.state {
                    DeliveryState::Delivered => InvocationState::Completed,
                    DeliveryState::NeedsRebind => InvocationState::Blocked,
                    DeliveryState::Retrying => InvocationState::Retrying,
                    DeliveryState::Delivering => InvocationState::Failed,
                    DeliveryState::Pending => InvocationState::Failed,
                },
            };
            &&& !alive || holds ==> t == s
            &&& alive && !holds ==> ({
                &&& t.invocations.len() == s.invocations.len()
                &&& t.invocations[at].state == state
                &&& t.invocations[at].record == row.record
                &&& t.invocations[at].updated_at == now
                &&& t.events.len() == s.events.len() + 1
                &&& t.events.last().kind == "agent_invocation_reconciled"@
                &&& notice is Some && notice->0.state == DeliveryState::Delivering ==> (t.delivery(
                    row.record.delivery_id,
                ) matches Some(given) && given.state == DeliveryState::Retrying && given.payload
                    == notice->0.payload && given.next_retry_at == Some(now.plus(delay))
                    && given.last_error is Some)
                &&& !(notice is Some && notice->0.state == DeliveryState::Delivering)
                    ==> t.deliveries == s.deliveries
            })
        }),
{
    let row = s.invocations[at];
    let notice = s.delivery(row.record.delivery_id);
    let t = offline::reconciled_one(s, at, delay, now);
    if let Some(held) = notice {
        seqs::lemma_present(s.deliveries, store::by_delivery(row.record.delivery_id));
        if held.state == DeliveryState::Delivering && offline::orphaned(s, row, now) {
            let message = offline::orphan_error(row, notice)->0;
            let lost = offline::lost_row(held, now.plus(delay), message);
            laws::stored_notice_is_read_back(s, lost);
            assert(t.deliveries == s.with_delivery(lost).deliveries);
        }
    }
}

/// The names of the states of a process are all different.
#[verifier::rlimit(40)]
pub proof fn process_states_have_names(state: InvocationState, other: InvocationState)
    ensures
        state.name() == other.name() ==> state == other,
        state.live() <==> state == InvocationState::Starting || state == InvocationState::Running,
{
    reveal_strlit("starting");
    reveal_strlit("running");
    reveal_strlit("completed");
    reveal_strlit("blocked");
    reveal_strlit("retrying");
    reveal_strlit("failed");
    reveal_strlit("pending");
    reveal_strlit("missing");
    assert("starting"@.len() == 8 && "starting"@[0] == 's');
    assert("running"@.len() == 7 && "running"@[0] == 'r');
    assert("completed"@.len() == 9);
    assert("blocked"@.len() == 7 && "blocked"@[0] == 'b');
    assert("retrying"@.len() == 8 && "retrying"@[0] == 'r');
    assert("failed"@.len() == 6);
    assert("pending"@.len() == 7 && "pending"@[0] == 'p');
    assert("missing"@.len() == 7 && "missing"@[0] == 'm');
}

/// Each orphan that is closed leaves one event, and they are counted.
pub proof fn closed_orphans_are_counted(s: StoreView, count: nat, delay: int, now: Timestamp)
    requires
        count <= s.invocations.len(),
    ensures
        offline::reconciled(s, count, delay, now).events.len() == s.events.len()
            + offline::orphan_count(s, count, delay, now),
        offline::reconciled(s, count, delay, now).invocations.len() == s.invocations.len(),
        offline::orphan_count(s, count, delay, now) <= count,
    decreases count,
{
    if count > 0 {
        closed_orphans_are_counted(s, (count - 1) as nat, delay, now);
        let before = offline::reconciled(s, (count - 1) as nat, delay, now);
        orphan_is_closed(before, count - 1, delay, now);
    }
}

/// A process is refused only where one of its name is in the ledger already.
pub proof fn process_names_are_not_taken_twice(s: StoreView, grace_seconds: int, now: Timestamp)
    ensures
        offline::reserve_refusal(s, grace_seconds, now) is Some <==> (offline::offline_choice(
            s,
            grace_seconds,
            now,
        ) matches Some(row) && s.invocation(offline::started_process(row, now).invocation_id)
            is Some),
{
}

} // verus!
