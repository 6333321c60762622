//! Agent processes that are started for a notice when no instance of the agent
//! is there to take it.
use crate::seqs;
use crate::seqs::copy_rows;
use crate::store;
use crate::store::deliveries;
use crate::store::deliveries::CANDIDATES;
use crate::store::{
    DeliveryRow, DeliveryRowView, DeliveryState, EventPayload, EventPayloadView, InvocationRow,
    InvocationRowView, InvocationState, LeaseRow, RunStore, StoreView,
};
use crate::text;
use crate::text::{same, show_signed, signed_decimal_text};
use crate::time::Timestamp;
use crate::types::{
    clone_text, AgentInvocationRecord, AgentInvocationRecordView, AgentSessionRegistration,
    AgentSessionRegistrationView, ContinuationBindingView, DeliveryPayloadView,
};
use vstd::prelude::*;
use vstd::string::*;

verus! {

/// For how many seconds a started process holds its notice.
pub const OFFLINE_CLAIM_SECONDS: i64 = 21_600;

/// For how many seconds a started process holds its session.
pub const OFFLINE_LEASE_SECONDS: i64 = 120;

// ---------------------------------------------------------------------------
// Starting a process
// ---------------------------------------------------------------------------

/// What is to be done about a due notice.
pub enum OfflineStep {
    /// It is left for later.
    Wait,
    /// No process can take it as it is bound.
    Block(Seq<char>),
    /// A process is started for it.
    Start,
}

/// Whether an instance holds the session at `now`.
pub open spec fn session_held(
    s: StoreView,
    agent_kind: Seq<char>,
    session_id: Seq<char>,
    now: Timestamp,
) -> bool {
    match s.lease(agent_kind, session_id) {
        Some(lease) => lease.expires_at.nanos > now.nanos,
        None => false,
    }
}

/// What is to be done about a due notice that was made no later than `cutoff`
/// or after it.
pub open spec fn offline_step(
    s: StoreView,
    payload: DeliveryPayloadView,
    cutoff: Timestamp,
    now: Timestamp,
) -> OfflineStep {
    let kind = payload.binding.agent_kind;
    if payload.created_at.nanos > cutoff.nanos {
        OfflineStep::Wait
    } else if kind != "pi"@ && kind != "codex"@ {
        OfflineStep::Block("offline continuation does not support agent_kind="@ + kind)
    } else if payload.binding.session_file is None {
        OfflineStep::Block(
            "offline "@ + kind + " continuation requires a durable session/rollout file"@,
        )
    } else if kind == "pi"@ && payload.binding.adapter_path is None {
        OfflineStep::Block(
            "offline Pi continuation requires the pi-runs adapter path; rebind from a current Pi instance"@,
        )
    } else if session_held(s, kind, payload.binding.session_id, now) {
        OfflineStep::Wait
    } else {
        OfflineStep::Start
    }
}

/// A notice that no process can take.
pub open spec fn blocked_row(row: DeliveryRowView, reason: Seq<char>) -> DeliveryRowView {
    DeliveryRowView { state: DeliveryState::NeedsRebind, last_error: Some(reason), ..row }
}

/// A walk over the notices: those already passed, how many were due, and the
/// one for which a process is started.
pub struct OfflineWalk {
    pub rows: Seq<DeliveryRowView>,
    pub seen: nat,
    pub chosen: Option<int>,
}

/// Which notice a process is started for: of the first due ones, the first
/// that is not to wait and not blocked.
pub open spec fn offline_walk(
    s: StoreView,
    rows: Seq<DeliveryRowView>,
    cutoff: Timestamp,
    now: Timestamp,
) -> OfflineWalk
    decreases rows.len(),
{
    if rows.len() == 0 {
        OfflineWalk { rows: Seq::empty(), seen: 0, chosen: None }
    } else {
        let before = offline_walk(s, rows.drop_last(), cutoff, now);
        let row = rows.last();
        if before.chosen is Some || before.seen >= CANDIDATES || !deliveries::due(row, now) {
            OfflineWalk { rows: before.rows.push(row), ..before }
        } else {
            match offline_step(s, row.payload, cutoff, now) {
                OfflineStep::Wait => OfflineWalk {
                    rows: before.rows.push(row),
                    seen: before.seen + 1,
                    chosen: None,
                },
                OfflineStep::Block(reason) => OfflineWalk {
                    rows: before.rows.push(blocked_row(row, reason)),
                    seen: before.seen + 1,
                    chosen: None,
                },
                OfflineStep::Start => OfflineWalk {
                    rows: before.rows.push(
                        deliveries::taken_row(row, now.plus(OFFLINE_CLAIM_SECONDS as int)),
                    ),
                    seen: before.seen + 1,
                    chosen: Some(rows.len() - 1),
                },
            }
        }
    }
}

/// The number that tells the processes of one notice apart.
pub open spec fn start_nonce(now: Timestamp) -> int {
    if i64::MIN <= now.nanos <= i64::MAX {
        now.nanos as int
    } else {
        0
    }
}

pub open spec fn process_name(
    prefix: Seq<char>,
    agent_kind: Seq<char>,
    delivery_id: Seq<char>,
    now: Timestamp,
) -> Seq<char> {
    prefix + agent_kind + ":"@ + delivery_id + ":"@ + text::signed_decimal(start_nonce(now))
}

/// The process that is started for a notice.
pub open spec fn started_process(row: DeliveryRowView, now: Timestamp) -> AgentInvocationRecordView {
    let binding = row.payload.binding;
    AgentInvocationRecordView {
        invocation_id: process_name("inv:"@, binding.agent_kind, row.delivery_id, now),
        delivery_id: row.delivery_id,
        owner_instance_id: process_name("offline:"@, binding.agent_kind, row.delivery_id, now),
        payload: row.payload,
        session_file: binding.session_file,
        adapter_path: binding.adapter_path,
        project_root: binding.project_root,
        state: "starting"@,
        pid: None,
        started_at: now,
        updated_at: now,
        last_error: None,
    }
}

/// The claim of a started process on its session.
pub open spec fn started_registration(row: DeliveryRowView, now: Timestamp) -> AgentSessionRegistrationView {
    let binding = row.payload.binding;
    AgentSessionRegistrationView {
        agent_kind: binding.agent_kind,
        session_id: binding.session_id,
        owner_instance_id: started_process(row, now).owner_instance_id,
        session_file: binding.session_file,
        project_root: binding.project_root,
        current_leaf_id: binding.origin_leaf_id,
    }
}

pub open spec fn started_row(row: DeliveryRowView, now: Timestamp) -> InvocationRowView {
    InvocationRowView {
        record: started_process(row, now),
        state: InvocationState::Starting,
        pid: None,
        updated_at: now,
        last_error: None,
    }
}

/// The notice for which a process is started at `now`, as it stood before.
pub open spec fn offline_choice(s: StoreView, grace_seconds: int, now: Timestamp) -> Option<
    DeliveryRowView,
> {
    let ready = deliveries::requeued(s, now);
    match offline_walk(ready, ready.deliveries, now.plus(-grace_seconds), now).chosen {
        Some(at) => Some(ready.deliveries[at]),
        None => None,
    }
}

/// Why no process can be started although a notice was chosen.
pub open spec fn reserve_refusal(s: StoreView, grace_seconds: int, now: Timestamp) -> Option<
    Seq<char>,
> {
    match offline_choice(s, grace_seconds, now) {
        Some(row) => if s.invocation(started_process(row, now).invocation_id) is Some {
            Some("UNIQUE constraint failed: agent_invocations.invocation_id"@)
        } else {
            None
        },
        None => None,
    }
}

/// The ledger after a process was looked for.
pub open spec fn reserved(s: StoreView, grace_seconds: int, now: Timestamp) -> StoreView {
    let ready = deliveries::requeued(s, now);
    let walk = offline_walk(ready, ready.deliveries, now.plus(-grace_seconds), now);
    let walked = StoreView { deliveries: walk.rows, ..ready };
    match offline_choice(s, grace_seconds, now) {
        Some(row) => walked.with_lease(
            deliveries::lease_of(
                started_registration(row, now),
                now.plus(OFFLINE_LEASE_SECONDS as int),
            ),
        ).with_invocation(started_row(row, now)),
        None => walked,
    }
}

// ---------------------------------------------------------------------------
// Following a process
// ---------------------------------------------------------------------------

pub open spec fn running(s: StoreView, invocation_id: Seq<char>, pid: u32, now: Timestamp) -> StoreView {
    match s.invocation(invocation_id) {
        Some(row) => StoreView {
            invocations: seqs::replaced_row(
                s.invocations,
                store::by_invocation(invocation_id),
                InvocationRowView {
                    state: InvocationState::Running,
                    pid: Some(pid),
                    updated_at: now,
                    ..row
                },
            ),
            ..s
        },
        None => s,
    }
}

/// Whether the process still holds its notice and its session.
pub open spec fn still_owned(
    s: StoreView,
    invocation_id: Seq<char>,
    delivery_id: Seq<char>,
    owner: Seq<char>,
    now: Timestamp,
) -> bool {
    match s.invocation(invocation_id) {
        Some(row) => {
            let binding = row.record.payload.binding;
            &&& row.state.live()
            &&& row.record.delivery_id == delivery_id
            &&& row.record.owner_instance_id == owner
            &&& match s.delivery(delivery_id) {
                Some(notice) => notice.state == DeliveryState::Delivering,
                None => false,
            }
            &&& owner_holds(s, binding, owner, now)
        },
        None => false,
    }
}

/// Whether `owner` holds the session of the binding at `now`.
pub open spec fn owner_holds(
    s: StoreView,
    binding: ContinuationBindingView,
    owner: Seq<char>,
    now: Timestamp,
) -> bool {
    match s.lease(binding.agent_kind, binding.session_id) {
        Some(lease) => lease.owner_instance_id == owner && lease.expires_at.nanos > now.nanos,
        None => false,
    }
}

/// The name of the state of a notice that may be gone.
pub open spec fn notice_state_name(notice: Option<DeliveryRowView>) -> Seq<char> {
    match notice {
        Some(row) => row.state.name(),
        None => "missing"@,
    }
}

/// A notice that goes back to be tried again after a process lost it.
pub open spec fn lost_row(row: DeliveryRowView, at: Timestamp, message: Seq<char>) -> DeliveryRowView {
    DeliveryRowView {
        state: DeliveryState::Retrying,
        next_retry_at: Some(at),
        last_error: Some(message),
        ..row
    }
}

/// Where a process stands that no longer holds its session.
pub open spec fn orphan_state(notice: Option<DeliveryRowView>) -> InvocationState {
    match notice {
        Some(row) => match row.state {
            DeliveryState::Delivered => InvocationState::Completed,
            DeliveryState::NeedsRebind => InvocationState::Blocked,
            DeliveryState::Retrying => InvocationState::Retrying,
            DeliveryState::Delivering => InvocationState::Failed,
            DeliveryState::Pending => InvocationState::Failed,
        },
        None => InvocationState::Failed,
    }
}

pub open spec fn orphan_error(row: InvocationRowView, notice: Option<DeliveryRowView>) -> Option<
    Seq<char>,
> {
    match notice {
        Some(held) => match held.state {
            DeliveryState::Delivering => Some(
                "offline "@ + row.record.payload.binding.agent_kind
                    + " invocation ownership expired after daemon/process interruption (prior invocation state="@
                    + row.state.name() + ")"@,
            ),
            DeliveryState::Pending => Some(
                "orphaned offline invocation no longer owns its pending Delivery"@,
            ),
            _ => None,
        },
        None => Some("orphaned offline invocation has Delivery state missing"@),
    }
}

/// Whether a process may still act but has lost its session.
pub open spec fn orphaned(s: StoreView, row: InvocationRowView, now: Timestamp) -> bool {
    row.state.live() && !owner_holds(
        s,
        row.record.payload.binding,
        row.record.owner_instance_id,
        now,
    )
}

/// The ledger after the process in place `at` was looked at: an orphan is
/// closed, its session freed and its notice, where it held one, given back.
pub open spec fn reconciled_one(s: StoreView, at: int, delay: int, now: Timestamp) -> StoreView {
    let row = s.invocations[at];
    let binding = row.record.payload.binding;
    let notice = s.delivery(row.record.delivery_id);
    if !orphaned(s, row, now) {
        s
    } else {
        let given_back = match (notice, orphan_error(row, notice)) {
            (Some(held), Some(message)) => if held.state == DeliveryState::Delivering {
                s.with_delivery(lost_row(held, now.plus(delay), message))
            } else {
                s
            },
            _ => s,
        };
        StoreView {
            invocations: given_back.invocations.update(
                at,
                InvocationRowView {
                    state: orphan_state(notice),
                    updated_at: now,
                    last_error: orphan_error(row, notice),
                    ..row
                },
            ),
            ..given_back
        }.without_lease(
            binding.agent_kind,
            binding.session_id,
            row.record.owner_instance_id,
        ).with_event(
            row.record.payload.run_id,
            now,
            "agent_invocation_reconciled"@,
            EventPayloadView::InvocationReconciled {
                invocation_id: row.record.invocation_id,
                delivery_id: row.record.delivery_id,
                prior_invocation_state: row.state.name(),
                delivery_state: notice_state_name(notice),
                reconciled_invocation_state: orphan_state(notice).name(),
                error: orphan_error(row, notice),
            },
        )
    }
}

/// The ledger after the first `count` processes were looked at.
pub open spec fn reconciled(s: StoreView, count: nat, delay: int, now: Timestamp) -> StoreView
    decreases count,
{
    if count == 0 {
        s
    } else {
        reconciled_one(
            reconciled(s, (count - 1) as nat, delay, now),
            count - 1,
            delay,
            now,
        )
    }
}

/// How many of the first `count` processes were orphans.
pub open spec fn orphan_count(s: StoreView, count: nat, delay: int, now: Timestamp) -> nat
    decreases count,
{
    if count == 0 {
        0
    } else {
        let before = reconciled(s, (count - 1) as nat, delay, now);
        orphan_count(s, (count - 1) as nat, delay, now) + (if orphaned(
            before,
            before.invocations[count - 1],
            now,
        ) {
            1nat
        } else {
            0nat
        })
    }
}

/// Where a process stands after it has exited.
pub open spec fn exit_state(notice: Option<DeliveryRowView>) -> InvocationState {
    match notice {
        Some(row) => match row.state {
            DeliveryState::Delivered => InvocationState::Completed,
            DeliveryState::NeedsRebind => InvocationState::Blocked,
            DeliveryState::Retrying => InvocationState::Retrying,
            DeliveryState::Delivering => InvocationState::Failed,
            DeliveryState::Pending => InvocationState::Pending,
        },
        None => InvocationState::Missing,
    }
}

/// What an exit without an acknowledgement is put down to.
pub open spec fn exit_message(
    agent_kind: Seq<char>,
    exit_code: Option<i32>,
    process_error: Option<Seq<char>>,
) -> Seq<char> {
    match process_error {
        Some(error) => error,
        None => "offline "@ + agent_kind + " exited before durable delivery ack (exit="@
            + text::shown_signed(exit_code) + ")"@,
    }
}

pub open spec fn exit_error(
    row: InvocationRowView,
    notice: Option<DeliveryRowView>,
    exit_code: Option<i32>,
    process_error: Option<Seq<char>>,
) -> Option<Seq<char>> {
    match notice {
        Some(held) => match held.state {
            DeliveryState::Delivered => None,
            DeliveryState::Delivering => Some(
                exit_message(
                    row.record.payload.binding.agent_kind,
                    exit_code,
                    process_error,
                ),
            ),
            _ => process_error,
        },
        None => process_error,
    }
}

/// The ledger after a process has exited: its session is free, and a notice
/// that it had not acknowledged is tried again.
pub open spec fn exited(
    s: StoreView,
    invocation_id: Seq<char>,
    exit_code: Option<i32>,
    process_error: Option<Seq<char>>,
    now: Timestamp,
) -> StoreView {
    match s.invocation(invocation_id) {
        None => s,
        Some(row) => {
            let binding = row.record.payload.binding;
            let notice = s.delivery(row.record.delivery_id);
            let given_back = match notice {
                Some(held) => if held.state == DeliveryState::Delivering {
                    s.with_delivery(
                        lost_row(
                            held,
                            now.plus(30),
                            exit_message(binding.agent_kind, exit_code, process_error),
                        ),
                    )
                } else {
                    s
                },
                None => s,
            };
            given_back.with_invocation(
                InvocationRowView {
                    state: exit_state(notice),
                    updated_at: now,
                    last_error: exit_error(row, notice, exit_code, process_error),
                    ..row
                },
            ).without_lease(
                binding.agent_kind,
                binding.session_id,
                row.record.owner_instance_id,
            ).with_event(
                row.record.payload.run_id,
                now,
                "agent_invocation_exit"@,
                EventPayloadView::InvocationExit {
                    invocation_id,
                    delivery_id: row.record.delivery_id,
                    state: exit_state(notice).name(),
                    exit_code,
                    error: process_error,
                },
            )
        },
    }
}

// ---------------------------------------------------------------------------
// The requests
// ---------------------------------------------------------------------------

/// What is to be done about a due notice, with the reason to block it.
enum StepChoice {
    Wait,
    Block(String),
    Start,
}

fn name_process(prefix: &str, agent_kind: &str, delivery_id: &str, now: Timestamp) -> (name: String)
    ensures
        name@ == process_name(prefix@, agent_kind@, delivery_id@, now),
{
    let nonce: i64 = if i64::MIN as i128 <= now.nanos && now.nanos <= i64::MAX as i128 {
        now.nanos as i64
    } else {
        0
    };
    let mut name = prefix.to_owned();
    name.append(agent_kind);
    name.append(":");
    name.append(delivery_id);
    name.append(":");
    name.append(signed_decimal_text(nonce).as_str());
    name
}

impl RunStore {
    fn choose_step(&self, row: &DeliveryRow, cutoff: Timestamp, now: Timestamp) -> (step:
        StepChoice)
        ensures
            match step {
                StepChoice::Wait => offline_step(self@, row@.payload, cutoff, now) is Wait,
                StepChoice::Block(reason) => offline_step(self@, row@.payload, cutoff, now)
                    == OfflineStep::Block(reason@),
                StepChoice::Start => offline_step(self@, row@.payload, cutoff, now) is Start,
            },
    {
        let binding = &row.payload.binding;
        let kind = binding.agent_kind.as_str();
        if row.payload.created_at.nanos > cutoff.nanos {
            return StepChoice::Wait;
        }
        let is_pi = same(kind, "pi");
        if !is_pi && !same(kind, "codex") {
            let mut reason = "offline continuation does not support agent_kind=".to_owned();
            reason.append(kind);
            return StepChoice::Block(reason);
        }
        if binding.session_file.is_none() {
            let mut reason = "offline ".to_owned();
            reason.append(kind);
            reason.append(" continuation requires a durable session/rollout file");
            return StepChoice::Block(reason);
        }
        if is_pi && binding.adapter_path.is_none() {
            return StepChoice::Block(
                "offline Pi continuation requires the pi-runs adapter path; rebind from a current Pi instance".to_owned(),
            );
        }
        let at = self.find_lease(kind, binding.session_id.as_str());
        if at < self.leases.len() && self.leases[at].expires_at.nanos > now.nanos {
            return StepChoice::Wait;
        }
        StepChoice::Start
    }

    /// Starts a process for the first notice that has waited for `grace_seconds`
    /// and that no instance of its agent is there to take.
    pub fn reserve_offline_invocation(&mut self, grace_seconds: u64, now: Timestamp) -> (result:
        Result<Option<AgentInvocationRecord>, String>)
        requires
            now.clocked(),
            now.plus(-(grace_seconds as int)).dated(),
            grace_seconds <= i64::MAX,
            deliveries::countable(old(self)@),
        ensures
            match result {
                Ok(started) => {
                    &&& reserve_refusal(old(self)@, grace_seconds as int, now) is None
                    &&& started.deep_view() == (match offline_choice(
                        old(self)@,
                        grace_seconds as int,
                        now,
                    ) {
                        Some(row) => Some(started_process(row, now)),
                        None => None,
                    })
                    &&& final(self)@ == reserved(old(self)@, grace_seconds as int, now)
                },
                Err(reason) => {
                    &&& reserve_refusal(old(self)@, grace_seconds as int, now) == Some(reason@)
                    &&& final(self)@ == old(self)@
                },
            },
            old(self)@.sound() ==> final(self)@.sound(),
    {
        let cutoff = now.plus_seconds(-(grace_seconds as i64));
        let saved = copy_rows(&self.deliveries);
        self.requeue_expired_delivery_claims(now);
        let ghost ready = self@;
        let ghost rows = self@.deliveries;
        proof {
            assert forall|j: int| 0 <= j < rows.len() implies (#[trigger] rows[j]).attempts
                < u32::MAX by {
                assert(rows[j] == deliveries::requeued_row(old(self)@.deliveries[j], now));
            }
        }
        let mut seen: usize = 0;
        let mut chosen: Option<DeliveryRow> = None;
        let mut i: usize = 0;
        assert(rows.take(0) =~= Seq::<DeliveryRowView>::empty());
        while i < self.deliveries.len()
            invariant
                i <= rows.len(),
                seen <= i,
                now.clocked(),
                rows == ready.deliveries,
                self.deliveries@.len() == rows.len(),
                self@ == (StoreView { deliveries: self@.deliveries, ..ready }),
                forall|j: int| 0 <= j < rows.len() ==> (#[trigger] rows[j]).attempts < u32::MAX,
                ({
                    let walk = offline_walk(ready, rows.take(i as int), cutoff, now);
                    &&& self@.deliveries =~= walk.rows + rows.skip(i as int)
                    &&& walk.rows.len() == i
                    &&& seen == walk.seen
                    &&& match walk.chosen {
                        Some(at) => 0 <= at < i && chosen.deep_view() == Some(rows[at]),
                        None => chosen is None,
                    }
                }),
            decreases rows.len() - i,
        {
            let ghost before = *self;
            proof {
                let now_rows = rows.take(i + 1);
                assert(now_rows.drop_last() =~= rows.take(i as int));
                assert(now_rows.last() == rows[i as int]);
                assert(self@.deliveries[i as int] == rows[i as int]);
            }
            let row = &self.deliveries[i];
            let open = row.state == DeliveryState::Pending || row.state == DeliveryState::Retrying;
            let timely = match row.next_retry_at {
                Some(at) => at.nanos <= now.nanos,
                None => true,
            };
            if chosen.is_none() && seen < CANDIDATES && open && timely {
                let step = self.choose_step(row, cutoff, now);
                assert(offline_step(self@, rows[i as int].payload, cutoff, now) == offline_step(
                    ready,
                    rows[i as int].payload,
                    cutoff,
                    now,
                ));
                match step {
                    StepChoice::Wait => {},
                    StepChoice::Block(reason) => {
                        let mut changed = row.clone();
                        changed.state = DeliveryState::NeedsRebind;
                        changed.last_error = Some(reason);
                        assert(changed@ == blocked_row(rows[i as int], reason@));
                        self.deliveries.set(i, changed);
                        proof {
                            seqs::lemma_deep_update(
                                before.deliveries,
                                self.deliveries,
                                i as int,
                                changed,
                            );
                            assert(self@ =~= StoreView { deliveries: self@.deliveries, ..ready });
                        }
                    },
                    StepChoice::Start => {
                        let kept = row.clone();
                        let mut taken = row.clone();
                        taken.state = DeliveryState::Delivering;
                        taken.attempts = taken.attempts + 1;
                        taken.next_retry_at = Some(now.plus_seconds(OFFLINE_CLAIM_SECONDS));
                        taken.last_error = None;
                        assert(taken@ == deliveries::taken_row(
                            rows[i as int],
                            now.plus(OFFLINE_CLAIM_SECONDS as int),
                        ));
                        chosen = Some(kept);
                        self.deliveries.set(i, taken);
                        proof {
                            seqs::lemma_deep_update(
                                before.deliveries,
                                self.deliveries,
                                i as int,
                                taken,
                            );
                            assert(self@ =~= StoreView { deliveries: self@.deliveries, ..ready });
                        }
                    },
                }
                seen = seen + 1;
            }
            proof {
                let after = offline_walk(ready, rows.take(i + 1), cutoff, now);
                assert(after.rows + rows.skip(i + 1) =~= self@.deliveries);
            }
            i += 1;
        }
        proof {
            assert(rows.take(i as int) =~= rows);
            let walk = offline_walk(ready, rows, cutoff, now);
            assert(walk.rows + rows.skip(i as int) =~= walk.rows);
            lemma_offline_unique(ready, rows, cutoff, now);
            assert(self@ =~= StoreView { deliveries: walk.rows, ..ready });
        }
        match chosen {
            None => Ok(None),
            Some(row) => {
                let binding = &row.payload.binding;
                let kind = binding.agent_kind.as_str();
                let owner = name_process("offline:", kind, row.delivery_id.as_str(), now);
                let invocation_id = name_process("inv:", kind, row.delivery_id.as_str(), now);
                if self.find_invocation(invocation_id.as_str()) < self.invocations.len() {
                    self.deliveries = saved;
                    assert(self@ =~= old(self)@);
                    return Err(
                        "UNIQUE constraint failed: agent_invocations.invocation_id".to_owned(),
                    );
                }
                let registration = AgentSessionRegistration {
                    agent_kind: binding.agent_kind.clone(),
                    session_id: binding.session_id.clone(),
                    owner_instance_id: owner.clone(),
                    session_file: clone_text(&binding.session_file),
                    project_root: binding.project_root.clone(),
                    current_leaf_id: clone_text(&binding.origin_leaf_id),
                };
                self.put_lease(
                    LeaseRow {
                        agent_kind: binding.agent_kind.clone(),
                        session_id: binding.session_id.clone(),
                        owner_instance_id: owner.clone(),
                        expires_at: now.plus_seconds(OFFLINE_LEASE_SECONDS),
                        registration,
                    },
                );
                let record = AgentInvocationRecord {
                    invocation_id,
                    delivery_id: row.delivery_id.clone(),
                    owner_instance_id: owner,
                    payload: row.payload.clone(),
                    session_file: clone_text(&binding.session_file),
                    adapter_path: clone_text(&binding.adapter_path),
                    project_root: binding.project_root.clone(),
                    state: "starting".to_owned(),
                    pid: None,
                    started_at: now,
                    updated_at: now,
                    last_error: None,
                };
                let started = record.clone();
                self.put_invocation(
                    InvocationRow {
                        record,
                        state: InvocationState::Starting,
                        pid: None,
                        updated_at: now,
                        last_error: None,
                    },
                );
                Ok(Some(started))
            },
        }
    }

    /// Notes that the process runs.
    pub fn set_agent_invocation_pid(&mut self, invocation_id: &str, pid: u32, now: Timestamp)
        ensures
            final(self)@ == running(old(self)@, invocation_id@, pid, now),
            old(self)@.sound() ==> final(self)@.sound(),
    {
        let at = self.find_invocation(invocation_id);
        if at < self.invocations.len() {
            let mut row = self.invocations[at].clone();
            row.state = InvocationState::Running;
            row.pid = Some(pid);
            row.updated_at = now;
            self.put_invocation(row);
        }
    }

    /// Whether the process still holds its notice and its session.
    pub fn offline_invocation_is_owned(
        &self,
        invocation_id: &str,
        delivery_id: &str,
        owner_instance_id: &str,
        now: Timestamp,
    ) -> (owned: bool)
        ensures
            owned == still_owned(
                self@,
                invocation_id@,
                delivery_id@,
                owner_instance_id@,
                now,
            ),
    {
        let at = self.find_invocation(invocation_id);
        if at >= self.invocations.len() {
            return false;
        }
        let row = &self.invocations[at];
        let live = row.state == InvocationState::Starting || row.state == InvocationState::Running;
        if !live || !same(row.record.delivery_id.as_str(), delivery_id) || !same(
            row.record.owner_instance_id.as_str(),
            owner_instance_id,
        ) {
            return false;
        }
        let notice = self.find_delivery(delivery_id);
        if notice >= self.deliveries.len() || self.deliveries[notice].state
            != DeliveryState::Delivering {
            return false;
        }
        self.holds_session(row, now)
    }

    /// Whether the owner of a process holds its session.
    fn holds_session(&self, row: &InvocationRow, now: Timestamp) -> (holds: bool)
        ensures
            holds == owner_holds(
                self@,
                row@.record.payload.binding,
                row@.record.owner_instance_id,
                now,
            ),
    {
        let binding = &row.record.payload.binding;
        let at = self.find_lease(binding.agent_kind.as_str(), binding.session_id.as_str());
        if at >= self.leases.len() {
            return false;
        }
        let lease = &self.leases[at];
        lease.owner_instance_id == row.record.owner_instance_id && lease.expires_at.nanos
            > now.nanos
    }

    fn reconcile_one(&mut self, at: usize, retry_delay_seconds: i64, now: Timestamp) -> (orphan:
        bool)
        requires
            at < old(self).invocations@.len(),
            now.clocked(),
        ensures
            orphan == orphaned(old(self)@, old(self)@.invocations[at as int], now),
            final(self)@ == reconciled_one(
                old(self)@,
                at as int,
                retry_delay_seconds as int,
                now,
            ),
            final(self).invocations@.len() == old(self).invocations@.len(),
            old(self)@.sound() ==> final(self)@.sound(),
    {
        let row = self.invocations[at].clone();
        let live = row.state == InvocationState::Starting || row.state == InvocationState::Running;
        if !live || self.holds_session(&row, now) {
            return false;
        }
        let notice_at = self.find_delivery(row.record.delivery_id.as_str());
        let mut error: Option<String> = None;
        let mut state = InvocationState::Failed;
        let mut notice_name = "missing".to_owned();
        if notice_at < self.deliveries.len() {
            let mut held = self.deliveries[notice_at].clone();
            notice_name = held.state.as_text();
            match held.state {
                DeliveryState::Delivered => state = InvocationState::Completed,
                DeliveryState::NeedsRebind => state = InvocationState::Blocked,
                DeliveryState::Retrying => state = InvocationState::Retrying,
                DeliveryState::Delivering => {
                    let mut message = "offline ".to_owned();
                    message.append(row.record.payload.binding.agent_kind.as_str());
                    message.append(
                        " invocation ownership expired after daemon/process interruption (prior invocation state=",
                    );
                    message.append(row.state.as_text().as_str());
                    message.append(")");
                    error = Some(message.clone());
                    held.state = DeliveryState::Retrying;
                    held.next_retry_at = Some(now.plus_seconds(retry_delay_seconds));
                    held.last_error = Some(message);
                    self.put_delivery(held);
                },
                DeliveryState::Pending => {
                    error = Some(
                        "orphaned offline invocation no longer owns its pending Delivery".to_owned(),
                    );
                },
            }
        } else {
            error = Some("orphaned offline invocation has Delivery state missing".to_owned());
        }
        let ghost given_back = *self;
        assert(self@.invocations == old(self)@.invocations);
        assert(self@.invocations.len() == self.invocations@.len());
        let mut closed = row.clone();
        closed.state = state;
        closed.updated_at = now;
        closed.last_error = clone_text(&error);
        self.invocations.set(at, closed);
        proof {
            seqs::lemma_deep_update(given_back.invocations, self.invocations, at as int, closed);
            let notice = old(self)@.delivery(row@.record.delivery_id);
            assert(closed@ == (InvocationRowView {
                state: orphan_state(notice),
                updated_at: now,
                last_error: orphan_error(row@, notice),
                ..row@
            }));
            assert(self@ =~= StoreView {
                invocations: given_back@.invocations.update(at as int, closed@),
                ..given_back@
            });
            if old(self)@.sound() {
                lemma_same_key_update(given_back@.invocations, at as int, closed@);
            }
        }
        let binding = &row.record.payload.binding;
        let _ = self.drop_lease(
            binding.agent_kind.as_str(),
            binding.session_id.as_str(),
            row.record.owner_instance_id.as_str(),
        );
        self.add_event(
            row.record.payload.run_id.clone(),
            now,
            "agent_invocation_reconciled".to_owned(),
            EventPayload::InvocationReconciled {
                invocation_id: row.record.invocation_id.clone(),
                delivery_id: row.record.delivery_id.clone(),
                prior_invocation_state: row.state.as_text(),
                delivery_state: notice_name,
                reconciled_invocation_state: state.as_text(),
                error,
            },
        );
        assert(self@.invocations.len() == self.invocations@.len());
        true
    }

    /// Closes the processes that lost their sessions, and gives their notices
    /// back to be tried again after `retry_delay_seconds`.
    pub fn reconcile_orphaned_agent_invocations(
        &mut self,
        retry_delay_seconds: u64,
        now: Timestamp,
    ) -> (count: u32)
        requires
            now.clocked(),
            retry_delay_seconds <= i64::MAX,
            now.plus(retry_delay_seconds as int).dated(),
            old(self)@.invocations.len() <= u32::MAX,
        ensures
            count == orphan_count(
                old(self)@,
                old(self)@.invocations.len(),
                retry_delay_seconds as int,
                now,
            ),
            final(self)@ == reconciled(
                old(self)@,
                old(self)@.invocations.len(),
                retry_delay_seconds as int,
                now,
            ),
            old(self)@.sound() ==> final(self)@.sound(),
    {
        let ghost start = self@;
        let delay: i64 = retry_delay_seconds as i64;
        let mut count: u32 = 0;
        let mut i: usize = 0;
        while i < self.invocations.len()
            invariant
                now.clocked(),
                i <= start.invocations.len(),
                self.invocations@.len() == start.invocations.len(),
                start.invocations.len() <= u32::MAX,
                count <= i,
                count == orphan_count(start, i as nat, delay as int, now),
                self@ == reconciled(start, i as nat, delay as int, now),
                start.sound() ==> self@.sound(),
            decreases start.invocations.len() - i,
        {
            if self.reconcile_one(i, delay, now) {
                count = count + 1;
            }
            i += 1;
        }
        count
    }

    /// Notes that a process has exited.
    pub fn finish_agent_invocation_process(
        &mut self,
        invocation_id: &str,
        exit_code: Option<i32>,
        process_error: &Option<String>,
        now: Timestamp,
    )
        requires
            now.clocked(),
        ensures
            final(self)@ == exited(
                old(self)@,
                invocation_id@,
                exit_code,
                text::text_opt(*process_error),
                now,
            ),
            old(self)@.sound() ==> final(self)@.sound(),
    {
        let at = self.find_invocation(invocation_id);
        if at >= self.invocations.len() {
            return;
        }
        let row = self.invocations[at].clone();
        let binding = &row.record.payload.binding;
        let notice_at = self.find_delivery(row.record.delivery_id.as_str());
        let mut error = clone_text(process_error);
        let mut state = InvocationState::Missing;
        if notice_at < self.deliveries.len() {
            let mut held = self.deliveries[notice_at].clone();
            match held.state {
                DeliveryState::Delivered => {
                    state = InvocationState::Completed;
                    error = None;
                },
                DeliveryState::NeedsRebind => state = InvocationState::Blocked,
                DeliveryState::Retrying => state = InvocationState::Retrying,
                DeliveryState::Delivering => {
                    let message = match process_error {
                        Some(error) => error.clone(),
                        None => {
                            let mut message = "offline ".to_owned();
                            message.append(binding.agent_kind.as_str());
                            message.append(" exited before durable delivery ack (exit=");
                            message.append(show_signed(exit_code).as_str());
                            message.append(")");
                            message
                        },
                    };
                    state = InvocationState::Failed;
                    error = Some(message.clone());
                    held.state = DeliveryState::Retrying;
                    held.next_retry_at = Some(now.plus_seconds(30));
                    held.last_error = Some(message);
                    self.put_delivery(held);
                },
                DeliveryState::Pending => state = InvocationState::Pending,
            }
        }
        let mut closed = row.clone();
        closed.state = state;
        closed.updated_at = now;
        closed.last_error = error;
        self.put_invocation(closed);
        let _ = self.drop_lease(
            binding.agent_kind.as_str(),
            binding.session_id.as_str(),
            row.record.owner_instance_id.as_str(),
        );
        self.add_event(
            row.record.payload.run_id.clone(),
            now,
            "agent_invocation_exit".to_owned(),
            EventPayload::InvocationExit {
                invocation_id: invocation_id.to_owned(),
                delivery_id: row.record.delivery_id.clone(),
                state: state.as_text(),
                exit_code,
                error: clone_text(process_error),
            },
        );
    }
}

// ---------------------------------------------------------------------------
// Keys stay unique
// ---------------------------------------------------------------------------

/// Looking for a notice changes no name and no number of notices.
pub proof fn lemma_offline_rows(
    s: StoreView,
    rows: Seq<DeliveryRowView>,
    cutoff: Timestamp,
    now: Timestamp,
)
    ensures
        offline_walk(s, rows, cutoff, now).rows.len() == rows.len(),
        forall|i: int|
            0 <= i < rows.len() ==> (#[trigger] offline_walk(
                s,
                rows,
                cutoff,
                now,
            ).rows[i]).delivery_id == rows[i].delivery_id,
    decreases rows.len(),
{
    if rows.len() > 0 {
        lemma_offline_rows(s, rows.drop_last(), cutoff, now);
    }
}

proof fn lemma_offline_unique(
    s: StoreView,
    rows: Seq<DeliveryRowView>,
    cutoff: Timestamp,
    now: Timestamp,
)
    ensures
        seqs::unique(rows, store::delivery_key()) ==> seqs::unique(
            offline_walk(s, rows, cutoff, now).rows,
            store::delivery_key(),
        ),
{
    lemma_offline_rows(s, rows, cutoff, now);
}

proof fn lemma_same_key_update(rows: Seq<InvocationRowView>, at: int, row: InvocationRowView)
    requires
        0 <= at < rows.len(),
        row.record == rows[at].record,
    ensures
        seqs::unique(rows, store::invocation_key()) ==> seqs::unique(
            rows.update(at, row),
            store::invocation_key(),
        ),
{
}

} // verus!
