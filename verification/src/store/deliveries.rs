//! Who may act for an agent session, and how the notice of an ended run reaches
//! it exactly once.
use crate::seqs;
use crate::store;
use crate::store::{
    BindingRow, BindingRowView, DeliveryRow, DeliveryRowView, DeliveryState, EventPayload,
    EventPayloadView, LeaseRow, LeaseRowView, RunStore, StoreView,
};
use crate::text;
use crate::text::{decimal_text, same};
use crate::time::Timestamp;
use crate::types::{
    clone_text, AgentSessionRegistration, AgentSessionRegistrationView, ClaimedDelivery,
    ClaimedDeliveryView, ContinuationBinding, ContinuationBindingView, DeliveryPayload,
    DeliveryPayloadView, DeliveryStatusSummary, RunRecord, RunRecordView,
};
use vstd::prelude::*;
use vstd::string::*;

verus! {

/// How many open notices a walk looks at.
pub const CANDIDATES: usize = 128;

/// The largest number of notices that one claim takes.
pub const MAX_CLAIM: usize = 16;

// ---------------------------------------------------------------------------
// Binding
// ---------------------------------------------------------------------------

/// Holds of the notices of a run that are on their way.
pub open spec fn in_flight(run_id: Seq<char>) -> spec_fn(DeliveryRowView) -> bool {
    |row: DeliveryRowView| row.run_id == run_id && row.state == DeliveryState::Delivering
}

/// Why a run cannot be bound anew.
pub open spec fn rebind_refusal(s: StoreView, run_id: Seq<char>) -> Option<Seq<char>> {
    if s.run(run_id) is None {
        Some("unknown run "@ + run_id)
    } else if seqs::present(s.deliveries, in_flight(run_id)) {
        Some(
            "cannot rebind run "@ + run_id + " while a continuation Delivery is in flight"@,
        )
    } else {
        None
    }
}

/// A notice after its run was bound anew: an open one carries the new binding,
/// and one that waited for a binding is open again.
pub open spec fn rebound_row(
    row: DeliveryRowView,
    run_id: Seq<char>,
    binding: ContinuationBindingView,
) -> DeliveryRowView {
    let payload = DeliveryPayloadView { binding, ..row.payload };
    if row.run_id != run_id {
        row
    } else {
        match row.state {
            DeliveryState::NeedsRebind => DeliveryRowView {
                payload,
                state: DeliveryState::Pending,
                next_retry_at: None,
                last_error: None,
                ..row
            },
            DeliveryState::Pending | DeliveryState::Retrying => DeliveryRowView { payload, ..row },
            _ => row,
        }
    }
}

pub open spec fn rebound_rows(
    rows: Seq<DeliveryRowView>,
    run_id: Seq<char>,
    binding: ContinuationBindingView,
) -> Seq<DeliveryRowView> {
    Seq::new(rows.len(), |i: int| rebound_row(rows[i], run_id, binding))
}

/// How many notices of the run wait for a binding.
pub open spec fn blocked_count(rows: Seq<DeliveryRowView>, run_id: Seq<char>) -> nat
    decreases rows.len(),
{
    if rows.len() == 0 {
        0
    } else {
        blocked_count(rows.drop_last(), run_id) + (if rows.last().run_id == run_id
            && rows.last().state == DeliveryState::NeedsRebind {
            1nat
        } else {
            0nat
        })
    }
}

pub proof fn lemma_blocked_bound(rows: Seq<DeliveryRowView>, run_id: Seq<char>)
    ensures
        blocked_count(rows, run_id) <= rows.len(),
    decreases rows.len(),
{
    if rows.len() > 0 {
        lemma_blocked_bound(rows.drop_last(), run_id);
    }
}

/// The ledger with the run bound to another session.
pub open spec fn rebound(
    s: StoreView,
    run_id: Seq<char>,
    binding: ContinuationBindingView,
    now: Timestamp,
) -> StoreView {
    let bound = s.with_binding(BindingRowView { run_id, binding });
    StoreView { deliveries: rebound_rows(s.deliveries, run_id, binding), ..bound }.with_event(
        run_id,
        now,
        "continuation_rebound"@,
        EventPayloadView::Rebound {
            session_id: binding.session_id,
            session_file: binding.session_file,
            origin_leaf_id: binding.origin_leaf_id,
            reset_deliveries: blocked_count(s.deliveries, run_id) as u32,
        },
    )
}

// ---------------------------------------------------------------------------
// Leases
// ---------------------------------------------------------------------------

/// For how many seconds a registration holds.
pub open spec fn lease_seconds(ttl_seconds: u64) -> int {
    if ttl_seconds < 5 {
        5
    } else if ttl_seconds > 300 {
        300
    } else {
        ttl_seconds as int
    }
}

/// Why a session cannot be taken: another instance holds it at `now`.
pub open spec fn lease_conflict(
    s: StoreView,
    registration: AgentSessionRegistrationView,
    now: Timestamp,
) -> Option<Seq<char>> {
    match s.lease(registration.agent_kind, registration.session_id) {
        Some(lease) => if lease.owner_instance_id != registration.owner_instance_id
            && lease.expires_at.nanos > now.nanos {
            Some(
                "agent session "@ + registration.agent_kind + ":"@ + registration.session_id
                    + " is already leased by another live instance until "@
                    + lease.expires_at.rfc3339_view(),
            )
        } else {
            None
        },
        None => None,
    }
}

pub open spec fn lease_of(
    registration: AgentSessionRegistrationView,
    expires_at: Timestamp,
) -> LeaseRowView {
    LeaseRowView {
        agent_kind: registration.agent_kind,
        session_id: registration.session_id,
        owner_instance_id: registration.owner_instance_id,
        expires_at,
        registration,
    }
}

/// Why an instance may not act for a session at `now`.
pub open spec fn lease_refusal(
    s: StoreView,
    agent_kind: Seq<char>,
    session_id: Seq<char>,
    owner: Seq<char>,
    now: Timestamp,
) -> Option<Seq<char>> {
    match s.lease(agent_kind, session_id) {
        None => Some("agent session has no live lease"@),
        Some(lease) => if lease.owner_instance_id != owner {
            Some("agent session lease is owned by another instance"@)
        } else if lease.expires_at.nanos <= now.nanos {
            Some("agent session lease expired"@)
        } else {
            None
        },
    }
}

// ---------------------------------------------------------------------------
// Notices
// ---------------------------------------------------------------------------

/// The name of the notice that an attempt of a run has ended.
pub open spec fn terminal_delivery_id(run_id: Seq<char>, attempt_no: u32) -> Seq<char> {
    run_id + ":a"@ + text::decimal(attempt_no as nat) + ":terminal"@
}

/// The attempt that a run's end is told of.
pub open spec fn ended_attempt(run: RunRecordView) -> u32 {
    match run.attempt_no {
        Some(number) => number,
        None => 1,
    }
}

/// The notice that the run has ended, for the session it is bound to.
pub open spec fn terminal_payload(
    run: RunRecordView,
    binding: ContinuationBindingView,
    now: Timestamp,
) -> DeliveryPayloadView {
    DeliveryPayloadView {
        delivery_id: terminal_delivery_id(run.run_id, ended_attempt(run)),
        run_id: run.run_id,
        attempt_no: ended_attempt(run),
        status: run.status,
        job_id: run.job_id,
        workspace: match run.workspace {
            Some(workspace) => workspace,
            None => binding.workspace,
        },
        binding,
        created_at: now,
    }
}

/// The name of the notice that the run is owed, if it is owed one.
pub open spec fn owed_delivery(s: StoreView, run: RunRecordView) -> Option<Seq<char>> {
    if run.status.terminal() && s.binding(run.run_id) is Some {
        Some(terminal_delivery_id(run.run_id, ended_attempt(run)))
    } else {
        None
    }
}

/// The ledger in which an ended and bound run has its notice.
pub open spec fn notified(s: StoreView, run: RunRecordView, now: Timestamp) -> StoreView {
    match (owed_delivery(s, run), s.binding(run.run_id)) {
        (Some(delivery_id), Some(binding)) => if s.delivery(delivery_id) is Some {
            s
        } else {
            s.with_delivery(
                DeliveryRowView {
                    delivery_id,
                    run_id: run.run_id,
                    state: DeliveryState::Pending,
                    attempts: 0,
                    next_retry_at: None,
                    last_error: None,
                    payload: terminal_payload(run, binding, now),
                },
            ).with_event(
                run.run_id,
                now,
                "continuation_pending"@,
                EventPayloadView::NoticePending {
                    delivery_id,
                    attempt_no: ended_attempt(run),
                    session_id: binding.session_id,
                },
            )
        },
        _ => s,
    }
}

/// A claim that has run out gives its notice back.
pub open spec fn requeued_row(row: DeliveryRowView, now: Timestamp) -> DeliveryRowView {
    match row.next_retry_at {
        Some(until) => if row.state == DeliveryState::Delivering && until.nanos <= now.nanos {
            DeliveryRowView {
                state: DeliveryState::Pending,
                next_retry_at: None,
                last_error: match row.last_error {
                    Some(error) => Some(error),
                    None => Some("delivery claim expired before durable acknowledgement"@),
                },
                ..row
            }
        } else {
            row
        },
        None => row,
    }
}

pub open spec fn requeued_rows(rows: Seq<DeliveryRowView>, now: Timestamp) -> Seq<
    DeliveryRowView,
> {
    Seq::new(rows.len(), |i: int| requeued_row(rows[i], now))
}

pub open spec fn requeued(s: StoreView, now: Timestamp) -> StoreView {
    StoreView { deliveries: requeued_rows(s.deliveries, now), ..s }
}

/// Whether a notice is open and its time has come.
pub open spec fn due(row: DeliveryRowView, now: Timestamp) -> bool {
    row.state.open() && (match row.next_retry_at {
        Some(at) => at.nanos <= now.nanos,
        None => true,
    })
}

/// Whether a notice is for the given session.
pub open spec fn addressed(
    row: DeliveryRowView,
    agent_kind: Seq<char>,
    session_id: Seq<char>,
) -> bool {
    row.payload.binding.agent_kind == agent_kind && row.payload.binding.session_id == session_id
}

/// A notice that has been handed out until `until`.
pub open spec fn taken_row(row: DeliveryRowView, until: Timestamp) -> DeliveryRowView {
    DeliveryRowView {
        state: DeliveryState::Delivering,
        attempts: (row.attempts + 1) as u32,
        next_retry_at: Some(until),
        last_error: None,
        ..row
    }
}

pub open spec fn claim_of(row: DeliveryRowView) -> ClaimedDeliveryView {
    ClaimedDeliveryView {
        delivery_id: row.delivery_id,
        attempts: (row.attempts + 1) as u32,
        payload: row.payload,
    }
}

/// A walk over the notices: those already passed, those taken, and how many
/// were due.
pub struct ClaimWalk {
    pub rows: Seq<DeliveryRowView>,
    pub taken: Seq<ClaimedDeliveryView>,
    pub seen: nat,
}

/// Which of the notices a session takes: of the first due ones, up to `limit`
/// that are addressed to it.
pub open spec fn claim_walk(
    rows: Seq<DeliveryRowView>,
    agent_kind: Seq<char>,
    session_id: Seq<char>,
    limit: nat,
    now: Timestamp,
) -> ClaimWalk
    decreases rows.len(),
{
    if rows.len() == 0 {
        ClaimWalk { rows: Seq::empty(), taken: Seq::empty(), seen: 0 }
    } else {
        let before = claim_walk(rows.drop_last(), agent_kind, session_id, limit, now);
        let row = rows.last();
        if before.seen >= CANDIDATES || !due(row, now) {
            ClaimWalk { rows: before.rows.push(row), ..before }
        } else if before.taken.len() < limit && addressed(row, agent_kind, session_id) {
            ClaimWalk {
                rows: before.rows.push(taken_row(row, now.plus(60))),
                taken: before.taken.push(claim_of(row)),
                seen: before.seen + 1,
            }
        } else {
            ClaimWalk { rows: before.rows.push(row), seen: before.seen + 1, ..before }
        }
    }
}

pub open spec fn claim_limit(limit: usize) -> nat {
    if limit < 1 {
        1
    } else if limit > MAX_CLAIM {
        MAX_CLAIM as nat
    } else {
        limit as nat
    }
}

/// No notice has been handed out so often that the next time cannot be counted.
pub open spec fn countable(s: StoreView) -> bool {
    &&& s.deliveries.len() <= u32::MAX
    &&& forall|i: int| 0 <= i < s.deliveries.len() ==> (#[trigger] s.deliveries[i]).attempts
        < u32::MAX
}

/// How many notices of a session stand in the state.
pub open spec fn count_state(
    rows: Seq<DeliveryRowView>,
    agent_kind: Seq<char>,
    session_id: Seq<char>,
    state: DeliveryState,
) -> nat
    decreases rows.len(),
{
    if rows.len() == 0 {
        0
    } else {
        count_state(rows.drop_last(), agent_kind, session_id, state) + (if addressed(
            rows.last(),
            agent_kind,
            session_id,
        ) && rows.last().state == state {
            1nat
        } else {
            0nat
        })
    }
}

/// How a notice ends a delivery, by the outcome that is reported.
pub open spec fn outcome_state(outcome: Seq<char>) -> Option<DeliveryState> {
    if outcome == "delivered"@ {
        Some(DeliveryState::Delivered)
    } else if outcome == "retry"@ {
        Some(DeliveryState::Retrying)
    } else if outcome == "needs_rebind"@ {
        Some(DeliveryState::NeedsRebind)
    } else {
        None
    }
}

/// Why an outcome is not taken from an instance.
pub open spec fn finish_refusal(
    s: StoreView,
    agent_kind: Seq<char>,
    session_id: Seq<char>,
    owner: Seq<char>,
    delivery_id: Seq<char>,
    outcome: Seq<char>,
    now: Timestamp,
) -> Option<Seq<char>> {
    if lease_refusal(s, agent_kind, session_id, owner, now) is Some {
        lease_refusal(s, agent_kind, session_id, owner, now)
    } else {
        match s.delivery(delivery_id) {
            None => None,
            Some(row) => if !addressed(row, agent_kind, session_id) {
                Some("delivery does not belong to the active agent session"@)
            } else if outcome_state(outcome) is None {
                Some("unsupported delivery outcome "@ + outcome)
            } else {
                None
            },
        }
    }
}

/// A notice after its delivery ended.
pub open spec fn finished_row(
    row: DeliveryRowView,
    state: DeliveryState,
    error: Option<Seq<char>>,
    now: Timestamp,
) -> DeliveryRowView {
    DeliveryRowView {
        state,
        next_retry_at: if state == DeliveryState::Retrying {
            Some(now.plus(30))
        } else {
            None
        },
        last_error: match state {
            DeliveryState::Retrying => error,
            DeliveryState::NeedsRebind => match error {
                Some(error) => Some(error),
                None => Some("agent continuation binding requires explicit rebind"@),
            },
            _ => None,
        },
        ..row
    }
}

/// Whether the notice is on its way, so that an outcome ends it.
pub open spec fn finishable(s: StoreView, delivery_id: Seq<char>) -> bool {
    match s.delivery(delivery_id) {
        Some(row) => row.state == DeliveryState::Delivering,
        None => false,
    }
}

pub open spec fn finished(
    s: StoreView,
    delivery_id: Seq<char>,
    outcome: Seq<char>,
    error: Option<Seq<char>>,
    now: Timestamp,
) -> StoreView {
    match (s.delivery(delivery_id), outcome_state(outcome)) {
        (Some(row), Some(state)) => s.with_delivery(
            finished_row(row, state, error, now),
        ).with_event(
            row.payload.run_id,
            now,
            "continuation_"@ + state.name(),
            EventPayloadView::NoticeFinished { delivery_id, outcome, error },
        ),
        _ => s,
    }
}

// ---------------------------------------------------------------------------
// The requests
// ---------------------------------------------------------------------------

impl RunStore {
    /// Whether every lease ends at a moment that has a date.
    pub fn is_dated(&self) -> (yes: bool)
        ensures
            yes == self@.dated(),
    {
        let mut i: usize = 0;
        while i < self.leases.len()
            invariant
                i <= self.leases@.len(),
                forall|j: int|
                    0 <= j < i ==> (#[trigger] self@.leases[j]).expires_at.dated(),
            decreases self.leases@.len() - i,
        {
            let until = self.leases[i].expires_at;
            if !until.is_dated() {
                assert(!self@.leases[i as int].expires_at.dated());
                return false;
            }
            assert(self@.leases[i as int].expires_at.dated());
            i += 1;
        }
        true
    }

    /// Whether every notice can be handed out once more and counted.
    pub fn is_countable(&self) -> (yes: bool)
        ensures
            yes == countable(self@),
    {
        if self.deliveries.len() as u64 > u32::MAX as u64 {
            assert(self@.deliveries.len() == self.deliveries@.len());
            return false;
        }
        let mut i: usize = 0;
        while i < self.deliveries.len()
            invariant
                i <= self.deliveries@.len(),
                self.deliveries@.len() <= u32::MAX,
                forall|j: int|
                    0 <= j < i ==> (#[trigger] self@.deliveries[j]).attempts < u32::MAX,
            decreases self.deliveries@.len() - i,
        {
            if self.deliveries[i].attempts == u32::MAX {
                assert(self@.deliveries[i as int].attempts == u32::MAX);
                return false;
            }
            assert(self@.deliveries[i as int].attempts < u32::MAX);
            i += 1;
        }
        true
    }

    /// Binds the run to another session and lets blocked notices go out
    /// again. Gives back how many of these there were.
    pub fn rebind_continuation(
        &mut self,
        run_id: &str,
        binding: &ContinuationBinding,
        now: Timestamp,
    ) -> (result: Result<u32, String>)
        requires
            old(self)@.deliveries.len() <= u32::MAX,
        ensures
            match result {
                Ok(reset) => {
                    &&& rebind_refusal(old(self)@, run_id@) is None
                    &&& reset == blocked_count(old(self)@.deliveries, run_id@)
                    &&& final(self)@ == rebound(old(self)@, run_id@, binding@, now)
                },
                Err(reason) => {
                    &&& rebind_refusal(old(self)@, run_id@) == Some(reason@)
                    &&& final(self)@ == old(self)@
                },
            },
            old(self)@.sound() ==> final(self)@.sound(),
    {
        if self.find_run(run_id) >= self.runs.len() {
            let mut reason = "unknown run ".to_owned();
            reason.append(run_id);
            return Err(reason);
        }
        let test = |row: &DeliveryRow| -> (yes: bool)
            ensures
                yes == in_flight(run_id@)(row.deep_view()),
            {
                row.state == DeliveryState::Delivering && same(row.run_id.as_str(), run_id)
            };
        let flying = crate::seqs::position(&self.deliveries, test, Ghost(in_flight(run_id@)));
        if flying < self.deliveries.len() {
            let mut reason = "cannot rebind run ".to_owned();
            reason.append(run_id);
            reason.append(" while a continuation Delivery is in flight");
            return Err(reason);
        }
        self.put_binding(BindingRow { run_id: run_id.to_owned(), binding: binding.clone() });
        let ghost bound = self@;
        let ghost rows = self@.deliveries;
        let mut reset: u32 = 0;
        let mut i: usize = 0;
        assert(rows.take(0) =~= Seq::<DeliveryRowView>::empty());
        while i < self.deliveries.len()
            invariant
                i <= rows.len(),
                rows == bound.deliveries,
                rows.len() <= u32::MAX,
                self.deliveries@.len() == rows.len(),
                self@ == (StoreView { deliveries: self@.deliveries, ..bound }),
                reset == blocked_count(rows.take(i as int), run_id@),
                reset <= i,
                forall|j: int|
                    0 <= j < i ==> #[trigger] self@.deliveries[j] == rebound_row(
                        rows[j],
                        run_id@,
                        binding@,
                    ),
                forall|j: int| i <= j < rows.len() ==> #[trigger] self@.deliveries[j] == rows[j],
            decreases rows.len() - i,
        {
            let ghost before = *self;
            proof {
                let now_rows = rows.take(i + 1);
                assert(now_rows.drop_last() =~= rows.take(i as int));
                assert(now_rows.last() == rows[i as int]);
                assert(self@.deliveries[i as int] == rows[i as int]);
            }
            let mut row = self.deliveries[i].clone();
            if same(row.run_id.as_str(), run_id) {
                if row.state == DeliveryState::NeedsRebind {
                    row.payload.binding = binding.clone();
                    row.state = DeliveryState::Pending;
                    row.next_retry_at = None;
                    row.last_error = None;
                    reset = reset + 1;
                } else if row.state == DeliveryState::Pending || row.state
                    == DeliveryState::Retrying {
                    row.payload.binding = binding.clone();
                }
            }
            assert(row@ == rebound_row(rows[i as int], run_id@, binding@));
            self.deliveries.set(i, row);
            proof {
                seqs::lemma_deep_update(before.deliveries, self.deliveries, i as int, row);
                assert(self@ =~= StoreView { deliveries: self@.deliveries, ..bound });
            }
            i += 1;
        }
        proof {
            assert(rows.take(i as int) =~= rows);
            assert(self@.deliveries =~= rebound_rows(rows, run_id@, binding@));
            if old(self)@.sound() {
                lemma_rebound_unique(rows, run_id@, binding@);
            }
        }
        self.add_event(
            run_id.to_owned(),
            now,
            "continuation_rebound".to_owned(),
            EventPayload::Rebound {
                session_id: binding.session_id.clone(),
                session_file: clone_text(&binding.session_file),
                origin_leaf_id: clone_text(&binding.origin_leaf_id),
                reset_deliveries: reset,
            },
        );
        Ok(reset)
    }

    pub fn get_continuation_binding(&self, run_id: &str) -> (found: Option<ContinuationBinding>)
        ensures
            found.deep_view() == self@.binding(run_id@),
    {
        let at = self.find_binding(run_id);
        if at < self.bindings.len() {
            Some(self.bindings[at].binding.clone())
        } else {
            None
        }
    }

    /// Gives the session to an instance, unless another one holds it, and says
    /// until when.
    pub fn register_agent_session(
        &mut self,
        registration: &AgentSessionRegistration,
        ttl_seconds: u64,
        now: Timestamp,
    ) -> (result: Result<Timestamp, String>)
        requires
            now.clocked(),
            old(self)@.dated(),
        ensures
            match result {
                Ok(until) => {
                    &&& lease_conflict(old(self)@, registration@, now) is None
                    &&& until == now.plus(lease_seconds(ttl_seconds))
                    &&& final(self)@ == old(self)@.with_lease(lease_of(registration@, until))
                },
                Err(reason) => {
                    &&& lease_conflict(old(self)@, registration@, now) == Some(reason@)
                    &&& final(self)@ == old(self)@
                },
            },
            final(self)@.dated(),
            old(self)@.sound() ==> final(self)@.sound(),
    {
        let ttl: i64 = if ttl_seconds < 5 {
            5
        } else if ttl_seconds > 300 {
            300
        } else {
            ttl_seconds as i64
        };
        let until = now.plus_seconds(ttl);
        let at = self.find_lease(
            registration.agent_kind.as_str(),
            registration.session_id.as_str(),
        );
        if at < self.leases.len() {
            let lease = &self.leases[at];
            if lease.owner_instance_id != registration.owner_instance_id && lease.expires_at.nanos
                > now.nanos {
                let mut reason = "agent session ".to_owned();
                reason.append(registration.agent_kind.as_str());
                reason.append(":");
                reason.append(registration.session_id.as_str());
                reason.append(" is already leased by another live instance until ");
                assert(self@.leases[at as int].expires_at.dated());
                reason.append(lease.expires_at.to_rfc3339().as_str());
                return Err(reason);
            }
        }
        self.put_lease(
            LeaseRow {
                agent_kind: registration.agent_kind.clone(),
                session_id: registration.session_id.clone(),
                owner_instance_id: registration.owner_instance_id.clone(),
                expires_at: until,
                registration: registration.clone(),
            },
        );
        Ok(until)
    }

    /// Gives the session up, where the instance holds it.
    pub fn release_agent_session(
        &mut self,
        agent_kind: &str,
        session_id: &str,
        owner_instance_id: &str,
    ) -> (released: bool)
        ensures
            released == seqs::present(
                old(self)@.leases,
                store::by_owned_session(agent_kind@, session_id@, owner_instance_id@),
            ),
            final(self)@ == old(self)@.without_lease(
                agent_kind@,
                session_id@,
                owner_instance_id@,
            ),
            old(self)@.sound() ==> final(self)@.sound(),
    {
        self.drop_lease(agent_kind, session_id, owner_instance_id)
    }

    pub(crate) fn lease_obstacle(
        &self,
        agent_kind: &str,
        session_id: &str,
        owner: &str,
        now: Timestamp,
    ) -> (obstacle: Option<String>)
        ensures
            text::text_opt(obstacle) == lease_refusal(
                self@,
                agent_kind@,
                session_id@,
                owner@,
                now,
            ),
    {
        let at = self.find_lease(agent_kind, session_id);
        if at >= self.leases.len() {
            return Some("agent session has no live lease".to_owned());
        }
        let lease = &self.leases[at];
        if !same(lease.owner_instance_id.as_str(), owner) {
            return Some("agent session lease is owned by another instance".to_owned());
        }
        if lease.expires_at.nanos <= now.nanos {
            return Some("agent session lease expired".to_owned());
        }
        None
    }

    /// Makes the notice that an ended run owes to its session, once for each
    /// attempt, and gives back its name.
    pub fn ensure_terminal_delivery(&mut self, run: &RunRecord, now: Timestamp) -> (delivery_id:
        Option<String>)
        ensures
            text::text_opt(delivery_id) == owed_delivery(old(self)@, run@),
            final(self)@ == notified(old(self)@, run@, now),
            old(self)@.sound() ==> final(self)@.sound(),
    {
        if !run.status.is_terminal() {
            return None;
        }
        let attempt_no: u32 = match run.attempt_no {
            Some(number) => number,
            None => 1,
        };
        let mut delivery_id = run.run_id.clone();
        delivery_id.append(":a");
        delivery_id.append(decimal_text(attempt_no as u64).as_str());
        delivery_id.append(":terminal");
        let at = self.find_binding(run.run_id.as_str());
        if at >= self.bindings.len() {
            return None;
        }
        let binding = self.bindings[at].binding.clone();
        if self.find_delivery(delivery_id.as_str()) >= self.deliveries.len() {
            let session_id = binding.session_id.clone();
            let payload = DeliveryPayload {
                delivery_id: delivery_id.clone(),
                run_id: run.run_id.clone(),
                attempt_no,
                status: run.status,
                job_id: clone_text(&run.job_id),
                workspace: match &run.workspace {
                    Some(workspace) => workspace.clone(),
                    None => binding.workspace.clone(),
                },
                binding,
                created_at: now,
            };
            self.put_delivery(
                DeliveryRow {
                    delivery_id: delivery_id.clone(),
                    run_id: run.run_id.clone(),
                    state: DeliveryState::Pending,
                    attempts: 0,
                    next_retry_at: None,
                    last_error: None,
                    payload,
                },
            );
            self.add_event(
                run.run_id.clone(),
                now,
                "continuation_pending".to_owned(),
                EventPayload::NoticePending {
                    delivery_id: delivery_id.clone(),
                    attempt_no,
                    session_id,
                },
            );
        }
        Some(delivery_id)
    }

    /// Gives back the notices whose claims have run out.
    pub(crate) fn requeue_expired_delivery_claims(&mut self, now: Timestamp)
        ensures
            final(self)@ == requeued(old(self)@, now),
            final(self)@.deliveries.len() == old(self)@.deliveries.len(),
            old(self)@.sound() ==> final(self)@.sound(),
    {
        let ghost rows = self@.deliveries;
        let ghost start = self@;
        let mut i: usize = 0;
        while i < self.deliveries.len()
            invariant
                i <= rows.len(),
                rows == start.deliveries,
                self.deliveries@.len() == rows.len(),
                self@ == (StoreView { deliveries: self@.deliveries, ..start }),
                forall|j: int|
                    0 <= j < i ==> #[trigger] self@.deliveries[j] == requeued_row(rows[j], now),
                forall|j: int| i <= j < rows.len() ==> #[trigger] self@.deliveries[j] == rows[j],
            decreases rows.len() - i,
        {
            let ghost before = *self;
            assert(self@.deliveries[i as int] == rows[i as int]);
            let row = &self.deliveries[i];
            let expired = match row.next_retry_at {
                Some(until) => row.state == DeliveryState::Delivering && until.nanos <= now.nanos,
                None => false,
            };
            if expired {
                let mut changed = row.clone();
                changed.state = DeliveryState::Pending;
                changed.next_retry_at = None;
                if changed.last_error.is_none() {
                    changed.last_error = Some(
                        "delivery claim expired before durable acknowledgement".to_owned(),
                    );
                }
                assert(changed@ == requeued_row(rows[i as int], now));
                self.deliveries.set(i, changed);
                proof {
                    seqs::lemma_deep_update(before.deliveries, self.deliveries, i as int, changed);
                    assert(self@ =~= StoreView { deliveries: self@.deliveries, ..start });
                }
            }
            i += 1;
        }
        proof {
            assert(self@.deliveries =~= requeued_rows(rows, now));
            if old(self)@.sound() {
                lemma_requeued_unique(rows, now);
            }
        }
    }

    /// Hands the due notices of a session to the instance that holds it.
    pub fn claim_deliveries(
        &mut self,
        agent_kind: &str,
        session_id: &str,
        owner_instance_id: &str,
        limit: usize,
        now: Timestamp,
    ) -> (result: Result<Vec<ClaimedDelivery>, String>)
        requires
            now.clocked(),
            countable(old(self)@),
        ensures
            ({
                let refusal = lease_refusal(
                    old(self)@,
                    agent_kind@,
                    session_id@,
                    owner_instance_id@,
                    now,
                );
                let ready = requeued(old(self)@, now);
                let walk = claim_walk(
                    ready.deliveries,
                    agent_kind@,
                    session_id@,
                    claim_limit(limit),
                    now,
                );
                match result {
                    Ok(claimed) => {
                        &&& refusal is None
                        &&& claimed.deep_view() == walk.taken
                        &&& final(self)@ == (StoreView { deliveries: walk.rows, ..ready })
                    },
                    Err(reason) => {
                        &&& refusal == Some(reason@)
                        &&& final(self)@ == old(self)@
                    },
                }
            }),
            old(self)@.sound() ==> final(self)@.sound(),
    {
        match self.lease_obstacle(agent_kind, session_id, owner_instance_id, now) {
            Some(reason) => return Err(reason),
            None => {},
        }
        let limit: usize = if limit < 1 {
            1
        } else if limit > MAX_CLAIM {
            MAX_CLAIM
        } else {
            limit
        };
        let until = now.plus_seconds(60);
        self.requeue_expired_delivery_claims(now);
        let ghost ready = self@;
        let ghost rows = self@.deliveries;
        let mut claimed: Vec<ClaimedDelivery> = Vec::new();
        let mut seen: usize = 0;
        let mut i: usize = 0;
        proof {
            assert(rows.take(0) =~= Seq::<DeliveryRowView>::empty());
            assert(claimed.deep_view() =~= Seq::<ClaimedDeliveryView>::empty());
            assert forall|j: int| 0 <= j < rows.len() implies (#[trigger] rows[j]).attempts
                < u32::MAX by {
                assert(rows[j] == requeued_row(old(self)@.deliveries[j], now));
            }
        }
        while i < self.deliveries.len()
            invariant
                i <= rows.len(),
                seen <= i,
                rows == ready.deliveries,
                until == now.plus(60),
                self.deliveries@.len() == rows.len(),
                self@ == (StoreView { deliveries: self@.deliveries, ..ready }),
                forall|j: int| 0 <= j < rows.len() ==> (#[trigger] rows[j]).attempts < u32::MAX,
                ({
                    let walk = claim_walk(
                        rows.take(i as int),
                        agent_kind@,
                        session_id@,
                        limit as nat,
                        now,
                    );
                    &&& self@.deliveries =~= walk.rows + rows.skip(i as int)
                    &&& walk.rows.len() == i
                    &&& claimed.deep_view() == walk.taken
                    &&& claimed@.len() == walk.taken.len()
                    &&& seen == walk.seen
                }),
            decreases rows.len() - i,
        {
            let ghost before = *self;
            let ghost walk = claim_walk(
                rows.take(i as int),
                agent_kind@,
                session_id@,
                limit as nat,
                now,
            );
            proof {
                let now_rows = rows.take(i + 1);
                assert(now_rows.drop_last() =~= rows.take(i as int));
                assert(now_rows.last() == rows[i as int]);
                assert(self@.deliveries[i as int] == rows[i as int]);
            }
            let row = &self.deliveries[i];
            let open = row.state == DeliveryState::Pending || row.state == DeliveryState::Retrying;
            let timely = match row.next_retry_at {
                Some(at) => at.nanos <= now.nanos,
                None => true,
            };
            if seen < CANDIDATES && open && timely {
                if claimed.len() < limit && same(row.payload.binding.agent_kind.as_str(), agent_kind)
                    && same(row.payload.binding.session_id.as_str(), session_id) {
                    let ghost earlier = claimed;
                    let claim = ClaimedDelivery {
                        delivery_id: row.delivery_id.clone(),
                        attempts: row.attempts + 1,
                        payload: row.payload.clone(),
                    };
                    let mut taken = row.clone();
                    taken.state = DeliveryState::Delivering;
                    taken.attempts = taken.attempts + 1;
                    taken.next_retry_at = Some(until);
                    taken.last_error = None;
                    assert(taken@ == taken_row(rows[i as int], until));
                    claimed.push(claim);
                    self.deliveries.set(i, taken);
                    proof {
                        seqs::lemma_deep_push(earlier, claimed, claim);
                        seqs::lemma_deep_update(
                            before.deliveries,
                            self.deliveries,
                            i as int,
                            taken,
                        );
                        assert(self@ =~= StoreView { deliveries: self@.deliveries, ..ready });
                    }
                }
                seen = seen + 1;
            }
            proof {
                let after = claim_walk(
                    rows.take(i + 1),
                    agent_kind@,
                    session_id@,
                    limit as nat,
                    now,
                );
                assert(after.rows + rows.skip(i + 1) =~= self@.deliveries);
            }
            i += 1;
        }
        proof {
            assert(rows.take(i as int) =~= rows);
            assert(rows.skip(i as int) =~= Seq::<DeliveryRowView>::empty());
            let walk = claim_walk(rows, agent_kind@, session_id@, limit as nat, now);
            assert(walk.rows + rows.skip(i as int) =~= walk.rows);
            if old(self)@.sound() {
                lemma_claim_unique(rows, agent_kind@, session_id@, limit as nat, now);
            }
        }
        Ok(claimed)
    }

    /// How many notices of a session stand in each open state, for the
    /// instance that holds it.
    pub fn delivery_status(
        &self,
        agent_kind: &str,
        session_id: &str,
        owner_instance_id: &str,
        now: Timestamp,
    ) -> (result: Result<DeliveryStatusSummary, String>)
        requires
            self@.deliveries.len() <= u32::MAX,
        ensures
            match result {
                Ok(summary) => {
                    let rows = self@.deliveries;
                    &&& lease_refusal(self@, agent_kind@, session_id@, owner_instance_id@, now)
                        is None
                    &&& summary.pending == count_state(
                        rows,
                        agent_kind@,
                        session_id@,
                        DeliveryState::Pending,
                    )
                    &&& summary.delivering == count_state(
                        rows,
                        agent_kind@,
                        session_id@,
                        DeliveryState::Delivering,
                    )
                    &&& summary.retrying == count_state(
                        rows,
                        agent_kind@,
                        session_id@,
                        DeliveryState::Retrying,
                    )
                    &&& summary.needs_rebind == count_state(
                        rows,
                        agent_kind@,
                        session_id@,
                        DeliveryState::NeedsRebind,
                    )
                },
                Err(reason) => lease_refusal(
                    self@,
                    agent_kind@,
                    session_id@,
                    owner_instance_id@,
                    now,
                ) == Some(reason@),
            },
    {
        match self.lease_obstacle(agent_kind, session_id, owner_instance_id, now) {
            Some(reason) => return Err(reason),
            None => {},
        }
        let mut summary = DeliveryStatusSummary {
            pending: 0,
            delivering: 0,
            retrying: 0,
            needs_rebind: 0,
        };
        let ghost rows = self@.deliveries;
        let mut i: usize = 0;
        assert(rows.take(0) =~= Seq::<DeliveryRowView>::empty());
        while i < self.deliveries.len()
            invariant
                i <= rows.len(),
                rows == self@.deliveries,
                rows.len() <= u32::MAX,
                summary.pending <= i,
                summary.delivering <= i,
                summary.retrying <= i,
                summary.needs_rebind <= i,
                summary.pending == count_state(
                    rows.take(i as int),
                    agent_kind@,
                    session_id@,
                    DeliveryState::Pending,
                ),
                summary.delivering == count_state(
                    rows.take(i as int),
                    agent_kind@,
                    session_id@,
                    DeliveryState::Delivering,
                ),
                summary.retrying == count_state(
                    rows.take(i as int),
                    agent_kind@,
                    session_id@,
                    DeliveryState::Retrying,
                ),
                summary.needs_rebind == count_state(
                    rows.take(i as int),
                    agent_kind@,
                    session_id@,
                    DeliveryState::NeedsRebind,
                ),
            decreases rows.len() - i,
        {
            proof {
                let now_rows = rows.take(i + 1);
                assert(now_rows.drop_last() =~= rows.take(i as int));
                assert(now_rows.last() == rows[i as int]);
            }
            let row = &self.deliveries[i];
            if same(row.payload.binding.agent_kind.as_str(), agent_kind) && same(
                row.payload.binding.session_id.as_str(),
                session_id,
            ) {
                match row.state {
                    DeliveryState::Pending => summary.pending = summary.pending + 1,
                    DeliveryState::Delivering => summary.delivering = summary.delivering + 1,
                    DeliveryState::Retrying => summary.retrying = summary.retrying + 1,
                    DeliveryState::NeedsRebind => summary.needs_rebind = summary.needs_rebind + 1,
                    DeliveryState::Delivered => {},
                }
            }
            i += 1;
        }
        assert(rows.take(i as int) =~= rows);
        Ok(summary)
    }

    /// Takes the outcome of a delivery from the instance that holds the
    /// session. `false` where the notice is not on its way.
    pub fn finish_delivery(
        &mut self,
        agent_kind: &str,
        session_id: &str,
        owner_instance_id: &str,
        delivery_id: &str,
        outcome: &str,
        error: &Option<String>,
        now: Timestamp,
    ) -> (result: Result<bool, String>)
        requires
            now.clocked(),
        ensures
            ({
                let refusal = finish_refusal(
                    old(self)@,
                    agent_kind@,
                    session_id@,
                    owner_instance_id@,
                    delivery_id@,
                    outcome@,
                    now,
                );
                match result {
                    Ok(changed) => {
                        &&& refusal is None
                        &&& changed == finishable(old(self)@, delivery_id@)
                        &&& final(self)@ == if changed {
                            finished(
                                old(self)@,
                                delivery_id@,
                                outcome@,
                                text::text_opt(*error),
                                now,
                            )
                        } else {
                            old(self)@
                        }
                    },
                    Err(reason) => {
                        &&& refusal == Some(reason@)
                        &&& final(self)@ == old(self)@
                    },
                }
            }),
            old(self)@.sound() ==> final(self)@.sound(),
    {
        match self.lease_obstacle(agent_kind, session_id, owner_instance_id, now) {
            Some(reason) => return Err(reason),
            None => {},
        }
        let at = self.find_delivery(delivery_id);
        if at >= self.deliveries.len() {
            return Ok(false);
        }
        let mut row = self.deliveries[at].clone();
        if !same(row.payload.binding.agent_kind.as_str(), agent_kind) || !same(
            row.payload.binding.session_id.as_str(),
            session_id,
        ) {
            return Err("delivery does not belong to the active agent session".to_owned());
        }
        let was_delivering = row.state == DeliveryState::Delivering;
        if same(outcome, "delivered") {
            row.state = DeliveryState::Delivered;
            row.next_retry_at = None;
            row.last_error = None;
        } else if same(outcome, "retry") {
            row.state = DeliveryState::Retrying;
            row.next_retry_at = Some(now.plus_seconds(30));
            row.last_error = clone_text(error);
        } else if same(outcome, "needs_rebind") {
            row.state = DeliveryState::NeedsRebind;
            row.next_retry_at = None;
            row.last_error = match error {
                Some(error) => Some(error.clone()),
                None => Some("agent continuation binding requires explicit rebind".to_owned()),
            };
        } else {
            let mut reason = "unsupported delivery outcome ".to_owned();
            reason.append(outcome);
            return Err(reason);
        }
        if !was_delivering {
            return Ok(false);
        }
        let run_id = row.payload.run_id.clone();
        let mut kind = "continuation_".to_owned();
        kind.append(row.state.as_text().as_str());
        self.put_delivery(row);
        self.add_event(
            run_id,
            now,
            kind,
            EventPayload::NoticeFinished {
                delivery_id: delivery_id.to_owned(),
                outcome: outcome.to_owned(),
                error: clone_text(error),
            },
        );
        Ok(true)
    }
}

// ---------------------------------------------------------------------------
// Keys stay unique
// ---------------------------------------------------------------------------

proof fn lemma_rebound_unique(
    rows: Seq<DeliveryRowView>,
    run_id: Seq<char>,
    binding: ContinuationBindingView,
)
    ensures
        seqs::unique(rows, store::delivery_key()) ==> seqs::unique(
            rebound_rows(rows, run_id, binding),
            store::delivery_key(),
        ),
{
}

proof fn lemma_requeued_unique(rows: Seq<DeliveryRowView>, now: Timestamp)
    ensures
        seqs::unique(rows, store::delivery_key()) ==> seqs::unique(
            requeued_rows(rows, now),
            store::delivery_key(),
        ),
{
}

/// A claim changes no name and no number of notices.
pub proof fn lemma_claim_rows(
    rows: Seq<DeliveryRowView>,
    agent_kind: Seq<char>,
    session_id: Seq<char>,
    limit: nat,
    now: Timestamp,
)
    ensures
        claim_walk(rows, agent_kind, session_id, limit, now).rows.len() == rows.len(),
        forall|i: int|
            0 <= i < rows.len() ==> (#[trigger] claim_walk(
                rows,
                agent_kind,
                session_id,
                limit,
                now,
            ).rows[i]).delivery_id == rows[i].delivery_id,
    decreases rows.len(),
{
    if rows.len() > 0 {
        lemma_claim_rows(rows.drop_last(), agent_kind, session_id, limit, now);
    }
}

proof fn lemma_claim_unique(
    rows: Seq<DeliveryRowView>,
    agent_kind: Seq<char>,
    session_id: Seq<char>,
    limit: nat,
    now: Timestamp,
)
    ensures
        seqs::unique(rows, store::delivery_key()) ==> seqs::unique(
            claim_walk(rows, agent_kind, session_id, limit, now).rows,
            store::delivery_key(),
        ),
{
    lemma_claim_rows(rows, agent_kind, session_id, limit, now);
}

} // verus!
