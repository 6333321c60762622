//! The ledger of runs: its tables, and what each request makes of them.
//!
//! A `RunStore` holds the rows of one database file. A method either answers
//! from the rows or changes them as one transaction does: wholly, or, where it
//! returns an error, not at all. Errors carry the sentence that is shown.
use crate::seqs;
use crate::seqs::position;
use crate::text;
use crate::text::same;
use crate::time::Timestamp;
use crate::types::{
    clone_text, AgentInvocationRecord, AgentSessionRegistration, ContinuationBinding,
    DeliveryPayload, ObservationRecord, RetryRunSpec, RunAttemptRecord, RunRecord, RunResources,
    RunStatus, RunnerKind,
};
use crate::types::{
    AgentInvocationRecordView, AgentSessionRegistrationView, ContinuationBindingView,
    DeliveryPayloadView, ObservationRecordView, RetryRunSpecView, RunAttemptRecordView,
    RunRecordView, RunResourcesView,
};
use vstd::prelude::*;

pub mod deliveries;
pub mod entries;
pub mod laws;
pub mod notices;
pub mod offline;
pub mod processes;
pub mod reading;
pub mod runs;
pub mod submissions;

verus! {

// ---------------------------------------------------------------------------
// States
// ---------------------------------------------------------------------------

/// Where the notice of an ended run stands.
#[derive(Debug, Clone, Copy, PartialEq, Eq, Structural)]
pub enum DeliveryState {
    Pending,
    Delivering,
    Retrying,
    NeedsRebind,
    Delivered,
}

impl DeliveryState {
    pub open spec fn name(self) -> Seq<char> {
        match self {
            DeliveryState::Pending => "pending"@,
            DeliveryState::Delivering => "delivering"@,
            DeliveryState::Retrying => "retrying"@,
            DeliveryState::NeedsRebind => "needs_rebind"@,
            DeliveryState::Delivered => "delivered"@,
        }
    }

    pub fn as_text(self) -> (text: String)
        ensures
            text@ == self.name(),
    {
        match self {
            DeliveryState::Pending => "pending".to_owned(),
            DeliveryState::Delivering => "delivering".to_owned(),
            DeliveryState::Retrying => "retrying".to_owned(),
            DeliveryState::NeedsRebind => "needs_rebind".to_owned(),
            DeliveryState::Delivered => "delivered".to_owned(),
        }
    }

    /// The notice waits for someone to take it.
    pub open spec fn open(self) -> bool {
        self == DeliveryState::Pending || self == DeliveryState::Retrying
    }
}

/// Where an agent process that was started for a notice stands.
#[derive(Debug, Clone, Copy, PartialEq, Eq, Structural)]
pub enum InvocationState {
    Starting,
    Running,
    Completed,
    Blocked,
    Retrying,
    Failed,
    Pending,
    Missing,
}

impl InvocationState {
    pub open spec fn name(self) -> Seq<char> {
        match self {
            InvocationState::Starting => "starting"@,
            InvocationState::Running => "running"@,
            InvocationState::Completed => "completed"@,
            InvocationState::Blocked => "blocked"@,
            InvocationState::Retrying => "retrying"@,
            InvocationState::Failed => "failed"@,
            InvocationState::Pending => "pending"@,
            InvocationState::Missing => "missing"@,
        }
    }

    pub fn as_text(self) -> (text: String)
        ensures
            text@ == self.name(),
    {
        match self {
            InvocationState::Starting => "starting".to_owned(),
            InvocationState::Running => "running".to_owned(),
            InvocationState::Completed => "completed".to_owned(),
            InvocationState::Blocked => "blocked".to_owned(),
            InvocationState::Retrying => "retrying".to_owned(),
            InvocationState::Failed => "failed".to_owned(),
            InvocationState::Pending => "pending".to_owned(),
            InvocationState::Missing => "missing".to_owned(),
        }
    }

    /// The process may still act for its notice.
    pub open spec fn live(self) -> bool {
        self == InvocationState::Starting || self == InvocationState::Running
    }
}

// ---------------------------------------------------------------------------
// Rows
// ---------------------------------------------------------------------------

/// A retry that was asked for, and the attempt it made.
#[derive(Debug, PartialEq, Eq)]
pub struct RetryIntentRow {
    pub request: RetryRunSpec,
    pub attempt_no: u32,
    pub created_at: Timestamp,
}

/// What a `RetryIntentRow` says.
pub struct RetryIntentRowView {
    pub request: RetryRunSpecView,
    pub attempt_no: u32,
    pub created_at: Timestamp,
}

impl View for RetryIntentRow {
    type V = RetryIntentRowView;

    open spec fn view(&self) -> RetryIntentRowView {
        RetryIntentRowView {
            request: self.request@,
            attempt_no: self.attempt_no,
            created_at: self.created_at,
        }
    }
}

impl DeepView for RetryIntentRow {
    type V = RetryIntentRowView;

    open spec fn deep_view(&self) -> RetryIntentRowView {
        self.view()
    }
}

impl Clone for RetryIntentRow {
    fn clone(&self) -> (copy: Self)
        ensures
            copy@ == self@,
    {
        RetryIntentRow {
            request: self.request.clone(),
            attempt_no: self.attempt_no,
            created_at: self.created_at,
        }
    }
}

/// The binding of one run.
#[derive(Debug, PartialEq, Eq)]
pub struct BindingRow {
    pub run_id: String,
    pub binding: ContinuationBinding,
}

/// What a `BindingRow` says.
pub struct BindingRowView {
    pub run_id: Seq<char>,
    pub binding: ContinuationBindingView,
}

impl View for BindingRow {
    type V = BindingRowView;

    open spec fn view(&self) -> BindingRowView {
        BindingRowView {
            run_id: self.run_id@,
            binding: self.binding@,
        }
    }
}

impl DeepView for BindingRow {
    type V = BindingRowView;

    open spec fn deep_view(&self) -> BindingRowView {
        self.view()
    }
}

impl Clone for BindingRow {
    fn clone(&self) -> (copy: Self)
        ensures
            copy@ == self@,
    {
        BindingRow {
            run_id: self.run_id.clone(),
            binding: self.binding.clone(),
        }
    }
}

/// The instance that may act for a session, and until when.
#[derive(Debug, PartialEq, Eq)]
pub struct LeaseRow {
    pub agent_kind: String,
    pub session_id: String,
    pub owner_instance_id: String,
    pub expires_at: Timestamp,
    pub registration: AgentSessionRegistration,
}

/// What a `LeaseRow` says.
pub struct LeaseRowView {
    pub agent_kind: Seq<char>,
    pub session_id: Seq<char>,
    pub owner_instance_id: Seq<char>,
    pub expires_at: Timestamp,
    pub registration: AgentSessionRegistrationView,
}

impl View for LeaseRow {
    type V = LeaseRowView;

    open spec fn view(&self) -> LeaseRowView {
        LeaseRowView {
            agent_kind: self.agent_kind@,
            session_id: self.session_id@,
            owner_instance_id: self.owner_instance_id@,
            expires_at: self.expires_at,
            registration: self.registration@,
        }
    }
}

impl DeepView for LeaseRow {
    type V = LeaseRowView;

    open spec fn deep_view(&self) -> LeaseRowView {
        self.view()
    }
}

impl Clone for LeaseRow {
    fn clone(&self) -> (copy: Self)
        ensures
            copy@ == self@,
    {
        LeaseRow {
            agent_kind: self.agent_kind.clone(),
            session_id: self.session_id.clone(),
            owner_instance_id: self.owner_instance_id.clone(),
            expires_at: self.expires_at,
            registration: self.registration.clone(),
        }
    }
}

/// A notice and where it stands. While it is being delivered, `next_retry_at`
/// is when the claim runs out.
#[derive(Debug, PartialEq, Eq)]
pub struct DeliveryRow {
    pub delivery_id: String,
    pub run_id: String,
    pub state: DeliveryState,
    pub attempts: u32,
    pub next_retry_at: Option<Timestamp>,
    pub last_error: Option<String>,
    pub payload: DeliveryPayload,
}

/// What a `DeliveryRow` says.
pub struct DeliveryRowView {
    pub delivery_id: Seq<char>,
    pub run_id: Seq<char>,
    pub state: DeliveryState,
    pub attempts: u32,
    pub next_retry_at: Option<Timestamp>,
    pub last_error: Option<Seq<char>>,
    pub payload: DeliveryPayloadView,
}

impl View for DeliveryRow {
    type V = DeliveryRowView;

    open spec fn view(&self) -> DeliveryRowView {
        DeliveryRowView {
            delivery_id: self.delivery_id@,
            run_id: self.run_id@,
            state: self.state,
            attempts: self.attempts,
            next_retry_at: self.next_retry_at,
            last_error: text::text_opt(self.last_error),
            payload: self.payload@,
        }
    }
}

impl DeepView for DeliveryRow {
    type V = DeliveryRowView;

    open spec fn deep_view(&self) -> DeliveryRowView {
        self.view()
    }
}

impl Clone for DeliveryRow {
    fn clone(&self) -> (copy: Self)
        ensures
            copy@ == self@,
    {
        DeliveryRow {
            delivery_id: self.delivery_id.clone(),
            run_id: self.run_id.clone(),
            state: self.state,
            attempts: self.attempts,
            next_retry_at: self.next_retry_at,
            last_error: clone_text(&self.last_error),
            payload: self.payload.clone(),
        }
    }
}

/// An agent process as it was started, and where it stands now.
#[derive(Debug, PartialEq, Eq)]
pub struct InvocationRow {
    pub record: AgentInvocationRecord,
    pub state: InvocationState,
    pub pid: Option<u32>,
    pub updated_at: Timestamp,
    pub last_error: Option<String>,
}

/// What a `InvocationRow` says.
pub struct InvocationRowView {
    pub record: AgentInvocationRecordView,
    pub state: InvocationState,
    pub pid: Option<u32>,
    pub updated_at: Timestamp,
    pub last_error: Option<Seq<char>>,
}

impl View for InvocationRow {
    type V = InvocationRowView;

    open spec fn view(&self) -> InvocationRowView {
        InvocationRowView {
            record: self.record@,
            state: self.state,
            pid: self.pid,
            updated_at: self.updated_at,
            last_error: text::text_opt(self.last_error),
        }
    }
}

impl DeepView for InvocationRow {
    type V = InvocationRowView;

    open spec fn deep_view(&self) -> InvocationRowView {
        self.view()
    }
}

impl Clone for InvocationRow {
    fn clone(&self) -> (copy: Self)
        ensures
            copy@ == self@,
    {
        InvocationRow {
            record: self.record.clone(),
            state: self.state,
            pid: self.pid,
            updated_at: self.updated_at,
            last_error: clone_text(&self.last_error),
        }
    }
}

/// What an event tells.
#[derive(Debug, PartialEq, Eq)]
pub enum EventPayload {
    SubmissionIntent {
        attempt_no: u32,
        runner: RunnerKind,
        host: String,
        workdir: String,
        job_name: String,
    },
    RetryIntent {
        request_id: String,
        from_attempt_no: u32,
        attempt_no: u32,
        resources: Option<RunResources>,
    },
    Rebound {
        session_id: String,
        session_file: Option<String>,
        origin_leaf_id: Option<String>,
        reset_deliveries: u32,
    },
    NoticePending {
        delivery_id: String,
        attempt_no: u32,
        session_id: String,
    },
    NoticeFinished {
        delivery_id: String,
        outcome: String,
        error: Option<String>,
    },
    InvocationReconciled {
        invocation_id: String,
        delivery_id: String,
        prior_invocation_state: String,
        delivery_state: String,
        reconciled_invocation_state: String,
        error: Option<String>,
    },
    InvocationExit {
        invocation_id: String,
        delivery_id: String,
        state: String,
        exit_code: Option<i32>,
        error: Option<String>,
    },
    Attempt {
        attempt_no: u32,
        status: RunStatus,
        job_id: Option<String>,
        error: Option<String>,
    },
    Observation(ObservationRecord),
}

/// What an `EventPayload` says.
pub enum EventPayloadView {
    SubmissionIntent {
        attempt_no: u32,
        runner: RunnerKind,
        host: Seq<char>,
        workdir: Seq<char>,
        job_name: Seq<char>,
    },
    RetryIntent {
        request_id: Seq<char>,
        from_attempt_no: u32,
        attempt_no: u32,
        resources: Option<RunResourcesView>,
    },
    Rebound {
        session_id: Seq<char>,
        session_file: Option<Seq<char>>,
        origin_leaf_id: Option<Seq<char>>,
        reset_deliveries: u32,
    },
    NoticePending {
        delivery_id: Seq<char>,
        attempt_no: u32,
        session_id: Seq<char>,
    },
    NoticeFinished {
        delivery_id: Seq<char>,
        outcome: Seq<char>,
        error: Option<Seq<char>>,
    },
    InvocationReconciled {
        invocation_id: Seq<char>,
        delivery_id: Seq<char>,
        prior_invocation_state: Seq<char>,
        delivery_state: Seq<char>,
        reconciled_invocation_state: Seq<char>,
        error: Option<Seq<char>>,
    },
    InvocationExit {
        invocation_id: Seq<char>,
        delivery_id: Seq<char>,
        state: Seq<char>,
        exit_code: Option<i32>,
        error: Option<Seq<char>>,
    },
    Attempt {
        attempt_no: u32,
        status: RunStatus,
        job_id: Option<Seq<char>>,
        error: Option<Seq<char>>,
    },
    Observation(ObservationRecordView),
}

impl View for EventPayload {
    type V = EventPayloadView;

    open spec fn view(&self) -> EventPayloadView {
        match *self {
            EventPayload::SubmissionIntent { attempt_no, runner, host, workdir, job_name } => EventPayloadView::SubmissionIntent {
                attempt_no: attempt_no,
                runner: runner,
                host: host@,
                workdir: workdir@,
                job_name: job_name@,
            },
            EventPayload::RetryIntent { request_id, from_attempt_no, attempt_no, resources } => EventPayloadView::RetryIntent {
                request_id: request_id@,
                from_attempt_no: from_attempt_no,
                attempt_no: attempt_no,
                resources: resources.deep_view(),
            },
            EventPayload::Rebound { session_id, session_file, origin_leaf_id, reset_deliveries } => EventPayloadView::Rebound {
                session_id: session_id@,
                session_file: text::text_opt(session_file),
                origin_leaf_id: text::text_opt(origin_leaf_id),
                reset_deliveries: reset_deliveries,
            },
            EventPayload::NoticePending { delivery_id, attempt_no, session_id } => EventPayloadView::NoticePending {
                delivery_id: delivery_id@,
                attempt_no: attempt_no,
                session_id: session_id@,
            },
            EventPayload::NoticeFinished { delivery_id, outcome, error } => EventPayloadView::NoticeFinished {
                delivery_id: delivery_id@,
                outcome: outcome@,
                error: text::text_opt(error),
            },
            EventPayload::InvocationReconciled { invocation_id, delivery_id, prior_invocation_state, delivery_state, reconciled_invocation_state, error } => EventPayloadView::InvocationReconciled {
                invocation_id: invocation_id@,
                delivery_id: delivery_id@,
                prior_invocation_state: prior_invocation_state@,
                delivery_state: delivery_state@,
                reconciled_invocation_state: reconciled_invocation_state@,
                error: text::text_opt(error),
            },
            EventPayload::InvocationExit { invocation_id, delivery_id, state, exit_code, error } => EventPayloadView::InvocationExit {
                invocation_id: invocation_id@,
                delivery_id: delivery_id@,
                state: state@,
                exit_code: exit_code,
                error: text::text_opt(error),
            },
            EventPayload::Attempt { attempt_no, status, job_id, error } => EventPayloadView::Attempt {
                attempt_no: attempt_no,
                status: status,
                job_id: text::text_opt(job_id),
                error: text::text_opt(error),
            },
            EventPayload::Observation(record) => EventPayloadView::Observation(record@),
        }
    }
}

impl DeepView for EventPayload {
    type V = EventPayloadView;

    open spec fn deep_view(&self) -> EventPayloadView {
        self.view()
    }
}

impl Clone for EventPayload {
    fn clone(&self) -> (copy: Self)
        ensures
            copy@ == self@,
    {
        match self {
            EventPayload::SubmissionIntent { attempt_no, runner, host, workdir, job_name } => EventPayload::SubmissionIntent {
                attempt_no: *attempt_no,
                runner: *runner,
                host: host.clone(),
                workdir: workdir.clone(),
                job_name: job_name.clone(),
            },
            EventPayload::RetryIntent { request_id, from_attempt_no, attempt_no, resources } => EventPayload::RetryIntent {
                request_id: request_id.clone(),
                from_attempt_no: *from_attempt_no,
                attempt_no: *attempt_no,
                resources: match resources {
                    Some(value) => Some(value.clone()),
                    None => None,
                },
            },
            EventPayload::Rebound { session_id, session_file, origin_leaf_id, reset_deliveries } => EventPayload::Rebound {
                session_id: session_id.clone(),
                session_file: clone_text(session_file),
                origin_leaf_id: clone_text(origin_leaf_id),
                reset_deliveries: *reset_deliveries,
            },
            EventPayload::NoticePending { delivery_id, attempt_no, session_id } => EventPayload::NoticePending {
                delivery_id: delivery_id.clone(),
                attempt_no: *attempt_no,
                session_id: session_id.clone(),
            },
            EventPayload::NoticeFinished { delivery_id, outcome, error } => EventPayload::NoticeFinished {
                delivery_id: delivery_id.clone(),
                outcome: outcome.clone(),
                error: clone_text(error),
            },
            EventPayload::InvocationReconciled { invocation_id, delivery_id, prior_invocation_state, delivery_state, reconciled_invocation_state, error } => EventPayload::InvocationReconciled {
                invocation_id: invocation_id.clone(),
                delivery_id: delivery_id.clone(),
                prior_invocation_state: prior_invocation_state.clone(),
                delivery_state: delivery_state.clone(),
                reconciled_invocation_state: reconciled_invocation_state.clone(),
                error: clone_text(error),
            },
            EventPayload::InvocationExit { invocation_id, delivery_id, state, exit_code, error } => EventPayload::InvocationExit {
                invocation_id: invocation_id.clone(),
                delivery_id: delivery_id.clone(),
                state: state.clone(),
                exit_code: *exit_code,
                error: clone_text(error),
            },
            EventPayload::Attempt { attempt_no, status, job_id, error } => EventPayload::Attempt {
                attempt_no: *attempt_no,
                status: *status,
                job_id: clone_text(job_id),
                error: clone_text(error),
            },
            EventPayload::Observation(record) => EventPayload::Observation(record.clone()),
        }
    }
}

/// Something that happened to a run.
#[derive(Debug, PartialEq, Eq)]
pub struct EventRow {
    pub run_id: String,
    pub at: Timestamp,
    pub kind: String,
    pub payload: EventPayload,
}

/// What a `EventRow` says.
pub struct EventRowView {
    pub run_id: Seq<char>,
    pub at: Timestamp,
    pub kind: Seq<char>,
    pub payload: EventPayloadView,
}

impl View for EventRow {
    type V = EventRowView;

    open spec fn view(&self) -> EventRowView {
        EventRowView {
            run_id: self.run_id@,
            at: self.at,
            kind: self.kind@,
            payload: self.payload@,
        }
    }
}

impl DeepView for EventRow {
    type V = EventRowView;

    open spec fn deep_view(&self) -> EventRowView {
        self.view()
    }
}

impl Clone for EventRow {
    fn clone(&self) -> (copy: Self)
        ensures
            copy@ == self@,
    {
        EventRow {
            run_id: self.run_id.clone(),
            at: self.at,
            kind: self.kind.clone(),
            payload: self.payload.clone(),
        }
    }
}

// ---------------------------------------------------------------------------
// The store
// ---------------------------------------------------------------------------

/// The rows of one database, each table in the order of insertion.
pub struct RunStore {
    pub path: String,
    pub legacy_path: String,
    pub runs: Vec<RunRecord>,
    pub attempts: Vec<RunAttemptRecord>,
    pub retries: Vec<RetryIntentRow>,
    pub events: Vec<EventRow>,
    pub observations: Vec<ObservationRecord>,
    pub deliveries: Vec<DeliveryRow>,
    pub bindings: Vec<BindingRow>,
    pub leases: Vec<LeaseRow>,
    pub invocations: Vec<InvocationRow>,
}

/// What a `RunStore` holds.
#[verifier::ext_equal]
pub struct StoreView {
    pub path: Seq<char>,
    pub legacy_path: Seq<char>,
    pub runs: Seq<RunRecordView>,
    pub attempts: Seq<RunAttemptRecordView>,
    pub retries: Seq<RetryIntentRowView>,
    pub events: Seq<EventRowView>,
    pub observations: Seq<ObservationRecordView>,
    pub deliveries: Seq<DeliveryRowView>,
    pub bindings: Seq<BindingRowView>,
    pub leases: Seq<LeaseRowView>,
    pub invocations: Seq<InvocationRowView>,
}

impl View for RunStore {
    type V = StoreView;

    open spec fn view(&self) -> StoreView {
        StoreView {
            path: self.path@,
            legacy_path: self.legacy_path@,
            runs: self.runs.deep_view(),
            attempts: self.attempts.deep_view(),
            retries: self.retries.deep_view(),
            events: self.events.deep_view(),
            observations: self.observations.deep_view(),
            deliveries: self.deliveries.deep_view(),
            bindings: self.bindings.deep_view(),
            leases: self.leases.deep_view(),
            invocations: self.invocations.deep_view(),
        }
    }
}

// ---------------------------------------------------------------------------
// Keys
// ---------------------------------------------------------------------------

pub open spec fn by_run(run_id: Seq<char>) -> spec_fn(RunRecordView) -> bool {
    |row: RunRecordView| row.run_id == run_id
}

pub open spec fn by_attempt(run_id: Seq<char>, attempt_no: u32) -> spec_fn(
    RunAttemptRecordView,
) -> bool {
    |row: RunAttemptRecordView| row.run_id == run_id && row.attempt_no == attempt_no
}

pub open spec fn by_request(run_id: Seq<char>, request_id: Seq<char>) -> spec_fn(
    RetryIntentRowView,
) -> bool {
    |row: RetryIntentRowView|
        row.request.run_id == run_id && row.request.request_id == request_id
}

pub open spec fn by_retry_attempt(run_id: Seq<char>, attempt_no: u32) -> spec_fn(
    RetryIntentRowView,
) -> bool {
    |row: RetryIntentRowView| row.request.run_id == run_id && row.attempt_no == attempt_no
}

pub open spec fn by_observed(run_id: Seq<char>, attempt_no: u32) -> spec_fn(
    ObservationRecordView,
) -> bool {
    |row: ObservationRecordView| row.run_id == run_id && row.attempt_no == attempt_no
}

pub open spec fn by_delivery(delivery_id: Seq<char>) -> spec_fn(DeliveryRowView) -> bool {
    |row: DeliveryRowView| row.delivery_id == delivery_id
}

pub open spec fn by_bound(run_id: Seq<char>) -> spec_fn(BindingRowView) -> bool {
    |row: BindingRowView| row.run_id == run_id
}

pub open spec fn by_session(agent_kind: Seq<char>, session_id: Seq<char>) -> spec_fn(
    LeaseRowView,
) -> bool {
    |row: LeaseRowView| row.agent_kind == agent_kind && row.session_id == session_id
}

pub open spec fn by_owned_session(
    agent_kind: Seq<char>,
    session_id: Seq<char>,
    owner: Seq<char>,
) -> spec_fn(LeaseRowView) -> bool {
    |row: LeaseRowView|
        row.agent_kind == agent_kind && row.session_id == session_id && row.owner_instance_id
            == owner
}

pub open spec fn by_invocation(invocation_id: Seq<char>) -> spec_fn(InvocationRowView) -> bool {
    |row: InvocationRowView| row.record.invocation_id == invocation_id
}

pub open spec fn run_key() -> spec_fn(RunRecordView) -> Seq<char> {
    |row: RunRecordView| row.run_id
}

pub open spec fn attempt_key() -> spec_fn(RunAttemptRecordView) -> (Seq<char>, u32) {
    |row: RunAttemptRecordView| (row.run_id, row.attempt_no)
}

pub open spec fn request_key() -> spec_fn(RetryIntentRowView) -> (Seq<char>, Seq<char>) {
    |row: RetryIntentRowView| (row.request.run_id, row.request.request_id)
}

pub open spec fn retry_attempt_key() -> spec_fn(RetryIntentRowView) -> (Seq<char>, u32) {
    |row: RetryIntentRowView| (row.request.run_id, row.attempt_no)
}

pub open spec fn observed_key() -> spec_fn(ObservationRecordView) -> (Seq<char>, u32) {
    |row: ObservationRecordView| (row.run_id, row.attempt_no)
}

pub open spec fn delivery_key() -> spec_fn(DeliveryRowView) -> Seq<char> {
    |row: DeliveryRowView| row.delivery_id
}

pub open spec fn bound_key() -> spec_fn(BindingRowView) -> Seq<char> {
    |row: BindingRowView| row.run_id
}

pub open spec fn session_key() -> spec_fn(LeaseRowView) -> (Seq<char>, Seq<char>) {
    |row: LeaseRowView| (row.agent_kind, row.session_id)
}

pub open spec fn invocation_key() -> spec_fn(InvocationRowView) -> Seq<char> {
    |row: InvocationRowView| row.record.invocation_id
}

impl StoreView {
    pub open spec fn run(self, run_id: Seq<char>) -> Option<RunRecordView> {
        seqs::first(self.runs, by_run(run_id))
    }

    pub open spec fn attempt(self, run_id: Seq<char>, attempt_no: u32) -> Option<
        RunAttemptRecordView,
    > {
        seqs::first(self.attempts, by_attempt(run_id, attempt_no))
    }

    pub open spec fn binding(self, run_id: Seq<char>) -> Option<ContinuationBindingView> {
        match seqs::first(self.bindings, by_bound(run_id)) {
            Some(row) => Some(row.binding),
            None => None,
        }
    }

    pub open spec fn delivery(self, delivery_id: Seq<char>) -> Option<DeliveryRowView> {
        seqs::first(self.deliveries, by_delivery(delivery_id))
    }

    pub open spec fn lease(self, agent_kind: Seq<char>, session_id: Seq<char>) -> Option<
        LeaseRowView,
    > {
        seqs::first(self.leases, by_session(agent_kind, session_id))
    }

    pub open spec fn invocation(self, invocation_id: Seq<char>) -> Option<InvocationRowView> {
        seqs::first(self.invocations, by_invocation(invocation_id))
    }

    pub open spec fn with_event(
        self,
        run_id: Seq<char>,
        at: Timestamp,
        kind: Seq<char>,
        payload: EventPayloadView,
    ) -> StoreView {
        StoreView {
            events: self.events.push(EventRowView { run_id, at, kind, payload }),
            ..self
        }
    }

    pub open spec fn with_run(self, run: RunRecordView) -> StoreView {
        StoreView { runs: seqs::put(self.runs, by_run(run.run_id), run), ..self }
    }

    pub open spec fn with_attempt(self, attempt: RunAttemptRecordView) -> StoreView {
        StoreView {
            attempts: seqs::put(
                self.attempts,
                by_attempt(attempt.run_id, attempt.attempt_no),
                attempt,
            ),
            ..self
        }
    }

    pub open spec fn with_delivery(self, row: DeliveryRowView) -> StoreView {
        StoreView {
            deliveries: seqs::put(self.deliveries, by_delivery(row.delivery_id), row),
            ..self
        }
    }

    pub open spec fn with_lease(self, row: LeaseRowView) -> StoreView {
        StoreView {
            leases: seqs::put(self.leases, by_session(row.agent_kind, row.session_id), row),
            ..self
        }
    }

    pub open spec fn with_binding(self, row: BindingRowView) -> StoreView {
        StoreView { bindings: seqs::put(self.bindings, by_bound(row.run_id), row), ..self }
    }

    pub open spec fn with_observation(self, row: ObservationRecordView) -> StoreView {
        StoreView {
            observations: seqs::put(
                self.observations,
                by_observed(row.run_id, row.attempt_no),
                row,
            ),
            ..self
        }
    }

    pub open spec fn with_invocation(self, row: InvocationRowView) -> StoreView {
        StoreView {
            invocations: seqs::put(
                self.invocations,
                by_invocation(row.record.invocation_id),
                row,
            ),
            ..self
        }
    }

    pub open spec fn without_lease(
        self,
        agent_kind: Seq<char>,
        session_id: Seq<char>,
        owner: Seq<char>,
    ) -> StoreView {
        StoreView {
            leases: seqs::removed(self.leases, by_owned_session(agent_kind, session_id, owner)),
            ..self
        }
    }

    /// No key occurs twice in a table, and every lease ends at a moment that
    /// has a date.
    pub open spec fn sound(self) -> bool {
        &&& self.keyed()
        &&& self.dated()
    }

    pub open spec fn dated(self) -> bool {
        forall|i: int|
            0 <= i < self.leases.len() ==> (#[trigger] self.leases[i]).expires_at.dated()
    }

    pub open spec fn keyed(self) -> bool {
        &&& seqs::unique(self.runs, run_key())
        &&& seqs::unique(self.attempts, attempt_key())
        &&& seqs::unique(self.retries, request_key())
        &&& seqs::unique(self.retries, retry_attempt_key())
        &&& seqs::unique(self.observations, observed_key())
        &&& seqs::unique(self.deliveries, delivery_key())
        &&& seqs::unique(self.bindings, bound_key())
        &&& seqs::unique(self.leases, session_key())
        &&& seqs::unique(self.invocations, invocation_key())
    }
}

// ---------------------------------------------------------------------------
// Access to single rows
// ---------------------------------------------------------------------------

impl RunStore {
    pub(crate) fn find_run(&self, run_id: &str) -> (at: usize)
        ensures
            at <= self.runs@.len(),
            at == seqs::until(self@.runs, by_run(run_id@)),
            at < self.runs@.len() ==> by_run(run_id@)(self@.runs[at as int]),
    {
        let test = |row: &RunRecord| -> (yes: bool)
            ensures
                yes == by_run(run_id@)(row.deep_view()),
            {
                same(row.run_id.as_str(), run_id)
            };
        position(&self.runs, test, Ghost(by_run(run_id@)))
    }

    pub(crate) fn find_attempt(&self, run_id: &str, attempt_no: u32) -> (at: usize)
        ensures
            at <= self.attempts@.len(),
            at == seqs::until(self@.attempts, by_attempt(run_id@, attempt_no)),
            at < self.attempts@.len() ==> by_attempt(run_id@, attempt_no)(self@.attempts[at as int]),
    {
        let test = |row: &RunAttemptRecord| -> (yes: bool)
            ensures
                yes == by_attempt(run_id@, attempt_no)(row.deep_view()),
            {
                row.attempt_no == attempt_no
                    && same(row.run_id.as_str(), run_id)
            };
        position(&self.attempts, test, Ghost(by_attempt(run_id@, attempt_no)))
    }

    pub(crate) fn find_request(&self, run_id: &str, request_id: &str) -> (at: usize)
        ensures
            at <= self.retries@.len(),
            at == seqs::until(self@.retries, by_request(run_id@, request_id@)),
            at < self.retries@.len() ==> by_request(run_id@, request_id@)(self@.retries[at as int]),
    {
        let test = |row: &RetryIntentRow| -> (yes: bool)
            ensures
                yes == by_request(run_id@, request_id@)(row.deep_view()),
            {
                same(row.request.run_id.as_str(), run_id)
                    && same(row.request.request_id.as_str(), request_id)
            };
        position(&self.retries, test, Ghost(by_request(run_id@, request_id@)))
    }

    pub(crate) fn find_retry_attempt(&self, run_id: &str, attempt_no: u32) -> (at: usize)
        ensures
            at <= self.retries@.len(),
            at == seqs::until(self@.retries, by_retry_attempt(run_id@, attempt_no)),
            at < self.retries@.len() ==> by_retry_attempt(run_id@, attempt_no)(self@.retries[at as int]),
    {
        let test = |row: &RetryIntentRow| -> (yes: bool)
            ensures
                yes == by_retry_attempt(run_id@, attempt_no)(row.deep_view()),
            {
                row.attempt_no == attempt_no
                    && same(row.request.run_id.as_str(), run_id)
            };
        position(&self.retries, test, Ghost(by_retry_attempt(run_id@, attempt_no)))
    }

    pub(crate) fn find_observation(&self, run_id: &str, attempt_no: u32) -> (at: usize)
        ensures
            at <= self.observations@.len(),
            at == seqs::until(self@.observations, by_observed(run_id@, attempt_no)),
            at < self.observations@.len() ==> by_observed(run_id@, attempt_no)(self@.observations[at as int]),
    {
        let test = |row: &ObservationRecord| -> (yes: bool)
            ensures
                yes == by_observed(run_id@, attempt_no)(row.deep_view()),
            {
                row.attempt_no == attempt_no
                    && same(row.run_id.as_str(), run_id)
            };
        position(&self.observations, test, Ghost(by_observed(run_id@, attempt_no)))
    }

    pub(crate) fn find_delivery(&self, delivery_id: &str) -> (at: usize)
        ensures
            at <= self.deliveries@.len(),
            at == seqs::until(self@.deliveries, by_delivery(delivery_id@)),
            at < self.deliveries@.len() ==> by_delivery(delivery_id@)(self@.deliveries[at as int]),
    {
        let test = |row: &DeliveryRow| -> (yes: bool)
            ensures
                yes == by_delivery(delivery_id@)(row.deep_view()),
            {
                same(row.delivery_id.as_str(), delivery_id)
            };
        position(&self.deliveries, test, Ghost(by_delivery(delivery_id@)))
    }

    pub(crate) fn find_binding(&self, run_id: &str) -> (at: usize)
        ensures
            at <= self.bindings@.len(),
            at == seqs::until(self@.bindings, by_bound(run_id@)),
            at < self.bindings@.len() ==> by_bound(run_id@)(self@.bindings[at as int]),
    {
        let test = |row: &BindingRow| -> (yes: bool)
            ensures
                yes == by_bound(run_id@)(row.deep_view()),
            {
                same(row.run_id.as_str(), run_id)
            };
        position(&self.bindings, test, Ghost(by_bound(run_id@)))
    }

    pub(crate) fn find_lease(&self, agent_kind: &str, session_id: &str) -> (at: usize)
        ensures
            at <= self.leases@.len(),
            at == seqs::until(self@.leases, by_session(agent_kind@, session_id@)),
            at < self.leases@.len() ==> by_session(agent_kind@, session_id@)(self@.leases[at as int]),
    {
        let test = |row: &LeaseRow| -> (yes: bool)
            ensures
                yes == by_session(agent_kind@, session_id@)(row.deep_view()),
            {
                same(row.agent_kind.as_str(), agent_kind)
                    && same(row.session_id.as_str(), session_id)
            };
        position(&self.leases, test, Ghost(by_session(agent_kind@, session_id@)))
    }

    pub(crate) fn find_owned_lease(&self, agent_kind: &str, session_id: &str, owner: &str) -> (at: usize)
        ensures
            at <= self.leases@.len(),
            at == seqs::until(self@.leases, by_owned_session(agent_kind@, session_id@, owner@)),
            at < self.leases@.len() ==> by_owned_session(agent_kind@, session_id@, owner@)(self@.leases[at as int]),
    {
        let test = |row: &LeaseRow| -> (yes: bool)
            ensures
                yes == by_owned_session(agent_kind@, session_id@, owner@)(row.deep_view()),
            {
                same(row.agent_kind.as_str(), agent_kind)
                    && same(row.session_id.as_str(), session_id)
                    && same(row.owner_instance_id.as_str(), owner)
            };
        position(&self.leases, test, Ghost(by_owned_session(agent_kind@, session_id@, owner@)))
    }

    pub(crate) fn find_invocation(&self, invocation_id: &str) -> (at: usize)
        ensures
            at <= self.invocations@.len(),
            at == seqs::until(self@.invocations, by_invocation(invocation_id@)),
            at < self.invocations@.len() ==> by_invocation(invocation_id@)(self@.invocations[at as int]),
    {
        let test = |row: &InvocationRow| -> (yes: bool)
            ensures
                yes == by_invocation(invocation_id@)(row.deep_view()),
            {
                same(row.record.invocation_id.as_str(), invocation_id)
            };
        position(&self.invocations, test, Ghost(by_invocation(invocation_id@)))
    }

    pub(crate) fn put_run(&mut self, run: RunRecord)
        ensures
            final(self)@ == old(self)@.with_run(run@),
            old(self)@.sound() ==> final(self)@.sound(),
    {
        let at = self.find_run(run.run_id.as_str());
        proof {
            seqs::lemma_put_unique(self@.runs, by_run(run@.run_id), run@, run_key());
        }
        if at < self.runs.len() {
            self.runs.set(at, run);
            proof {
                seqs::lemma_deep_update(old(self).runs, self.runs, at as int, run);
            }
        } else {
            self.runs.push(run);
            proof {
                seqs::lemma_deep_push(old(self).runs, self.runs, run);
            }
        }
        assert(self@ =~= old(self)@.with_run(run@));
    }

    pub(crate) fn put_attempt(&mut self, attempt: RunAttemptRecord)
        ensures
            final(self)@ == old(self)@.with_attempt(attempt@),
            old(self)@.sound() ==> final(self)@.sound(),
    {
        let at = self.find_attempt(attempt.run_id.as_str(), attempt.attempt_no);
        proof {
            seqs::lemma_put_unique(self@.attempts, by_attempt(attempt@.run_id, attempt@.attempt_no), attempt@, attempt_key());
        }
        if at < self.attempts.len() {
            self.attempts.set(at, attempt);
            proof {
                seqs::lemma_deep_update(old(self).attempts, self.attempts, at as int, attempt);
            }
        } else {
            self.attempts.push(attempt);
            proof {
                seqs::lemma_deep_push(old(self).attempts, self.attempts, attempt);
            }
        }
        assert(self@ =~= old(self)@.with_attempt(attempt@));
    }

    pub(crate) fn put_delivery(&mut self, row: DeliveryRow)
        ensures
            final(self)@ == old(self)@.with_delivery(row@),
            old(self)@.sound() ==> final(self)@.sound(),
    {
        let at = self.find_delivery(row.delivery_id.as_str());
        proof {
            seqs::lemma_put_unique(self@.deliveries, by_delivery(row@.delivery_id), row@, delivery_key());
        }
        if at < self.deliveries.len() {
            self.deliveries.set(at, row);
            proof {
                seqs::lemma_deep_update(old(self).deliveries, self.deliveries, at as int, row);
            }
        } else {
            self.deliveries.push(row);
            proof {
                seqs::lemma_deep_push(old(self).deliveries, self.deliveries, row);
            }
        }
        assert(self@ =~= old(self)@.with_delivery(row@));
    }

    pub(crate) fn put_lease(&mut self, row: LeaseRow)
        ensures
            final(self)@ == old(self)@.with_lease(row@),
            old(self)@.sound() && row.expires_at.dated() ==> final(self)@.sound(),
    {
        let at = self.find_lease(row.agent_kind.as_str(), row.session_id.as_str());
        proof {
            seqs::lemma_put_unique(self@.leases, by_session(row@.agent_kind, row@.session_id), row@, session_key());
        }
        if at < self.leases.len() {
            self.leases.set(at, row);
            proof {
                seqs::lemma_deep_update(old(self).leases, self.leases, at as int, row);
            }
        } else {
            self.leases.push(row);
            proof {
                seqs::lemma_deep_push(old(self).leases, self.leases, row);
            }
        }
        assert(self@ =~= old(self)@.with_lease(row@));
    }

    pub(crate) fn put_binding(&mut self, row: BindingRow)
        ensures
            final(self)@ == old(self)@.with_binding(row@),
            old(self)@.sound() ==> final(self)@.sound(),
    {
        let at = self.find_binding(row.run_id.as_str());
        proof {
            seqs::lemma_put_unique(self@.bindings, by_bound(row@.run_id), row@, bound_key());
        }
        if at < self.bindings.len() {
            self.bindings.set(at, row);
            proof {
                seqs::lemma_deep_update(old(self).bindings, self.bindings, at as int, row);
            }
        } else {
            self.bindings.push(row);
            proof {
                seqs::lemma_deep_push(old(self).bindings, self.bindings, row);
            }
        }
        assert(self@ =~= old(self)@.with_binding(row@));
    }

    pub(crate) fn put_observation(&mut self, row: ObservationRecord)
        ensures
            final(self)@ == old(self)@.with_observation(row@),
            old(self)@.sound() ==> final(self)@.sound(),
    {
        let at = self.find_observation(row.run_id.as_str(), row.attempt_no);
        proof {
            seqs::lemma_put_unique(self@.observations, by_observed(row@.run_id, row@.attempt_no), row@, observed_key());
        }
        if at < self.observations.len() {
            self.observations.set(at, row);
            proof {
                seqs::lemma_deep_update(old(self).observations, self.observations, at as int, row);
            }
        } else {
            self.observations.push(row);
            proof {
                seqs::lemma_deep_push(old(self).observations, self.observations, row);
            }
        }
        assert(self@ =~= old(self)@.with_observation(row@));
    }

    pub(crate) fn put_invocation(&mut self, row: InvocationRow)
        ensures
            final(self)@ == old(self)@.with_invocation(row@),
            old(self)@.sound() ==> final(self)@.sound(),
    {
        let at = self.find_invocation(row.record.invocation_id.as_str());
        proof {
            seqs::lemma_put_unique(self@.invocations, by_invocation(row@.record.invocation_id), row@, invocation_key());
        }
        if at < self.invocations.len() {
            self.invocations.set(at, row);
            proof {
                seqs::lemma_deep_update(old(self).invocations, self.invocations, at as int, row);
            }
        } else {
            self.invocations.push(row);
            proof {
                seqs::lemma_deep_push(old(self).invocations, self.invocations, row);
            }
        }
        assert(self@ =~= old(self)@.with_invocation(row@));
    }

    pub(crate) fn drop_lease(&mut self, agent_kind: &str, session_id: &str, owner: &str) -> (gone:
        bool)
        ensures
            gone == seqs::present(
                old(self)@.leases,
                by_owned_session(agent_kind@, session_id@, owner@),
            ),
            final(self)@ == old(self)@.without_lease(agent_kind@, session_id@, owner@),
            old(self)@.sound() ==> final(self)@.sound(),
    {
        let at = self.find_owned_lease(agent_kind, session_id, owner);
        proof {
            seqs::lemma_removed_unique(
                self@.leases,
                by_owned_session(agent_kind@, session_id@, owner@),
                session_key(),
            );
        }
        if at < self.leases.len() {
            let _ = self.leases.remove(at);
            proof {
                seqs::lemma_deep_remove(old(self).leases, self.leases, at as int);
            }
            assert(self@ =~= old(self)@.without_lease(agent_kind@, session_id@, owner@));
            true
        } else {
            assert(self@ =~= old(self)@.without_lease(agent_kind@, session_id@, owner@));
            false
        }
    }

    pub(crate) fn add_event(
        &mut self,
        run_id: String,
        at: Timestamp,
        kind: String,
        payload: EventPayload,
    )
        ensures
            final(self)@ == old(self)@.with_event(run_id@, at, kind@, payload@),
            old(self)@.sound() ==> final(self)@.sound(),
    {
        let row = EventRow { run_id, at, kind, payload };
        self.events.push(row);
        proof {
            seqs::lemma_deep_push(old(self).events, self.events, row);
        }
        assert(self@ =~= old(self)@.with_event(run_id@, at, kind@, payload@));
    }
}

} // verus!
