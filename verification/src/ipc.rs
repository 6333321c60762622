//! What the daemon is asked by its local clients, and what it answers.
use crate::paths;
use crate::paths::join_path;
use crate::paths::PathStyle;
use crate::seqs;
use crate::store;
use crate::store::deliveries;
use crate::store::offline;
use crate::store::runs;
use crate::store::{DeliveryState, RunStore, StoreView};
use crate::text;
use crate::text::{blank, decimal_text, same, signed_decimal_text};
use crate::time::Timestamp;
use crate::types::{
    AgentSessionRegistration, AgentSessionRegistrationView, ClaimedDelivery, ClaimedDeliveryView,
    ContinuationBinding, ContinuationBindingView, DeliveryStatusSummary, ObservationRecord,
    ObservationRecordView, RunRecord, RunRecordView, SubmitRunSpec, SubmitRunSpecView,
};
pub mod frames;
pub mod laws;

use vstd::prelude::*;
use vstd::string::*;

verus! {

pub const PROTOCOL_VERSION: u32 = 1;

/// The largest request, in bytes.
pub const MAX_REQUEST_BYTES: usize = 262_144;

/// The pipe on which the daemon listens on Windows.
pub const ENDPOINT: &'static str = "\\\\.\\pipe\\runwatch-v1";

/// The socket on which it listens elsewhere, in the data directory.
pub const ENDPOINT_NAME: &'static str = "runwatch-v1.sock";

/// For how many seconds a session is registered.
pub const SESSION_TTL: u64 = 35;

/// How many notices are handed out where the request does not say.
pub const DEFAULT_CLAIM: usize = 8;

/// What is asked of the daemon.
#[derive(Debug)]
pub struct Request {
    pub id: String,
    pub op: String,
    pub run_id: Option<String>,
    pub run: Option<RunRecord>,
    pub spec: Option<SubmitRunSpec>,
    pub registration: Option<AgentSessionRegistration>,
    pub binding: Option<ContinuationBinding>,
    pub agent_kind: Option<String>,
    pub session_id: Option<String>,
    pub owner_instance_id: Option<String>,
    pub delivery_id: Option<String>,
    pub invocation_id: Option<String>,
    pub outcome: Option<String>,
    pub error: Option<String>,
    pub limit: Option<usize>,
    pub tail: Option<usize>,
    pub timeout_sec: Option<u64>,
    pub paused: Option<bool>,
}

/// What a `Request` says.
pub struct RequestView {
    pub id: Seq<char>,
    pub op: Seq<char>,
    pub run_id: Option<Seq<char>>,
    pub run: Option<RunRecordView>,
    pub spec: Option<SubmitRunSpecView>,
    pub registration: Option<AgentSessionRegistrationView>,
    pub binding: Option<ContinuationBindingView>,
    pub agent_kind: Option<Seq<char>>,
    pub session_id: Option<Seq<char>>,
    pub owner_instance_id: Option<Seq<char>>,
    pub delivery_id: Option<Seq<char>>,
    pub invocation_id: Option<Seq<char>>,
    pub outcome: Option<Seq<char>>,
    pub error: Option<Seq<char>>,
    pub limit: Option<usize>,
    pub tail: Option<usize>,
    pub timeout_sec: Option<u64>,
    pub paused: Option<bool>,
}

impl View for Request {
    type V = RequestView;

    open spec fn view(&self) -> RequestView {
        RequestView {
            id: self.id@,
            op: self.op@,
            run_id: text::text_opt(self.run_id),
            run: self.run.deep_view(),
            spec: self.spec.deep_view(),
            registration: self.registration.deep_view(),
            binding: self.binding.deep_view(),
            agent_kind: text::text_opt(self.agent_kind),
            session_id: text::text_opt(self.session_id),
            owner_instance_id: text::text_opt(self.owner_instance_id),
            delivery_id: text::text_opt(self.delivery_id),
            invocation_id: text::text_opt(self.invocation_id),
            outcome: text::text_opt(self.outcome),
            error: text::text_opt(self.error),
            limit: self.limit,
            tail: self.tail,
            timeout_sec: self.timeout_sec,
            paused: self.paused,
        }
    }
}

impl DeepView for Request {
    type V = RequestView;

    open spec fn deep_view(&self) -> RequestView {
        self.view()
    }
}

/// What the daemon is and what it can do.
#[derive(Debug)]
pub struct Hello {
    pub protocol_version: u32,
    pub service: String,
    pub storage: String,
    pub capabilities: Vec<String>,
}

/// What a `Hello` says.
pub struct HelloView {
    pub protocol_version: u32,
    pub service: Seq<char>,
    pub storage: Seq<char>,
    pub capabilities: Seq<Seq<char>>,
}

impl View for Hello {
    type V = HelloView;

    open spec fn view(&self) -> HelloView {
        HelloView {
            protocol_version: self.protocol_version,
            service: self.service@,
            storage: self.storage@,
            capabilities: self.capabilities.deep_view(),
        }
    }
}

impl DeepView for Hello {
    type V = HelloView;

    open spec fn deep_view(&self) -> HelloView {
        self.view()
    }
}

pub open spec fn status_operations() -> Seq<Seq<char>> {
    seq![
        "hello"@,
        "daemon_status"@,
        "set_paused"@,
        "list_runs"@,
        "get_run"@,
        "get_observation"@,
        "adopt_run_v1"@,
    ]
}

pub open spec fn run_operations() -> Seq<Seq<char>> {
    seq![
        "tick"@,
        "wait_run"@,
        "submit_run_v2"@,
        "logs"@,
        "artifacts"@,
        "cancel_run"@,
    ]
}

pub open spec fn session_operations() -> Seq<Seq<char>> {
    seq![
        "register_agent_session"@,
        "release_agent_session"@,
        "claim_deliveries"@,
        "delivery_status"@,
        "ack_delivery"@,
        "rebind_continuation"@,
    ]
}

pub open spec fn offline_operations() -> Seq<Seq<char>> {
    seq![
        "verify_offline_invocation"@,
        "offline_pi_continuation"@,
        "offline_codex_continuation"@,
    ]
}

/// What the daemon can do.
pub open spec fn all_operations() -> Seq<Seq<char>> {
    status_operations() + run_operations() + session_operations() + offline_operations()
}

pub open spec fn greeting() -> HelloView {
    HelloView {
        protocol_version: PROTOCOL_VERSION,
        service: "runwatchd"@,
        storage: "sqlite-wal"@,
        capabilities: all_operations(),
    }
}

fn push_status_operations(list: &mut Vec<String>)
    ensures
        final(list).deep_view() == old(list).deep_view() + status_operations(),
{
    assert(list.deep_view().len() == list@.len());
    list.push("hello".to_owned());
    list.push("daemon_status".to_owned());
    list.push("set_paused".to_owned());
    list.push("list_runs".to_owned());
    list.push("get_run".to_owned());
    list.push("get_observation".to_owned());
    list.push("adopt_run_v1".to_owned());
    assert(list.deep_view() =~= old(list).deep_view() + status_operations());
}

fn push_run_operations(list: &mut Vec<String>)
    ensures
        final(list).deep_view() == old(list).deep_view() + run_operations(),
{
    assert(list.deep_view().len() == list@.len());
    list.push("tick".to_owned());
    list.push("wait_run".to_owned());
    list.push("submit_run_v2".to_owned());
    list.push("logs".to_owned());
    list.push("artifacts".to_owned());
    list.push("cancel_run".to_owned());
    assert(list.deep_view() =~= old(list).deep_view() + run_operations());
}

fn push_session_operations(list: &mut Vec<String>)
    ensures
        final(list).deep_view() == old(list).deep_view() + session_operations(),
{
    assert(list.deep_view().len() == list@.len());
    list.push("register_agent_session".to_owned());
    list.push("release_agent_session".to_owned());
    list.push("claim_deliveries".to_owned());
    list.push("delivery_status".to_owned());
    list.push("ack_delivery".to_owned());
    list.push("rebind_continuation".to_owned());
    assert(list.deep_view() =~= old(list).deep_view() + session_operations());
}

fn push_offline_operations(list: &mut Vec<String>)
    ensures
        final(list).deep_view() == old(list).deep_view() + offline_operations(),
{
    assert(list.deep_view().len() == list@.len());
    list.push("verify_offline_invocation".to_owned());
    list.push("offline_pi_continuation".to_owned());
    list.push("offline_codex_continuation".to_owned());
    assert(list.deep_view() =~= old(list).deep_view() + offline_operations());
}

fn greet() -> (hello: Hello)
    ensures
        hello@ == greeting(),
{
    let mut capabilities: Vec<String> = Vec::new();
    assert(capabilities.deep_view() =~= Seq::<Seq<char>>::empty());
    push_status_operations(&mut capabilities);
    push_run_operations(&mut capabilities);
    push_session_operations(&mut capabilities);
    push_offline_operations(&mut capabilities);
    assert(capabilities.deep_view() =~= all_operations());
    Hello {
        protocol_version: PROTOCOL_VERSION,
        service: "runwatchd".to_owned(),
        storage: "sqlite-wal".to_owned(),
        capabilities,
    }
}

/// What the daemon answers to a request that it does itself.
#[derive(Debug)]
pub enum Reply {
    Hello(Hello),
    DaemonStatus { paused: bool, pid: u32 },
    Paused(bool),
    Runs { runs: Vec<RunRecord>, observations: Vec<ObservationRecord> },
    Run { run: Option<RunRecord>, observation: Option<ObservationRecord> },
    Observation(Option<ObservationRecord>),
    Adopted(RunRecord),
    Rebound { reset_deliveries: u32 },
    Registered { expires_at: Timestamp },
    Released(bool),
    Deliveries(Vec<ClaimedDelivery>),
    Status(DeliveryStatusSummary),
    Owned(bool),
    Updated(bool),
}

/// What a `Reply` says.
pub enum ReplyView {
    Hello(HelloView),
    DaemonStatus { paused: bool, pid: u32 },
    Paused(bool),
    Runs { runs: Seq<RunRecordView>, observations: Seq<ObservationRecordView> },
    Run { run: Option<RunRecordView>, observation: Option<ObservationRecordView> },
    Observation(Option<ObservationRecordView>),
    Adopted(RunRecordView),
    Rebound { reset_deliveries: nat },
    Registered { expires_at: Timestamp },
    Released(bool),
    Deliveries(Seq<ClaimedDeliveryView>),
    Status { pending: nat, delivering: nat, retrying: nat, needs_rebind: nat },
    Owned(bool),
    Updated(bool),
}

impl View for Reply {
    type V = ReplyView;

    open spec fn view(&self) -> ReplyView {
        match *self {
            Reply::Hello(hello) => ReplyView::Hello(hello@),
            Reply::DaemonStatus { paused, pid } => ReplyView::DaemonStatus { paused, pid },
            Reply::Paused(paused) => ReplyView::Paused(paused),
            Reply::Runs { runs, observations } => ReplyView::Runs {
                runs: runs.deep_view(),
                observations: observations.deep_view(),
            },
            Reply::Run { run, observation } => ReplyView::Run {
                run: run.deep_view(),
                observation: observation.deep_view(),
            },
            Reply::Observation(observation) => ReplyView::Observation(observation.deep_view()),
            Reply::Adopted(run) => ReplyView::Adopted(run@),
            Reply::Rebound { reset_deliveries } => ReplyView::Rebound {
                reset_deliveries: reset_deliveries as nat,
            },
            Reply::Registered { expires_at } => ReplyView::Registered { expires_at },
            Reply::Released(released) => ReplyView::Released(released),
            Reply::Deliveries(claimed) => ReplyView::Deliveries(claimed.deep_view()),
            Reply::Status(summary) => ReplyView::Status {
                pending: summary.pending as nat,
                delivering: summary.delivering as nat,
                retrying: summary.retrying as nat,
                needs_rebind: summary.needs_rebind as nat,
            },
            Reply::Owned(owned) => ReplyView::Owned(owned),
            Reply::Updated(updated) => ReplyView::Updated(updated),
        }
    }
}

/// The answer to a request: what was asked for, or why it is refused.
#[derive(Debug)]
pub struct Response {
    pub id: String,
    pub ok: bool,
    pub result: Option<Reply>,
    pub error: Option<String>,
}

impl Response {
    /// Whether this is the answer to the request of that name.
    pub open spec fn says(self, id: Seq<char>, answer: Result<ReplyView, Seq<char>>) -> bool {
        &&& self.id@ == id
        &&& match answer {
            Ok(reply) => {
                &&& self.ok
                &&& self.error is None
                &&& self.result matches Some(result) && result@ == reply
            },
            Err(reason) => {
                &&& !self.ok
                &&& self.result is None
                &&& self.error matches Some(error) && error@ == reason
            },
        }
    }

    pub fn ok(id: String, result: Reply) -> (response: Response)
        ensures
            response.says(id@, Ok(result@)),
    {
        Response { id, ok: true, result: Some(result), error: None }
    }

    pub fn error(id: String, error: String) -> (response: Response)
        ensures
            response.says(id@, Err(error@)),
    {
        Response { id, ok: false, result: None, error: Some(error) }
    }
}

pub fn hello_response(id: String) -> (response: Response)
    ensures
        response.says(id@, Ok(ReplyView::Hello(greeting()))),
{
    Response::ok(id, Reply::Hello(greet()))
}

pub fn unsupported_response(id: String, op: &str) -> (response: Response)
    ensures
        response.says(id@, Err("unsupported operation "@ + op@)),
{
    let mut reason = "unsupported operation ".to_owned();
    reason.append(op);
    Response::error(id, reason)
}

// ---------------------------------------------------------------------------
// What the daemon does itself
// ---------------------------------------------------------------------------

/// An answer, and the daemon after it.
pub struct Control {
    pub answer: Result<ReplyView, Seq<char>>,
    pub store: StoreView,
    pub paused: bool,
}

pub open spec fn told(s: StoreView, paused: bool, reply: ReplyView) -> Control {
    Control { answer: Ok(reply), store: s, paused }
}

pub open spec fn refused(s: StoreView, paused: bool, reason: Seq<char>) -> Control {
    Control { answer: Err(reason), store: s, paused }
}

/// The observation of the attempt that a run is in, where it says which.
pub open spec fn run_observation(s: StoreView, run: Option<RunRecordView>) -> Option<
    ObservationRecordView,
> {
    match run {
        Some(run) => match run.attempt_no {
            Some(number) => seqs::first(s.observations, store::by_observed(run.run_id, number)),
            None => None,
        },
        None => None,
    }
}

pub open spec fn get_run_answer(s: StoreView, paused: bool, request: RequestView) -> Control {
    match request.run_id {
        None => refused(s, paused, "get_run requires run_id"@),
        Some(run_id) => told(
            s,
            paused,
            ReplyView::Run {
                run: s.run(run_id),
                observation: run_observation(s, s.run(run_id)),
            },
        ),
    }
}

pub open spec fn get_observation_answer(s: StoreView, paused: bool, request: RequestView) -> Control {
    match request.run_id {
        None => refused(s, paused, "get_observation requires run_id"@),
        Some(run_id) => match s.run(run_id) {
            None => refused(s, paused, "unknown run "@ + run_id),
            Some(run) => told(
                s,
                paused,
                ReplyView::Observation(run_observation(s, Some(run))),
            ),
        },
    }
}

pub open spec fn adopt_answer(s: StoreView, paused: bool, request: RequestView) -> Control {
    match request.run {
        None => refused(s, paused, "adopt_run_v1 requires run"@),
        Some(run) => if text::is_blank(run.run_id) || text::is_blank(run.host) {
            refused(s, paused, "adopt_run_v1 requires non-empty run_id and host"@)
        } else {
            told(s.with_run(run), paused, ReplyView::Adopted(run))
        },
    }
}

pub open spec fn rebind_answer(s: StoreView, paused: bool, request: RequestView, now: Timestamp) -> Control {
    match (request.run_id, request.binding) {
        (None, _) => refused(s, paused, "rebind_continuation requires run_id"@),
        (_, None) => refused(s, paused, "rebind_continuation requires binding"@),
        (Some(run_id), Some(binding)) => match deliveries::rebind_refusal(s, run_id) {
            Some(reason) => refused(s, paused, reason),
            None => told(
                deliveries::rebound(s, run_id, binding, now),
                paused,
                ReplyView::Rebound {
                    reset_deliveries: deliveries::blocked_count(s.deliveries, run_id),
                },
            ),
        },
    }
}

pub open spec fn register_answer(
    s: StoreView,
    paused: bool,
    request: RequestView,
    now: Timestamp,
) -> Control {
    match request.registration {
        None => refused(s, paused, "register_agent_session requires registration"@),
        Some(registration) => match deliveries::lease_conflict(s, registration, now) {
            Some(reason) => refused(s, paused, reason),
            None => {
                let until = now.plus(deliveries::lease_seconds(SESSION_TTL));
                told(
                    s.with_lease(deliveries::lease_of(registration, until)),
                    paused,
                    ReplyView::Registered { expires_at: until },
                )
            },
        },
    }
}

/// The instance that a request is from: its agent, its session and itself.
pub open spec fn asker(request: RequestView) -> Option<(Seq<char>, Seq<char>, Seq<char>)> {
    match (request.agent_kind, request.session_id, request.owner_instance_id) {
        (Some(agent_kind), Some(session_id), Some(owner)) => Some((agent_kind, session_id, owner)),
        _ => None,
    }
}

pub open spec fn release_answer(s: StoreView, paused: bool, request: RequestView) -> Control {
    match asker(request) {
        None => refused(
            s,
            paused,
            "release_agent_session requires agent_kind, session_id, owner_instance_id"@,
        ),
        Some((agent_kind, session_id, owner)) => told(
            s.without_lease(agent_kind, session_id, owner),
            paused,
            ReplyView::Released(
                seqs::present(s.leases, store::by_owned_session(agent_kind, session_id, owner)),
            ),
        ),
    }
}

pub open spec fn claim_answer(s: StoreView, paused: bool, request: RequestView, now: Timestamp) -> Control {
    match asker(request) {
        None => refused(
            s,
            paused,
            "claim_deliveries requires agent_kind, session_id, owner_instance_id"@,
        ),
        Some((agent_kind, session_id, owner)) => match deliveries::lease_refusal(
            s,
            agent_kind,
            session_id,
            owner,
            now,
        ) {
            Some(reason) => refused(s, paused, reason),
            None => {
                let limit = match request.limit {
                    Some(limit) => limit,
                    None => DEFAULT_CLAIM,
                };
                let ready = deliveries::requeued(s, now);
                let walk = deliveries::claim_walk(
                    ready.deliveries,
                    agent_kind,
                    session_id,
                    deliveries::claim_limit(limit),
                    now,
                );
                told(
                    StoreView { deliveries: walk.rows, ..ready },
                    paused,
                    ReplyView::Deliveries(walk.taken),
                )
            },
        },
    }
}

pub open spec fn status_answer(s: StoreView, paused: bool, request: RequestView, now: Timestamp) -> Control {
    match asker(request) {
        None => refused(
            s,
            paused,
            "delivery_status requires agent_kind, session_id, owner_instance_id"@,
        ),
        Some((agent_kind, session_id, owner)) => match deliveries::lease_refusal(
            s,
            agent_kind,
            session_id,
            owner,
            now,
        ) {
            Some(reason) => refused(s, paused, reason),
            None => told(
                s,
                paused,
                ReplyView::Status {
                    pending: deliveries::count_state(
                        s.deliveries,
                        agent_kind,
                        session_id,
                        DeliveryState::Pending,
                    ),
                    delivering: deliveries::count_state(
                        s.deliveries,
                        agent_kind,
                        session_id,
                        DeliveryState::Delivering,
                    ),
                    retrying: deliveries::count_state(
                        s.deliveries,
                        agent_kind,
                        session_id,
                        DeliveryState::Retrying,
                    ),
                    needs_rebind: deliveries::count_state(
                        s.deliveries,
                        agent_kind,
                        session_id,
                        DeliveryState::NeedsRebind,
                    ),
                },
            ),
        },
    }
}

pub open spec fn verify_answer(s: StoreView, paused: bool, request: RequestView, now: Timestamp) -> Control {
    match (request.invocation_id, request.delivery_id, request.owner_instance_id) {
        (Some(invocation_id), Some(delivery_id), Some(owner)) => told(
            s,
            paused,
            ReplyView::Owned(offline::still_owned(s, invocation_id, delivery_id, owner, now)),
        ),
        _ => refused(
            s,
            paused,
            "verify_offline_invocation requires invocation_id, delivery_id, owner_instance_id"@,
        ),
    }
}

pub open spec fn ack_answer(s: StoreView, paused: bool, request: RequestView, now: Timestamp) -> Control {
    match (asker(request), request.delivery_id, request.outcome) {
        (Some((agent_kind, session_id, owner)), Some(delivery_id), Some(outcome)) => {
            match deliveries::finish_refusal(
                s,
                agent_kind,
                session_id,
                owner,
                delivery_id,
                outcome,
                now,
            ) {
                Some(reason) => refused(s, paused, reason),
                None => told(
                    if deliveries::finishable(s, delivery_id) {
                        deliveries::finished(s, delivery_id, outcome, request.error, now)
                    } else {
                        s
                    },
                    paused,
                    ReplyView::Updated(deliveries::finishable(s, delivery_id)),
                ),
            }
        },
        _ => refused(
            s,
            paused,
            "ack_delivery requires agent_kind, session_id, owner_instance_id, delivery_id, outcome"@,
        ),
    }
}

/// The answer of a daemon with that ledger and process number.
pub open spec fn control(
    s: StoreView,
    paused: bool,
    pid: u32,
    request: RequestView,
    now: Timestamp,
) -> Control {
    let op = request.op;
    if op == "hello"@ {
        told(s, paused, ReplyView::Hello(greeting()))
    } else if op == "daemon_status"@ {
        told(s, paused, ReplyView::DaemonStatus { paused, pid })
    } else if op == "set_paused"@ {
        match request.paused {
            None => refused(s, paused, "set_paused requires paused"@),
            Some(value) => told(s, value, ReplyView::Paused(value)),
        }
    } else if op == "list_runs"@ {
        told(
            s,
            paused,
            ReplyView::Runs {
                runs: s.runs,
                observations: seqs::stable_sorted(s.observations, runs::earlier_observation()),
            },
        )
    } else if op == "get_run"@ {
        get_run_answer(s, paused, request)
    } else if op == "get_observation"@ {
        get_observation_answer(s, paused, request)
    } else if op == "adopt_run_v1"@ {
        adopt_answer(s, paused, request)
    } else if op == "rebind_continuation"@ {
        rebind_answer(s, paused, request, now)
    } else if op == "register_agent_session"@ {
        register_answer(s, paused, request, now)
    } else if op == "release_agent_session"@ {
        release_answer(s, paused, request)
    } else if op == "claim_deliveries"@ {
        claim_answer(s, paused, request, now)
    } else if op == "delivery_status"@ {
        status_answer(s, paused, request, now)
    } else if op == "verify_offline_invocation"@ {
        verify_answer(s, paused, request, now)
    } else if op == "ack_delivery"@ {
        ack_answer(s, paused, request, now)
    } else {
        refused(s, paused, "unsupported operation "@ + op)
    }
}

/// An answer without its request.
pub open spec fn spoken(result: Result<Reply, String>) -> Result<ReplyView, Seq<char>> {
    match result {
        Ok(reply) => Ok(reply@),
        Err(reason) => Err(reason@),
    }
}

fn refuse(reason: &str) -> (result: Result<Reply, String>)
    ensures
        spoken(result) == Err::<ReplyView, Seq<char>>(reason@),
{
    Err(reason.to_owned())
}

fn find_run_observation(store: &RunStore, run: &RunRecord) -> (seen: Option<ObservationRecord>)
    ensures
        seen.deep_view() == run_observation(store@, Some(run@)),
{
    match run.attempt_no {
        Some(number) => store.get_observation(run.run_id.as_str(), number),
        None => None,
    }
}

fn answer_get_run(request: &Request, store: &RunStore) -> (result: Result<Reply, String>)
    ensures
        spoken(result) == get_run_answer(store@, false, request@).answer,
{
    match &request.run_id {
        None => refuse("get_run requires run_id"),
        Some(run_id) => {
            let run = store.get(run_id.as_str());
            let observation = match &run {
                Some(run) => find_run_observation(store, run),
                None => None,
            };
            Ok(Reply::Run { run, observation })
        },
    }
}

fn answer_get_observation(request: &Request, store: &RunStore) -> (result: Result<Reply, String>)
    ensures
        spoken(result) == get_observation_answer(store@, false, request@).answer,
{
    match &request.run_id {
        None => refuse("get_observation requires run_id"),
        Some(run_id) => match store.get(run_id.as_str()) {
            None => {
                let mut reason = "unknown run ".to_owned();
                reason.append(run_id.as_str());
                Err(reason)
            },
            Some(run) => Ok(Reply::Observation(find_run_observation(store, &run))),
        },
    }
}

fn answer_adopt(request: &Request, store: &mut RunStore) -> (result: Result<Reply, String>)
    ensures
        spoken(result) == adopt_answer(old(store)@, false, request@).answer,
        final(store)@ == adopt_answer(old(store)@, false, request@).store,
        old(store)@.sound() ==> final(store)@.sound(),
{
    match &request.run {
        None => refuse("adopt_run_v1 requires run"),
        Some(run) => {
            if blank(run.run_id.as_str()) || blank(run.host.as_str()) {
                return refuse("adopt_run_v1 requires non-empty run_id and host");
            }
            store.upsert(run);
            Ok(Reply::Adopted(run.clone()))
        },
    }
}

fn answer_rebind(request: &Request, store: &mut RunStore, now: Timestamp) -> (result: Result<
    Reply,
    String,
>)
    requires
        old(store)@.deliveries.len() <= u32::MAX,
    ensures
        spoken(result) == rebind_answer(old(store)@, false, request@, now).answer,
        final(store)@ == rebind_answer(old(store)@, false, request@, now).store,
        old(store)@.sound() ==> final(store)@.sound(),
{
    match (&request.run_id, &request.binding) {
        (None, _) => refuse("rebind_continuation requires run_id"),
        (_, None) => refuse("rebind_continuation requires binding"),
        (Some(run_id), Some(binding)) => match store.rebind_continuation(
            run_id.as_str(),
            binding,
            now,
        ) {
            Ok(reset_deliveries) => Ok(Reply::Rebound { reset_deliveries }),
            Err(reason) => Err(reason),
        },
    }
}

fn answer_register(request: &Request, store: &mut RunStore, now: Timestamp) -> (result: Result<
    Reply,
    String,
>)
    requires
        now.clocked(),
        old(store)@.dated(),
    ensures
        spoken(result) == register_answer(old(store)@, false, request@, now).answer,
        final(store)@ == register_answer(old(store)@, false, request@, now).store,
        old(store)@.sound() ==> final(store)@.sound(),
{
    match &request.registration {
        None => refuse("register_agent_session requires registration"),
        Some(registration) => match store.register_agent_session(registration, SESSION_TTL, now) {
            Ok(expires_at) => Ok(Reply::Registered { expires_at }),
            Err(reason) => Err(reason),
        },
    }
}

fn answer_release(request: &Request, store: &mut RunStore) -> (result: Result<Reply, String>)
    ensures
        spoken(result) == release_answer(old(store)@, false, request@).answer,
        final(store)@ == release_answer(old(store)@, false, request@).store,
        old(store)@.sound() ==> final(store)@.sound(),
{
    match (&request.agent_kind, &request.session_id, &request.owner_instance_id) {
        (Some(agent_kind), Some(session_id), Some(owner)) => Ok(
            Reply::Released(
                store.release_agent_session(
                    agent_kind.as_str(),
                    session_id.as_str(),
                    owner.as_str(),
                ),
            ),
        ),
        _ => refuse("release_agent_session requires agent_kind, session_id, owner_instance_id"),
    }
}

fn answer_claim(request: &Request, store: &mut RunStore, now: Timestamp) -> (result: Result<
    Reply,
    String,
>)
    requires
        now.clocked(),
        deliveries::countable(old(store)@),
    ensures
        spoken(result) == claim_answer(old(store)@, false, request@, now).answer,
        final(store)@ == claim_answer(old(store)@, false, request@, now).store,
        old(store)@.sound() ==> final(store)@.sound(),
{
    match (&request.agent_kind, &request.session_id, &request.owner_instance_id) {
        (Some(agent_kind), Some(session_id), Some(owner)) => {
            let limit: usize = match request.limit {
                Some(limit) => limit,
                None => DEFAULT_CLAIM,
            };
            match store.claim_deliveries(
                agent_kind.as_str(),
                session_id.as_str(),
                owner.as_str(),
                limit,
                now,
            ) {
                Ok(claimed) => Ok(Reply::Deliveries(claimed)),
                Err(reason) => Err(reason),
            }
        },
        _ => refuse("claim_deliveries requires agent_kind, session_id, owner_instance_id"),
    }
}

fn answer_status(request: &Request, store: &RunStore, now: Timestamp) -> (result: Result<
    Reply,
    String,
>)
    requires
        store@.deliveries.len() <= u32::MAX,
    ensures
        spoken(result) == status_answer(store@, false, request@, now).answer,
{
    match (&request.agent_kind, &request.session_id, &request.owner_instance_id) {
        (Some(agent_kind), Some(session_id), Some(owner)) => match store.delivery_status(
            agent_kind.as_str(),
            session_id.as_str(),
            owner.as_str(),
            now,
        ) {
            Ok(summary) => Ok(Reply::Status(summary)),
            Err(reason) => Err(reason),
        },
        _ => refuse("delivery_status requires agent_kind, session_id, owner_instance_id"),
    }
}

fn answer_verify(request: &Request, store: &RunStore, now: Timestamp) -> (result: Result<
    Reply,
    String,
>)
    ensures
        spoken(result) == verify_answer(store@, false, request@, now).answer,
{
    match (&request.invocation_id, &request.delivery_id, &request.owner_instance_id) {
        (Some(invocation_id), Some(delivery_id), Some(owner)) => Ok(
            Reply::Owned(
                store.offline_invocation_is_owned(
                    invocation_id.as_str(),
                    delivery_id.as_str(),
                    owner.as_str(),
                    now,
                ),
            ),
        ),
        _ => refuse(
            "verify_offline_invocation requires invocation_id, delivery_id, owner_instance_id",
        ),
    }
}

fn answer_ack(request: &Request, store: &mut RunStore, now: Timestamp) -> (result: Result<
    Reply,
    String,
>)
    requires
        now.clocked(),
    ensures
        spoken(result) == ack_answer(old(store)@, false, request@, now).answer,
        final(store)@ == ack_answer(old(store)@, false, request@, now).store,
        old(store)@.sound() ==> final(store)@.sound(),
{
    let what = "ack_delivery requires agent_kind, session_id, owner_instance_id, delivery_id, outcome";
    match (&request.agent_kind, &request.session_id, &request.owner_instance_id) {
        (Some(agent_kind), Some(session_id), Some(owner)) => match (
            &request.delivery_id,
            &request.outcome,
        ) {
            (Some(delivery_id), Some(outcome)) => match store.finish_delivery(
                agent_kind.as_str(),
                session_id.as_str(),
                owner.as_str(),
                delivery_id.as_str(),
                outcome.as_str(),
                &request.error,
                now,
            ) {
                Ok(updated) => Ok(Reply::Updated(updated)),
                Err(reason) => Err(reason),
            },
            _ => refuse(what),
        },
        _ => refuse(what),
    }
}

/// Answers what needs no look at a host.
pub fn handle_control_request(
    request: &Request,
    store: &mut RunStore,
    paused: &mut bool,
    pid: u32,
    now: Timestamp,
) -> (response: Response)
    requires
        now.clocked(),
        old(store)@.dated(),
        deliveries::countable(old(store)@),
    ensures
        response.says(
            request@.id,
            control(old(store)@, *old(paused), pid, request@, now).answer,
        ),
        final(store)@ == control(old(store)@, *old(paused), pid, request@, now).store,
        *final(paused) == control(old(store)@, *old(paused), pid, request@, now).paused,
        old(store)@.sound() ==> final(store)@.sound(),
{
    let op = request.op.as_str();
    let id = request.id.clone();
    if same(op, "hello") {
        return hello_response(id);
    }
    let result = if same(op, "daemon_status") {
        Ok(Reply::DaemonStatus { paused: *paused, pid })
    } else if same(op, "set_paused") {
        match request.paused {
            None => refuse("set_paused requires paused"),
            Some(value) => {
                *paused = value;
                Ok(Reply::Paused(value))
            },
        }
    } else if same(op, "list_runs") {
        Ok(Reply::Runs { runs: store.list(), observations: store.list_observations() })
    } else if same(op, "get_run") {
        answer_get_run(request, store)
    } else if same(op, "get_observation") {
        answer_get_observation(request, store)
    } else if same(op, "adopt_run_v1") {
        answer_adopt(request, store)
    } else if same(op, "rebind_continuation") {
        answer_rebind(request, store, now)
    } else if same(op, "register_agent_session") {
        answer_register(request, store, now)
    } else if same(op, "release_agent_session") {
        answer_release(request, store)
    } else if same(op, "claim_deliveries") {
        answer_claim(request, store, now)
    } else if same(op, "delivery_status") {
        answer_status(request, store, now)
    } else if same(op, "verify_offline_invocation") {
        answer_verify(request, store, now)
    } else if same(op, "ack_delivery") {
        answer_ack(request, store, now)
    } else {
        return unsupported_response(id, op);
    };
    match result {
        Ok(reply) => Response::ok(id, reply),
        Err(reason) => Response::error(id, reason),
    }
}

// ---------------------------------------------------------------------------
// What needs a look at a host
// ---------------------------------------------------------------------------

/// What a request is about.
pub enum Route {
    /// All runs are looked at.
    Tick,
    /// The run is waited for, for so many seconds.
    Wait { run_id: String, timeout_sec: u64 },
    Submit(SubmitRunSpec),
    Logs { run_id: String, tail: Option<usize> },
    Artifacts { run_id: String },
    Cancel { run_id: String },
    /// The daemon answers itself.
    Control,
    Refused(String),
}

/// For how many seconds a run is waited for: an hour where the request does not
/// say, and never more than a day.
pub open spec fn wait_seconds(timeout_sec: Option<u64>) -> u64 {
    match timeout_sec {
        None => 3600,
        Some(seconds) => if seconds > 86_400 {
            86_400
        } else {
            seconds
        },
    }
}

/// Whether that is what the request is about.
pub open spec fn routes(request: RequestView, route: Route) -> bool {
    let op = request.op;
    if op == "tick"@ {
        route is Tick
    } else if op == "wait_run"@ {
        match (request.run_id, route) {
            (Some(name), Route::Wait { run_id, timeout_sec }) => run_id@ == name && timeout_sec
                == wait_seconds(request.timeout_sec),
            (None, Route::Refused(reason)) => reason@ == "wait_run requires run_id"@,
            _ => false,
        }
    } else if op == "submit_run_v2"@ {
        match (request.spec, route) {
            (Some(wanted), Route::Submit(spec)) => spec@ == wanted,
            (None, Route::Refused(reason)) => reason@ == "submit_run_v2 requires spec"@,
            _ => false,
        }
    } else if op == "logs"@ {
        match (request.run_id, route) {
            (Some(name), Route::Logs { run_id, tail }) => run_id@ == name && tail == request.tail,
            (None, Route::Refused(reason)) => reason@ == "logs requires run_id"@,
            _ => false,
        }
    } else if op == "artifacts"@ {
        match (request.run_id, route) {
            (Some(name), Route::Artifacts { run_id }) => run_id@ == name,
            (None, Route::Refused(reason)) => reason@ == "artifacts requires run_id"@,
            _ => false,
        }
    } else if op == "cancel_run"@ {
        match (request.run_id, route) {
            (Some(name), Route::Cancel { run_id }) => run_id@ == name,
            (None, Route::Refused(reason)) => reason@ == "cancel_run requires run_id"@,
            _ => false,
        }
    } else {
        route is Control
    }
}

/// What a request is about.
pub fn handle_request(request: &Request) -> (route: Route)
    ensures
        routes(request@, route),
{
    let op = request.op.as_str();
    if same(op, "tick") {
        return Route::Tick;
    }
    if same(op, "wait_run") {
        return match &request.run_id {
            Some(run_id) => {
                let timeout_sec: u64 = match request.timeout_sec {
                    None => 3600,
                    Some(seconds) => if seconds > 86_400 {
                        86_400
                    } else {
                        seconds
                    },
                };
                Route::Wait { run_id: run_id.clone(), timeout_sec }
            },
            None => Route::Refused("wait_run requires run_id".to_owned()),
        };
    }
    if same(op, "submit_run_v2") {
        return match &request.spec {
            Some(spec) => Route::Submit(spec.clone()),
            None => Route::Refused("submit_run_v2 requires spec".to_owned()),
        };
    }
    if same(op, "logs") {
        return match &request.run_id {
            Some(run_id) => Route::Logs { run_id: run_id.clone(), tail: request.tail },
            None => Route::Refused("logs requires run_id".to_owned()),
        };
    }
    if same(op, "artifacts") {
        return match &request.run_id {
            Some(run_id) => Route::Artifacts { run_id: run_id.clone() },
            None => Route::Refused("artifacts requires run_id".to_owned()),
        };
    }
    if same(op, "cancel_run") {
        return match &request.run_id {
            Some(run_id) => Route::Cancel { run_id: run_id.clone() },
            None => Route::Refused("cancel_run requires run_id".to_owned()),
        };
    }
    Route::Control
}

/// Whether a run is waited for no longer: it has ended, there is none of that
/// name, or the time is over.
pub fn wait_is_over(run: &Option<RunRecord>, time_is_over: bool) -> (over: bool)
    ensures
        over == (match run.deep_view() {
            Some(run) => run.status.terminal() || time_is_over,
            None => true,
        }),
{
    match run {
        Some(run) => run.status.is_terminal() || time_is_over,
        None => true,
    }
}

// ---------------------------------------------------------------------------
// The client's side
// ---------------------------------------------------------------------------

/// The pipe to the daemon: the one that the environment names, where it names
/// one.
pub fn endpoint(configured: Option<String>) -> (name: String)
    ensures
        name@ == (match text::text_opt(configured) {
            Some(value) => if text::is_blank(value) {
                ENDPOINT@
            } else {
                value
            },
            None => ENDPOINT@,
        }),
{
    match configured {
        Some(value) => if blank(value.as_str()) {
            ENDPOINT.to_owned()
        } else {
            value
        },
        None => ENDPOINT.to_owned(),
    }
}

/// The socket to the daemon.
pub fn endpoint_path(configured: Option<String>, data_dir: &str, style: PathStyle) -> (path: String)
    ensures
        path@ == (match text::text_opt(configured) {
            Some(value) => if value.len() == 0 {
                paths::joined_path(data_dir@, ENDPOINT_NAME@, style)
            } else {
                value
            },
            None => paths::joined_path(data_dir@, ENDPOINT_NAME@, style),
        }),
{
    match configured {
        Some(value) => if value.as_str().is_empty() {
            join_path(data_dir, ENDPOINT_NAME, style)
        } else {
            value
        },
        None => join_path(data_dir, ENDPOINT_NAME, style),
    }
}

/// Who may open the pipe: the system and the user themself.
pub open spec fn descriptor_of(user_sid: Seq<char>) -> Seq<char> {
    "O:"@ + user_sid + "D:P(A;;GA;;;SY)(A;;GA;;;"@ + user_sid + ")"@
}

pub fn pipe_descriptor(user_sid: &str) -> (descriptor: String)
    ensures
        descriptor@ == descriptor_of(user_sid@),
{
    let mut descriptor = "O:".to_owned();
    descriptor.append(user_sid);
    descriptor.append("D:P(A;;GA;;;SY)(A;;GA;;;");
    descriptor.append(user_sid);
    descriptor.append(")");
    descriptor
}

/// Whether the pipe is only busy, so that opening it is tried again.
pub fn is_named_pipe_busy(raw_os_error: Option<i32>) -> (busy: bool)
    ensures
        busy == (raw_os_error == Some(231i32)),
{
    raw_os_error == Some(231i32)
}

/// The name of a client's request.
pub fn client_request_id(pid: u32, nanos: i64) -> (id: String)
    ensures
        id@ == "client-"@ + text::decimal(pid as nat) + "-"@ + text::signed_decimal(nanos as int),
{
    let mut id = "client-".to_owned();
    id.append(decimal_text(pid as u64).as_str());
    id.append("-");
    id.append(signed_decimal_text(nanos).as_str());
    id
}

/// Why a client does not take an answer.
pub open spec fn reply_refusal(
    op: Seq<char>,
    id: Seq<char>,
    reply_id: Option<Seq<char>>,
    ok: Option<bool>,
    error: Option<Seq<char>>,
) -> Option<Seq<char>> {
    if reply_id != Some(id) {
        Some("runwatch IPC response id mismatch"@)
    } else if ok != Some(true) {
        Some(
            "runwatch IPC "@ + op + " failed: "@ + (match error {
                Some(error) => error,
                None => "unknown error"@,
            }),
        )
    } else {
        None
    }
}

pub fn check_reply(
    op: &str,
    id: &str,
    reply_id: &Option<String>,
    ok: Option<bool>,
    error: &Option<String>,
) -> (result: Result<(), String>)
    ensures
        match result {
            Ok(_) => reply_refusal(op@, id@, text::text_opt(*reply_id), ok, text::text_opt(*error))
                is None,
            Err(reason) => reply_refusal(
                op@,
                id@,
                text::text_opt(*reply_id),
                ok,
                text::text_opt(*error),
            ) == Some(reason@),
        },
{
    let matches = match reply_id {
        Some(reply_id) => same(reply_id.as_str(), id),
        None => false,
    };
    if !matches {
        return Err("runwatch IPC response id mismatch".to_owned());
    }
    if ok != Some(true) {
        let mut reason = "runwatch IPC ".to_owned();
        reason.append(op);
        reason.append(" failed: ");
        match error {
            Some(error) => reason.append(error.as_str()),
            None => reason.append("unknown error"),
        }
        return Err(reason);
    }
    Ok(())
}

// ---------------------------------------------------------------------------
// Laws
// ---------------------------------------------------------------------------

/// A request that is refused changes nothing.
pub proof fn refused_request_changes_nothing(
    s: StoreView,
    paused: bool,
    pid: u32,
    request: RequestView,
    now: Timestamp,
)
    requires
        control(s, paused, pid, request, now).answer is Err,
    ensures
        control(s, paused, pid, request, now).store == s,
        control(s, paused, pid, request, now).paused == paused,
{
}

/// An operation that the daemon does not know is refused by name, and changes
/// nothing.
pub proof fn unknown_operation_is_refused(
    s: StoreView,
    paused: bool,
    pid: u32,
    request: RequestView,
    now: Timestamp,
)
    requires
        !all_operations().contains(request.op),
    ensures
        control(s, paused, pid, request, now).answer == Err::<ReplyView, Seq<char>>(
            "unsupported operation "@ + request.op,
        ),
        control(s, paused, pid, request, now).store == s,
{
    let all = all_operations();
    assert(all[0] == "hello"@);
    assert(all[1] == "daemon_status"@);
    assert(all[2] == "set_paused"@);
    assert(all[3] == "list_runs"@);
    assert(all[4] == "get_run"@);
    assert(all[5] == "get_observation"@);
    assert(all[6] == "adopt_run_v1"@);
    assert(all[18] == "rebind_continuation"@);
    assert(all[13] == "register_agent_session"@);
    assert(all[14] == "release_agent_session"@);
    assert(all[15] == "claim_deliveries"@);
    assert(all[16] == "delivery_status"@);
    assert(all[19] == "verify_offline_invocation"@);
    assert(all[17] == "ack_delivery"@);
}

/// Pausing is what the next status tells.
pub proof fn pause_is_told(
    s: StoreView,
    paused: bool,
    pid: u32,
    request: RequestView,
    value: bool,
    status: RequestView,
    now: Timestamp,
)
    requires
        request.op == "set_paused"@,
        request.paused == Some(value),
        status.op == "daemon_status"@,
    ensures
        ({
            let after = control(s, paused, pid, request, now);
            control(after.store, after.paused, pid, status, now).answer == Ok::<
                ReplyView,
                Seq<char>,
            >(ReplyView::DaemonStatus { paused: value, pid })
        }),
{
    reveal_strlit("hello");
    reveal_strlit("daemon_status");
    reveal_strlit("set_paused");
}

/// A run that was taken over is what the next request for it gives back.
pub proof fn adopted_run_is_read_back(
    s: StoreView,
    paused: bool,
    request: RequestView,
    question: RequestView,
    run: RunRecordView,
)
    requires
        request.run == Some(run),
        adopt_answer(s, paused, request).answer is Ok,
        question.run_id == Some(run.run_id),
    ensures
        ({
            let after = adopt_answer(s, paused, request);
            get_run_answer(after.store, paused, question).answer matches Ok(
                ReplyView::Run { run: found, .. },
            ) && found == Some(run)
        }),
{
    crate::store::laws::stored_run_is_read_back(s, run, run.run_id);
}

/// Only the instance that holds a session gets its notices.
pub proof fn only_the_holder_claims(
    s: StoreView,
    paused: bool,
    request: RequestView,
    now: Timestamp,
)
    requires
        claim_answer(s, paused, request, now).answer is Ok,
    ensures
        asker(request) matches Some((agent_kind, session_id, owner)) && (s.lease(
            agent_kind,
            session_id,
        ) matches Some(lease) && lease.owner_instance_id == owner && lease.expires_at.nanos
            > now.nanos),
{
}

} // verus!
