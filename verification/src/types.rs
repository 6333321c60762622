//! The records of a run: its status, its attempts, what was observed of it, who
//! is to be told of its end, and the requests that create it.
use crate::text;
use crate::time::Timestamp;
use vstd::prelude::*;

verus! {

pub fn clone_text(value: &Option<String>) -> (copy: Option<String>)
    ensures
        text::text_opt(copy) == text::text_opt(*value),
{
    match value {
        Some(text) => Some(text.clone()),
        None => None,
    }
}

pub fn same_text(left: &Option<String>, right: &Option<String>) -> (yes: bool)
    ensures
        yes == (text::text_opt(*left) == text::text_opt(*right)),
{
    match (left, right) {
        (Some(a), Some(b)) => *a == *b,
        (None, None) => true,
        _ => false,
    }
}

#[derive(Debug, Clone, Copy, PartialEq, Eq, Structural)]
pub enum RunStatus {
    Submitting,
    Queued,
    Running,
    Succeeded,
    Failed,
    Cancelled,
    Unknown,
}

impl RunStatus {
    /// The three statuses that a run does not leave.
    pub open spec fn terminal(self) -> bool {
        self == RunStatus::Succeeded || self == RunStatus::Failed || self == RunStatus::Cancelled
    }

    /// The name that a diagnostic shows.
    pub open spec fn name(self) -> Seq<char> {
        match self {
            RunStatus::Submitting => "Submitting"@,
            RunStatus::Queued => "Queued"@,
            RunStatus::Running => "Running"@,
            RunStatus::Succeeded => "Succeeded"@,
            RunStatus::Failed => "Failed"@,
            RunStatus::Cancelled => "Cancelled"@,
            RunStatus::Unknown => "Unknown"@,
        }
    }

    pub fn as_text(self) -> (name: String)
        ensures
            name@ == self.name(),
    {
        match self {
            RunStatus::Submitting => "Submitting".to_owned(),
            RunStatus::Queued => "Queued".to_owned(),
            RunStatus::Running => "Running".to_owned(),
            RunStatus::Succeeded => "Succeeded".to_owned(),
            RunStatus::Failed => "Failed".to_owned(),
            RunStatus::Cancelled => "Cancelled".to_owned(),
            RunStatus::Unknown => "Unknown".to_owned(),
        }
    }

    pub fn is_terminal(self) -> (yes: bool)
        ensures
            yes == self.terminal(),
    {
        matches!(self, RunStatus::Succeeded | RunStatus::Failed | RunStatus::Cancelled)
    }
}

#[derive(Debug, Clone, Copy, PartialEq, Eq, Structural)]
pub enum ObservationHealth {
    Fresh,
    ProbeError,
    Unreachable,
}

#[derive(Debug, Clone, Copy, PartialEq, Eq, Structural)]
pub enum ObservationSource {
    LocalProcess,
    Sentinel,
    Scheduler,
    Compatibility,
    Transport,
}

#[derive(Debug, Clone, Copy, PartialEq, Eq, Structural)]
pub enum RunnerKind {
    Slurm,
    Lsf,
    Process,
    File,
    Powershell,
}

/// A directory on a host.
#[derive(Debug, PartialEq, Eq)]
pub struct RemoteWorkspaceRef {
    pub host_alias: String,
    pub cwd: String,
}

/// What a `RemoteWorkspaceRef` says.
pub struct RemoteWorkspaceRefView {
    pub host_alias: Seq<char>,
    pub cwd: Seq<char>,
}

impl View for RemoteWorkspaceRef {
    type V = RemoteWorkspaceRefView;

    open spec fn view(&self) -> RemoteWorkspaceRefView {
        RemoteWorkspaceRefView {
            host_alias: self.host_alias@,
            cwd: self.cwd@,
        }
    }
}

impl DeepView for RemoteWorkspaceRef {
    type V = RemoteWorkspaceRefView;

    open spec fn deep_view(&self) -> RemoteWorkspaceRefView {
        self.view()
    }
}

impl Clone for RemoteWorkspaceRef {
    fn clone(&self) -> (copy: Self)
        ensures
            copy@ == self@,
    {
        RemoteWorkspaceRef {
            host_alias: self.host_alias.clone(),
            cwd: self.cwd.clone(),
        }
    }
}

impl RemoteWorkspaceRef {
    /// Whether both say the same.
    pub fn same(&self, other: &Self) -> (yes: bool)
        ensures
            yes == (self@ == other@),
    {
        self.host_alias == other.host_alias
            && self.cwd == other.cwd
    }
}

/// Whether both name the same directory, or neither names one.
pub fn same_workspace(
    left: &Option<RemoteWorkspaceRef>,
    right: &Option<RemoteWorkspaceRef>,
) -> (yes: bool)
    ensures
        yes == (left.deep_view() == right.deep_view()),
{
    match (left, right) {
        (Some(a), Some(b)) => a.same(b),
        (None, None) => true,
        _ => false,
    }
}

/// What a scheduler is asked for.
#[derive(Debug, PartialEq, Eq)]
pub struct RunResources {
    pub time: Option<String>,
    pub partition: Option<String>,
    pub queue: Option<String>,
    pub account: Option<String>,
    pub cpus: Option<u32>,
    pub mem: Option<String>,
    pub gpus: Option<u32>,
}

/// What a `RunResources` says.
pub struct RunResourcesView {
    pub time: Option<Seq<char>>,
    pub partition: Option<Seq<char>>,
    pub queue: Option<Seq<char>>,
    pub account: Option<Seq<char>>,
    pub cpus: Option<u32>,
    pub mem: Option<Seq<char>>,
    pub gpus: Option<u32>,
}

impl View for RunResources {
    type V = RunResourcesView;

    open spec fn view(&self) -> RunResourcesView {
        RunResourcesView {
            time: text::text_opt(self.time),
            partition: text::text_opt(self.partition),
            queue: text::text_opt(self.queue),
            account: text::text_opt(self.account),
            cpus: self.cpus,
            mem: text::text_opt(self.mem),
            gpus: self.gpus,
        }
    }
}

impl DeepView for RunResources {
    type V = RunResourcesView;

    open spec fn deep_view(&self) -> RunResourcesView {
        self.view()
    }
}

impl Clone for RunResources {
    fn clone(&self) -> (copy: Self)
        ensures
            copy@ == self@,
    {
        RunResources {
            time: clone_text(&self.time),
            partition: clone_text(&self.partition),
            queue: clone_text(&self.queue),
            account: clone_text(&self.account),
            cpus: self.cpus,
            mem: clone_text(&self.mem),
            gpus: self.gpus,
        }
    }
}

impl RunResources {
    /// Whether both say the same.
    pub fn same(&self, other: &Self) -> (yes: bool)
        ensures
            yes == (self@ == other@),
    {
        same_text(&self.time, &other.time)
            && same_text(&self.partition, &other.partition)
            && same_text(&self.queue, &other.queue)
            && same_text(&self.account, &other.account)
            && self.cpus == other.cpus
            && same_text(&self.mem, &other.mem)
            && self.gpus == other.gpus
    }
}

impl RunResources {
    pub open spec fn none_view() -> RunResourcesView {
        RunResourcesView {
            time: None,
            partition: None,
            queue: None,
            account: None,
            cpus: None,
            mem: None,
            gpus: None,
        }
    }
}

impl Default for RunResources {
    fn default() -> (resources: Self)
        ensures
            resources@ == RunResources::none_view(),
    {
        RunResources {
            time: None,
            partition: None,
            queue: None,
            account: None,
            cpus: None,
            mem: None,
            gpus: None,
        }
    }
}

/// The agent session that is to go on when the run ends.
#[derive(Debug, PartialEq, Eq)]
pub struct ContinuationBinding {
    pub agent_kind: String,
    pub session_id: String,
    pub session_file: Option<String>,
    pub origin_leaf_id: Option<String>,
    pub project_root: String,
    pub workspace: RemoteWorkspaceRef,
    pub adapter_path: Option<String>,
}

/// What a `ContinuationBinding` says.
pub struct ContinuationBindingView {
    pub agent_kind: Seq<char>,
    pub session_id: Seq<char>,
    pub session_file: Option<Seq<char>>,
    pub origin_leaf_id: Option<Seq<char>>,
    pub project_root: Seq<char>,
    pub workspace: RemoteWorkspaceRefView,
    pub adapter_path: Option<Seq<char>>,
}

impl View for ContinuationBinding {
    type V = ContinuationBindingView;

    open spec fn view(&self) -> ContinuationBindingView {
        ContinuationBindingView {
            agent_kind: self.agent_kind@,
            session_id: self.session_id@,
            session_file: text::text_opt(self.session_file),
            origin_leaf_id: text::text_opt(self.origin_leaf_id),
            project_root: self.project_root@,
            workspace: self.workspace@,
            adapter_path: text::text_opt(self.adapter_path),
        }
    }
}

impl DeepView for ContinuationBinding {
    type V = ContinuationBindingView;

    open spec fn deep_view(&self) -> ContinuationBindingView {
        self.view()
    }
}

impl Clone for ContinuationBinding {
    fn clone(&self) -> (copy: Self)
        ensures
            copy@ == self@,
    {
        ContinuationBinding {
            agent_kind: self.agent_kind.clone(),
            session_id: self.session_id.clone(),
            session_file: clone_text(&self.session_file),
            origin_leaf_id: clone_text(&self.origin_leaf_id),
            project_root: self.project_root.clone(),
            workspace: self.workspace.clone(),
            adapter_path: clone_text(&self.adapter_path),
        }
    }
}

/// A request to start a run.
#[derive(Debug, PartialEq, Eq)]
pub struct SubmitRunSpec {
    pub run_id: String,
    pub name: Option<String>,
    pub workspace: RemoteWorkspaceRef,
    pub runner: RunnerKind,
    pub command: String,
    pub resources: RunResources,
    pub continuation: Option<ContinuationBinding>,
}

/// What a `SubmitRunSpec` says.
pub struct SubmitRunSpecView {
    pub run_id: Seq<char>,
    pub name: Option<Seq<char>>,
    pub workspace: RemoteWorkspaceRefView,
    pub runner: RunnerKind,
    pub command: Seq<char>,
    pub resources: RunResourcesView,
    pub continuation: Option<ContinuationBindingView>,
}

impl View for SubmitRunSpec {
    type V = SubmitRunSpecView;

    open spec fn view(&self) -> SubmitRunSpecView {
        SubmitRunSpecView {
            run_id: self.run_id@,
            name: text::text_opt(self.name),
            workspace: self.workspace@,
            runner: self.runner,
            command: self.command@,
            resources: self.resources@,
            continuation: self.continuation.deep_view(),
        }
    }
}

impl DeepView for SubmitRunSpec {
    type V = SubmitRunSpecView;

    open spec fn deep_view(&self) -> SubmitRunSpecView {
        self.view()
    }
}

impl Clone for SubmitRunSpec {
    fn clone(&self) -> (copy: Self)
        ensures
            copy@ == self@,
    {
        SubmitRunSpec {
            run_id: self.run_id.clone(),
            name: clone_text(&self.name),
            workspace: self.workspace.clone(),
            runner: self.runner,
            command: self.command.clone(),
            resources: self.resources.clone(),
            continuation: match &self.continuation {
                Some(value) => Some(value.clone()),
                None => None,
            },
        }
    }
}

/// A request to try a failed or cancelled run once more.
#[derive(Debug, PartialEq, Eq)]
pub struct RetryRunSpec {
    pub run_id: String,
    pub expected_attempt_no: u32,
    pub request_id: String,
    pub resources: Option<RunResources>,
}

/// What a `RetryRunSpec` says.
pub struct RetryRunSpecView {
    pub run_id: Seq<char>,
    pub expected_attempt_no: u32,
    pub request_id: Seq<char>,
    pub resources: Option<RunResourcesView>,
}

impl View for RetryRunSpec {
    type V = RetryRunSpecView;

    open spec fn view(&self) -> RetryRunSpecView {
        RetryRunSpecView {
            run_id: self.run_id@,
            expected_attempt_no: self.expected_attempt_no,
            request_id: self.request_id@,
            resources: self.resources.deep_view(),
        }
    }
}

impl DeepView for RetryRunSpec {
    type V = RetryRunSpecView;

    open spec fn deep_view(&self) -> RetryRunSpecView {
        self.view()
    }
}

impl Clone for RetryRunSpec {
    fn clone(&self) -> (copy: Self)
        ensures
            copy@ == self@,
    {
        RetryRunSpec {
            run_id: self.run_id.clone(),
            expected_attempt_no: self.expected_attempt_no,
            request_id: self.request_id.clone(),
            resources: match &self.resources {
                Some(value) => Some(value.clone()),
                None => None,
            },
        }
    }
}

impl RetryRunSpec {
    /// Whether both say the same.
    pub fn same(&self, other: &Self) -> (yes: bool)
        ensures
            yes == (self@ == other@),
    {
        self.run_id == other.run_id
            && self.expected_attempt_no == other.expected_attempt_no
            && self.request_id == other.request_id
            && (match (&self.resources, &other.resources) {
            (Some(left), Some(right)) => left.same(right),
            (None, None) => true,
            _ => false,
        })
    }
}

/// The logical run, as it stands now.
#[derive(Debug, PartialEq, Eq)]
pub struct RunRecord {
    pub run_id: String,
    pub name: Option<String>,
    pub host: String,
    pub job_id: Option<String>,
    pub runner: RunnerKind,
    pub remote_terminal: Option<String>,
    pub status: RunStatus,
    pub workspace: Option<RemoteWorkspaceRef>,
    pub attempt_no: Option<u32>,
    pub session_id: Option<String>,
    pub project_root: Option<String>,
    pub agent: Option<String>,
    pub updated_at: Timestamp,
    pub note: Option<String>,
}

/// What a `RunRecord` says.
pub struct RunRecordView {
    pub run_id: Seq<char>,
    pub name: Option<Seq<char>>,
    pub host: Seq<char>,
    pub job_id: Option<Seq<char>>,
    pub runner: RunnerKind,
    pub remote_terminal: Option<Seq<char>>,
    pub status: RunStatus,
    pub workspace: Option<RemoteWorkspaceRefView>,
    pub attempt_no: Option<u32>,
    pub session_id: Option<Seq<char>>,
    pub project_root: Option<Seq<char>>,
    pub agent: Option<Seq<char>>,
    pub updated_at: Timestamp,
    pub note: Option<Seq<char>>,
}

impl View for RunRecord {
    type V = RunRecordView;

    open spec fn view(&self) -> RunRecordView {
        RunRecordView {
            run_id: self.run_id@,
            name: text::text_opt(self.name),
            host: self.host@,
            job_id: text::text_opt(self.job_id),
            runner: self.runner,
            remote_terminal: text::text_opt(self.remote_terminal),
            status: self.status,
            workspace: self.workspace.deep_view(),
            attempt_no: self.attempt_no,
            session_id: text::text_opt(self.session_id),
            project_root: text::text_opt(self.project_root),
            agent: text::text_opt(self.agent),
            updated_at: self.updated_at,
            note: text::text_opt(self.note),
        }
    }
}

impl DeepView for RunRecord {
    type V = RunRecordView;

    open spec fn deep_view(&self) -> RunRecordView {
        self.view()
    }
}

impl Clone for RunRecord {
    fn clone(&self) -> (copy: Self)
        ensures
            copy@ == self@,
    {
        RunRecord {
            run_id: self.run_id.clone(),
            name: clone_text(&self.name),
            host: self.host.clone(),
            job_id: clone_text(&self.job_id),
            runner: self.runner,
            remote_terminal: clone_text(&self.remote_terminal),
            status: self.status,
            workspace: match &self.workspace {
                Some(value) => Some(value.clone()),
                None => None,
            },
            attempt_no: self.attempt_no,
            session_id: clone_text(&self.session_id),
            project_root: clone_text(&self.project_root),
            agent: clone_text(&self.agent),
            updated_at: self.updated_at,
            note: clone_text(&self.note),
        }
    }
}

impl RunRecord {
    /// A queued run of which nothing more is known.
    pub fn new(run_id: String, host: String, runner: RunnerKind, now: Timestamp) -> (run: Self)
        ensures
            run@ == (RunRecordView {
                run_id: run_id@,
                name: None,
                host: host@,
                job_id: None,
                runner,
                remote_terminal: None,
                status: RunStatus::Queued,
                workspace: None,
                attempt_no: None,
                session_id: None,
                project_root: None,
                agent: None,
                updated_at: now,
                note: None,
            }),
    {
        RunRecord {
            run_id,
            name: None,
            host,
            job_id: None,
            runner,
            remote_terminal: None,
            status: RunStatus::Queued,
            workspace: None,
            attempt_no: None,
            session_id: None,
            project_root: None,
            agent: None,
            updated_at: now,
            note: None,
        }
    }
}

/// One execution of a run.
#[derive(Debug, PartialEq, Eq)]
pub struct RunAttemptRecord {
    pub run_id: String,
    pub attempt_no: u32,
    pub runner: RunnerKind,
    pub host: String,
    pub workdir: String,
    pub command: String,
    pub resources: RunResources,
    pub job_name: String,
    pub job_id: Option<String>,
    pub script_path: String,
    pub stdout_path: String,
    pub stderr_path: String,
    pub terminal_path: String,
    pub receipt_path: String,
    pub status: RunStatus,
    pub created_at: Timestamp,
    pub updated_at: Timestamp,
    pub error: Option<String>,
}

/// What a `RunAttemptRecord` says.
pub struct RunAttemptRecordView {
    pub run_id: Seq<char>,
    pub attempt_no: u32,
    pub runner: RunnerKind,
    pub host: Seq<char>,
    pub workdir: Seq<char>,
    pub command: Seq<char>,
    pub resources: RunResourcesView,
    pub job_name: Seq<char>,
    pub job_id: Option<Seq<char>>,
    pub script_path: Seq<char>,
    pub stdout_path: Seq<char>,
    pub stderr_path: Seq<char>,
    pub terminal_path: Seq<char>,
    pub receipt_path: Seq<char>,
    pub status: RunStatus,
    pub created_at: Timestamp,
    pub updated_at: Timestamp,
    pub error: Option<Seq<char>>,
}

impl View for RunAttemptRecord {
    type V = RunAttemptRecordView;

    open spec fn view(&self) -> RunAttemptRecordView {
        RunAttemptRecordView {
            run_id: self.run_id@,
            attempt_no: self.attempt_no,
            runner: self.runner,
            host: self.host@,
            workdir: self.workdir@,
            command: self.command@,
            resources: self.resources@,
            job_name: self.job_name@,
            job_id: text::text_opt(self.job_id),
            script_path: self.script_path@,
            stdout_path: self.stdout_path@,
            stderr_path: self.stderr_path@,
            terminal_path: self.terminal_path@,
            receipt_path: self.receipt_path@,
            status: self.status,
            created_at: self.created_at,
            updated_at: self.updated_at,
            error: text::text_opt(self.error),
        }
    }
}

impl DeepView for RunAttemptRecord {
    type V = RunAttemptRecordView;

    open spec fn deep_view(&self) -> RunAttemptRecordView {
        self.view()
    }
}

impl Clone for RunAttemptRecord {
    fn clone(&self) -> (copy: Self)
        ensures
            copy@ == self@,
    {
        RunAttemptRecord {
            run_id: self.run_id.clone(),
            attempt_no: self.attempt_no,
            runner: self.runner,
            host: self.host.clone(),
            workdir: self.workdir.clone(),
            command: self.command.clone(),
            resources: self.resources.clone(),
            job_name: self.job_name.clone(),
            job_id: clone_text(&self.job_id),
            script_path: self.script_path.clone(),
            stdout_path: self.stdout_path.clone(),
            stderr_path: self.stderr_path.clone(),
            terminal_path: self.terminal_path.clone(),
            receipt_path: self.receipt_path.clone(),
            status: self.status,
            created_at: self.created_at,
            updated_at: self.updated_at,
            error: clone_text(&self.error),
        }
    }
}

/// The last thing seen of an attempt.
#[derive(Debug, PartialEq, Eq)]
pub struct ObservationRecord {
    pub run_id: String,
    pub attempt_no: u32,
    pub observed_at: Timestamp,
    pub source: ObservationSource,
    pub health: ObservationHealth,
    pub execution_status: RunStatus,
    pub raw_state: Option<String>,
    pub reason: Option<String>,
    pub command_exit_code: Option<u32>,
}

/// What a `ObservationRecord` says.
pub struct ObservationRecordView {
    pub run_id: Seq<char>,
    pub attempt_no: u32,
    pub observed_at: Timestamp,
    pub source: ObservationSource,
    pub health: ObservationHealth,
    pub execution_status: RunStatus,
    pub raw_state: Option<Seq<char>>,
    pub reason: Option<Seq<char>>,
    pub command_exit_code: Option<u32>,
}

impl View for ObservationRecord {
    type V = ObservationRecordView;

    open spec fn view(&self) -> ObservationRecordView {
        ObservationRecordView {
            run_id: self.run_id@,
            attempt_no: self.attempt_no,
            observed_at: self.observed_at,
            source: self.source,
            health: self.health,
            execution_status: self.execution_status,
            raw_state: text::text_opt(self.raw_state),
            reason: text::text_opt(self.reason),
            command_exit_code: self.command_exit_code,
        }
    }
}

impl DeepView for ObservationRecord {
    type V = ObservationRecordView;

    open spec fn deep_view(&self) -> ObservationRecordView {
        self.view()
    }
}

impl Clone for ObservationRecord {
    fn clone(&self) -> (copy: Self)
        ensures
            copy@ == self@,
    {
        ObservationRecord {
            run_id: self.run_id.clone(),
            attempt_no: self.attempt_no,
            observed_at: self.observed_at,
            source: self.source,
            health: self.health,
            execution_status: self.execution_status,
            raw_state: clone_text(&self.raw_state),
            reason: clone_text(&self.reason),
            command_exit_code: self.command_exit_code,
        }
    }
}

/// An agent instance that claims a session.
#[derive(Debug, PartialEq, Eq)]
pub struct AgentSessionRegistration {
    pub agent_kind: String,
    pub session_id: String,
    pub owner_instance_id: String,
    pub session_file: Option<String>,
    pub project_root: String,
    pub current_leaf_id: Option<String>,
}

/// What a `AgentSessionRegistration` says.
pub struct AgentSessionRegistrationView {
    pub agent_kind: Seq<char>,
    pub session_id: Seq<char>,
    pub owner_instance_id: Seq<char>,
    pub session_file: Option<Seq<char>>,
    pub project_root: Seq<char>,
    pub current_leaf_id: Option<Seq<char>>,
}

impl View for AgentSessionRegistration {
    type V = AgentSessionRegistrationView;

    open spec fn view(&self) -> AgentSessionRegistrationView {
        AgentSessionRegistrationView {
            agent_kind: self.agent_kind@,
            session_id: self.session_id@,
            owner_instance_id: self.owner_instance_id@,
            session_file: text::text_opt(self.session_file),
            project_root: self.project_root@,
            current_leaf_id: text::text_opt(self.current_leaf_id),
        }
    }
}

impl DeepView for AgentSessionRegistration {
    type V = AgentSessionRegistrationView;

    open spec fn deep_view(&self) -> AgentSessionRegistrationView {
        self.view()
    }
}

impl Clone for AgentSessionRegistration {
    fn clone(&self) -> (copy: Self)
        ensures
            copy@ == self@,
    {
        AgentSessionRegistration {
            agent_kind: self.agent_kind.clone(),
            session_id: self.session_id.clone(),
            owner_instance_id: self.owner_instance_id.clone(),
            session_file: clone_text(&self.session_file),
            project_root: self.project_root.clone(),
            current_leaf_id: clone_text(&self.current_leaf_id),
        }
    }
}

/// The notice that a run has ended.
#[derive(Debug, PartialEq, Eq)]
pub struct DeliveryPayload {
    pub delivery_id: String,
    pub run_id: String,
    pub attempt_no: u32,
    pub status: RunStatus,
    pub job_id: Option<String>,
    pub workspace: RemoteWorkspaceRef,
    pub binding: ContinuationBinding,
    pub created_at: Timestamp,
}

/// What a `DeliveryPayload` says.
pub struct DeliveryPayloadView {
    pub delivery_id: Seq<char>,
    pub run_id: Seq<char>,
    pub attempt_no: u32,
    pub status: RunStatus,
    pub job_id: Option<Seq<char>>,
    pub workspace: RemoteWorkspaceRefView,
    pub binding: ContinuationBindingView,
    pub created_at: Timestamp,
}

impl View for DeliveryPayload {
    type V = DeliveryPayloadView;

    open spec fn view(&self) -> DeliveryPayloadView {
        DeliveryPayloadView {
            delivery_id: self.delivery_id@,
            run_id: self.run_id@,
            attempt_no: self.attempt_no,
            status: self.status,
            job_id: text::text_opt(self.job_id),
            workspace: self.workspace@,
            binding: self.binding@,
            created_at: self.created_at,
        }
    }
}

impl DeepView for DeliveryPayload {
    type V = DeliveryPayloadView;

    open spec fn deep_view(&self) -> DeliveryPayloadView {
        self.view()
    }
}

impl Clone for DeliveryPayload {
    fn clone(&self) -> (copy: Self)
        ensures
            copy@ == self@,
    {
        DeliveryPayload {
            delivery_id: self.delivery_id.clone(),
            run_id: self.run_id.clone(),
            attempt_no: self.attempt_no,
            status: self.status,
            job_id: clone_text(&self.job_id),
            workspace: self.workspace.clone(),
            binding: self.binding.clone(),
            created_at: self.created_at,
        }
    }
}

/// A notice handed to an agent instance.
#[derive(Debug, PartialEq, Eq)]
pub struct ClaimedDelivery {
    pub delivery_id: String,
    pub attempts: u32,
    pub payload: DeliveryPayload,
}

/// What a `ClaimedDelivery` says.
pub struct ClaimedDeliveryView {
    pub delivery_id: Seq<char>,
    pub attempts: u32,
    pub payload: DeliveryPayloadView,
}

impl View for ClaimedDelivery {
    type V = ClaimedDeliveryView;

    open spec fn view(&self) -> ClaimedDeliveryView {
        ClaimedDeliveryView {
            delivery_id: self.delivery_id@,
            attempts: self.attempts,
            payload: self.payload@,
        }
    }
}

impl DeepView for ClaimedDelivery {
    type V = ClaimedDeliveryView;

    open spec fn deep_view(&self) -> ClaimedDeliveryView {
        self.view()
    }
}

impl Clone for ClaimedDelivery {
    fn clone(&self) -> (copy: Self)
        ensures
            copy@ == self@,
    {
        ClaimedDelivery {
            delivery_id: self.delivery_id.clone(),
            attempts: self.attempts,
            payload: self.payload.clone(),
        }
    }
}

/// An agent process started to take a notice.
#[derive(Debug, PartialEq, Eq)]
pub struct AgentInvocationRecord {
    pub invocation_id: String,
    pub delivery_id: String,
    pub owner_instance_id: String,
    pub payload: DeliveryPayload,
    pub session_file: Option<String>,
    pub adapter_path: Option<String>,
    pub project_root: String,
    pub state: String,
    pub pid: Option<u32>,
    pub started_at: Timestamp,
    pub updated_at: Timestamp,
    pub last_error: Option<String>,
}

/// What a `AgentInvocationRecord` says.
pub struct AgentInvocationRecordView {
    pub invocation_id: Seq<char>,
    pub delivery_id: Seq<char>,
    pub owner_instance_id: Seq<char>,
    pub payload: DeliveryPayloadView,
    pub session_file: Option<Seq<char>>,
    pub adapter_path: Option<Seq<char>>,
    pub project_root: Seq<char>,
    pub state: Seq<char>,
    pub pid: Option<u32>,
    pub started_at: Timestamp,
    pub updated_at: Timestamp,
    pub last_error: Option<Seq<char>>,
}

impl View for AgentInvocationRecord {
    type V = AgentInvocationRecordView;

    open spec fn view(&self) -> AgentInvocationRecordView {
        AgentInvocationRecordView {
            invocation_id: self.invocation_id@,
            delivery_id: self.delivery_id@,
            owner_instance_id: self.owner_instance_id@,
            payload: self.payload@,
            session_file: text::text_opt(self.session_file),
            adapter_path: text::text_opt(self.adapter_path),
            project_root: self.project_root@,
            state: self.state@,
            pid: self.pid,
            started_at: self.started_at,
            updated_at: self.updated_at,
            last_error: text::text_opt(self.last_error),
        }
    }
}

impl DeepView for AgentInvocationRecord {
    type V = AgentInvocationRecordView;

    open spec fn deep_view(&self) -> AgentInvocationRecordView {
        self.view()
    }
}

impl Clone for AgentInvocationRecord {
    fn clone(&self) -> (copy: Self)
        ensures
            copy@ == self@,
    {
        AgentInvocationRecord {
            invocation_id: self.invocation_id.clone(),
            delivery_id: self.delivery_id.clone(),
            owner_instance_id: self.owner_instance_id.clone(),
            payload: self.payload.clone(),
            session_file: clone_text(&self.session_file),
            adapter_path: clone_text(&self.adapter_path),
            project_root: self.project_root.clone(),
            state: self.state.clone(),
            pid: self.pid,
            started_at: self.started_at,
            updated_at: self.updated_at,
            last_error: clone_text(&self.last_error),
        }
    }
}

/// How many notices of a session stand in each open state.
#[derive(Debug, Clone, Copy, PartialEq, Eq, Structural)]
pub struct DeliveryStatusSummary {
    pub pending: u32,
    pub delivering: u32,
    pub retrying: u32,
    pub needs_rebind: u32,
}

/// How far the notices of a run have come.
#[derive(Debug, PartialEq, Eq)]
pub struct RunContinuationStatus {
    pub run_id: String,
    pub configured: bool,
    pub agent_kind: Option<String>,
    pub session_id: Option<String>,
    pub project_root: Option<String>,
    pub pending: u32,
    pub delivering: u32,
    pub retrying: u32,
    pub needs_rebind: u32,
    pub delivered: u32,
    pub last_state: Option<String>,
    pub last_error: Option<String>,
}

/// What a `RunContinuationStatus` says.
pub struct RunContinuationStatusView {
    pub run_id: Seq<char>,
    pub configured: bool,
    pub agent_kind: Option<Seq<char>>,
    pub session_id: Option<Seq<char>>,
    pub project_root: Option<Seq<char>>,
    pub pending: u32,
    pub delivering: u32,
    pub retrying: u32,
    pub needs_rebind: u32,
    pub delivered: u32,
    pub last_state: Option<Seq<char>>,
    pub last_error: Option<Seq<char>>,
}

impl View for RunContinuationStatus {
    type V = RunContinuationStatusView;

    open spec fn view(&self) -> RunContinuationStatusView {
        RunContinuationStatusView {
            run_id: self.run_id@,
            configured: self.configured,
            agent_kind: text::text_opt(self.agent_kind),
            session_id: text::text_opt(self.session_id),
            project_root: text::text_opt(self.project_root),
            pending: self.pending,
            delivering: self.delivering,
            retrying: self.retrying,
            needs_rebind: self.needs_rebind,
            delivered: self.delivered,
            last_state: text::text_opt(self.last_state),
            last_error: text::text_opt(self.last_error),
        }
    }
}

impl DeepView for RunContinuationStatus {
    type V = RunContinuationStatusView;

    open spec fn deep_view(&self) -> RunContinuationStatusView {
        self.view()
    }
}

impl Clone for RunContinuationStatus {
    fn clone(&self) -> (copy: Self)
        ensures
            copy@ == self@,
    {
        RunContinuationStatus {
            run_id: self.run_id.clone(),
            configured: self.configured,
            agent_kind: clone_text(&self.agent_kind),
            session_id: clone_text(&self.session_id),
            project_root: clone_text(&self.project_root),
            pending: self.pending,
            delivering: self.delivering,
            retrying: self.retrying,
            needs_rebind: self.needs_rebind,
            delivered: self.delivered,
            last_state: clone_text(&self.last_state),
            last_error: clone_text(&self.last_error),
        }
    }
}

impl RunContinuationStatus {
    /// A run without a binding and without notices.
    pub open spec fn idle(run_id: Seq<char>) -> RunContinuationStatusView {
        RunContinuationStatusView {
            run_id,
            configured: false,
            agent_kind: None,
            session_id: None,
            project_root: None,
            pending: 0,
            delivering: 0,
            retrying: 0,
            needs_rebind: 0,
            delivered: 0,
            last_state: None,
            last_error: None,
        }
    }
}

impl Default for RunContinuationStatus {
    fn default() -> (status: Self)
        ensures
            status@ == RunContinuationStatus::idle(Seq::empty()),
    {
        RunContinuationStatus {
            run_id: String::new(),
            configured: false,
            agent_kind: None,
            session_id: None,
            project_root: None,
            pending: 0,
            delivering: 0,
            retrying: 0,
            needs_rebind: 0,
            delivered: 0,
            last_state: None,
            last_error: None,
        }
    }
}

} // verus!
