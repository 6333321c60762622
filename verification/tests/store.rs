use runwatch::paths::PathStyle;
use runwatch::store::reading::{read_legacy_latest, LegacyLine};
use runwatch::store::{BindingRow, DeliveryRow, DeliveryState, LeaseRow, RunStore};
use runwatch::time::Timestamp;
use runwatch::types::{
    AgentInvocationRecord, AgentSessionRegistration, ContinuationBinding, DeliveryPayload,
    ObservationHealth, ObservationRecord, ObservationSource, RemoteWorkspaceRef, RetryRunSpec,
    RunAttemptRecord, RunRecord, RunResources, RunStatus, RunnerKind,
};

fn clock() -> Timestamp {
    Timestamp::from_seconds(1_790_000_000)
}

fn delivery(
    payload: &DeliveryPayload,
    state: DeliveryState,
    attempts: u32,
    next_retry_at: Option<Timestamp>,
    last_error: Option<&str>,
) -> DeliveryRow {
    DeliveryRow {
        delivery_id: payload.delivery_id.clone(),
        run_id: payload.run_id.clone(),
        state,
        attempts,
        next_retry_at,
        last_error: last_error.map(String::from),
        payload: payload.clone(),
    }
}

fn delivery_row<'a>(store: &'a RunStore, delivery_id: &str) -> &'a DeliveryRow {
    store
        .deliveries
        .iter()
        .find(|row| row.delivery_id == delivery_id)
        .unwrap()
}

fn invocation_state(store: &RunStore, invocation_id: &str) -> String {
    store
        .invocations
        .iter()
        .find(|row| row.record.invocation_id == invocation_id)
        .unwrap()
        .state
        .as_text()
}

fn lease_owners(store: &RunStore, agent_kind: &str, session_id: &str) -> Vec<String> {
    store
        .leases
        .iter()
        .filter(|row| row.agent_kind == agent_kind && row.session_id == session_id)
        .map(|row| row.owner_instance_id.clone())
        .collect()
}

#[test]
fn sqlite_store_returns_latest_record_per_run() {
    let mut store = RunStore::open_default("/data", PathStyle::Posix);
    let mut row = RunRecord::new("r1".into(), "host".into(), RunnerKind::Slurm, clock());
    store.upsert(&row);
    row.status = RunStatus::Running;
    store.upsert(&row);
    let rows = store.list();
    assert_eq!(rows.len(), 1);
    assert_eq!(rows[0].status, RunStatus::Running);
}

#[test]
fn submission_acceptance_is_idempotent_and_never_regresses_advanced_state() {
    let mut store = RunStore::open_default("/data", PathStyle::Posix);
    let now = clock();
    let workspace = RemoteWorkspaceRef {
        host_alias: "cluster".into(),
        cwd: "/shared/project".into(),
    };
    let mut submitting = RunRecord::new("r-accept".into(), "cluster".into(), RunnerKind::Slurm, clock());
    submitting.status = RunStatus::Submitting;
    submitting.workspace = Some(workspace.clone());
    submitting.attempt_no = Some(1);
    submitting.updated_at = now;
    let submitting_attempt = RunAttemptRecord {
        run_id: submitting.run_id.clone(),
        attempt_no: 1,
        runner: RunnerKind::Slurm,
        host: "cluster".into(),
        workdir: workspace.cwd.clone(),
        command: "science --run".into(),
        resources: RunResources::default(),
        job_name: "rw-r-accept-a1".into(),
        job_id: None,
        script_path: "/shared/project/.runwatch/r-accept/attempt-1/run.sh".into(),
        stdout_path: "/shared/project/.runwatch/r-accept/attempt-1/stdout.log".into(),
        stderr_path: "/shared/project/.runwatch/r-accept/attempt-1/stderr.log".into(),
        terminal_path: "/shared/project/.runwatch/r-accept/attempt-1/terminal.json".into(),
        receipt_path: "/shared/project/.runwatch/r-accept/attempt-1/submission.receipt".into(),
        status: RunStatus::Submitting,
        created_at: now,
        updated_at: now,
        error: None,
    };
    assert!(
        store
            .create_submission_intent(&submitting, &submitting_attempt, None)
            .unwrap()
    );

    let mut queued = submitting.clone();
    queued.status = RunStatus::Queued;
    queued.job_id = Some("31852".into());
    queued.updated_at = queued.updated_at.plus_seconds(1);
    let mut queued_attempt = submitting_attempt.clone();
    queued_attempt.status = RunStatus::Queued;
    queued_attempt.job_id = Some("31852".into());
    queued_attempt.updated_at = queued.updated_at;
    assert!(
        store
            .persist_submission_acceptance(&queued, &queued_attempt, "scheduler_submitted")
            .unwrap()
    );
    assert!(
        !store
            .persist_submission_acceptance(&queued, &queued_attempt, "scheduler_submitted")
            .unwrap()
    );
    assert_eq!(
        store
            .list_run_events(&queued.run_id, 50)
            .unwrap()
            .into_iter()
            .filter(|event| event.kind == "scheduler_submitted")
            .count(),
        1
    );

    let mut running = queued.clone();
    running.status = RunStatus::Running;
    running.updated_at = running.updated_at.plus_seconds(1);
    let mut running_attempt = queued_attempt.clone();
    running_attempt.status = RunStatus::Running;
    running_attempt.updated_at = running.updated_at;
    store
        .persist_run_attempt_event(&running, &running_attempt, "scheduler_observed");

    assert!(
        !store
            .persist_submission_acceptance(&queued, &queued_attempt, "scheduler_submitted")
            .unwrap()
    );
    let canonical = store.get(&queued.run_id).unwrap();
    assert_eq!(canonical.status, RunStatus::Running);
    assert_eq!(canonical.job_id.as_deref(), Some("31852"));
    let canonical_attempt = store.get_attempt(&queued.run_id, 1).unwrap();
    assert_eq!(canonical_attempt.status, RunStatus::Running);
    assert_eq!(
        store
            .list_run_events(&queued.run_id, 50)
            .unwrap()
            .into_iter()
            .filter(|event| event.kind == "scheduler_submitted")
            .count(),
        1
    );

    let mut conflict_run = queued.clone();
    conflict_run.job_id = Some("99999".into());
    let mut conflict_attempt = queued_attempt.clone();
    conflict_attempt.job_id = Some("99999".into());
    let error = store
        .persist_submission_acceptance(&conflict_run, &conflict_attempt, "scheduler_submitted")
        .unwrap_err();
    assert!(error.contains("handle conflict"), "{error}");
}

#[test]
fn gui_read_models_are_bounded_and_do_not_expose_binding_paths() {
    let mut store = RunStore::open_default("/data", PathStyle::Posix);
    let now = clock();
    let workspace = RemoteWorkspaceRef {
        host_alias: "gm00".into(),
        cwd: "/share/project".into(),
    };
    let binding = ContinuationBinding {
        agent_kind: "pi".into(),
        session_id: "session-readable-id".into(),
        session_file: Some("C:/private/pi/session.jsonl".into()),
        origin_leaf_id: Some("private-origin-leaf".into()),
        project_root: "C:/science".into(),
        workspace: workspace.clone(),
        adapter_path: Some("C:/private/pi-runs/extensions/runs/index.ts".into()),
    };
    let mut run = RunRecord::new("r-gui".into(), "gm00".into(), RunnerKind::Slurm, clock());
    run.status = RunStatus::Running;
    run.workspace = Some(workspace.clone());
    run.attempt_no = Some(1);
    run.updated_at = now;
    let attempt = RunAttemptRecord {
        run_id: run.run_id.clone(),
        attempt_no: 1,
        runner: RunnerKind::Slurm,
        host: "gm00".into(),
        workdir: workspace.cwd.clone(),
        command: "science --run".into(),
        resources: RunResources::default(),
        job_name: "science".into(),
        job_id: Some("31842".into()),
        script_path: "/share/project/.runwatch/r-gui/run.sh".into(),
        stdout_path: "/share/project/.runwatch/r-gui/stdout.log".into(),
        stderr_path: "/share/project/.runwatch/r-gui/stderr.log".into(),
        terminal_path: "/share/project/.runwatch/r-gui/terminal.json".into(),
        receipt_path: "/share/project/.runwatch/r-gui/receipt.json".into(),
        status: RunStatus::Running,
        created_at: now,
        updated_at: now,
        error: None,
    };
    assert!(
        store
            .create_submission_intent(&run, &attempt, Some(&binding))
            .unwrap()
    );
    for index in 0..250i64 {
        let mut updated = run.clone();
        updated.updated_at = now.plus_seconds(index);
        store
            .persist_run_attempt_event(&updated, &attempt, &format!("gui_event_{index:03}"));
    }
    let events = store.list_run_events(&run.run_id, usize::MAX).unwrap();
    assert_eq!(events.len(), 200);
    assert_eq!(events.first().unwrap().kind, "gui_event_050");
    assert_eq!(events.last().unwrap().kind, "gui_event_249");
    assert!(store.list_run_events("missing-run", 20).is_err());

    let payload = DeliveryPayload {
        delivery_id: "d-retry".into(),
        run_id: run.run_id.clone(),
        attempt_no: 1,
        status: RunStatus::Succeeded,
        job_id: Some("31842".into()),
        workspace,
        binding,
        created_at: now,
    };
    store.deliveries.push(delivery(&payload, DeliveryState::Retrying, 1, None, Some("provider retry")));
    let mut blocked = payload.clone();
    blocked.delivery_id = "d-rebind".into();
    store.deliveries.push(delivery(&blocked, DeliveryState::NeedsRebind, 2, None, Some("branch changed")));

    let status = store.get_run_continuation_status(&run.run_id).unwrap();
    assert_eq!(status.run_id, run.run_id);
    assert!(status.configured);
    assert_eq!(status.agent_kind.as_deref(), Some("pi"));
    assert_eq!(status.session_id.as_deref(), Some("session-readable-id"));
    assert_eq!(status.retrying, 1);
    assert_eq!(status.needs_rebind, 1);
    assert_eq!(status.last_state.as_deref(), Some("needs_rebind"));
    assert_eq!(status.last_error.as_deref(), Some("branch changed"));
    let listed = store.list_run_continuation_statuses();
    assert_eq!(listed.len(), 1);
    assert_eq!(listed[0], status);
    let encoded = format!("{status:?}");
    assert!(!encoded.contains("session_file"));
    assert!(!encoded.contains("private-origin-leaf"));
    assert!(!encoded.contains("adapter_path"));
    assert!(!encoded.contains("C:/private"));
    assert!(store.get_run_continuation_status("missing-run").is_err());
}

#[test]
fn imports_latest_legacy_rows_and_tolerates_partial_final_line() {
    let mut store = RunStore::open_default("/data", PathStyle::Posix);
    let mut row = RunRecord::new("r1".into(), "host".into(), RunnerKind::Slurm, clock());
    let mut lines = vec![LegacyLine::Run(row.clone())];
    row.status = RunStatus::Running;
    lines.push(LegacyLine::Run(row.clone()));
    lines.push(LegacyLine::Broken);

    let latest = read_legacy_latest(lines).expect("read the journal");
    assert!(store.import_legacy(latest));
    let rows = store.list();
    assert_eq!(rows.len(), 1);
    assert_eq!(rows[0].status, RunStatus::Running);
    assert_eq!(store.path(), "/data/runwatch.db");
    assert_eq!(store.legacy_path(), "/data/runs.jsonl");
}

#[test]
fn submission_intent_is_atomic_and_idempotent_by_run_id() {
    let mut store = RunStore::open_default("/data", PathStyle::Posix);
    let now = clock();
    let workspace = RemoteWorkspaceRef {
        host_alias: "cluster".into(),
        cwd: "/shared/project".into(),
    };
    let mut run = RunRecord::new("r-submit".into(), "cluster".into(), RunnerKind::Slurm, clock());
    run.status = RunStatus::Submitting;
    run.workspace = Some(workspace);
    run.attempt_no = Some(1);
    run.updated_at = now;
    let attempt = RunAttemptRecord {
        run_id: run.run_id.clone(),
        attempt_no: 1,
        runner: RunnerKind::Slurm,
        host: "cluster".into(),
        workdir: "/shared/project".into(),
        command: "python run.py".into(),
        resources: RunResources::default(),
        job_name: "rw-r-submit-a1".into(),
        job_id: None,
        script_path: "/shared/project/.runwatch/r-submit/attempt-1.sh".into(),
        stdout_path: "/shared/project/.runwatch/r-submit/stdout.log".into(),
        stderr_path: "/shared/project/.runwatch/r-submit/stderr.log".into(),
        terminal_path: "/shared/project/.runwatch/r-submit/terminal.json".into(),
        receipt_path: "/shared/project/.runwatch/r-submit/submission.receipt".into(),
        status: RunStatus::Submitting,
        created_at: now,
        updated_at: now,
        error: None,
    };

    assert!(
        store
            .create_submission_intent(&run, &attempt, None)
            .unwrap()
    );
    assert!(
        !store
            .create_submission_intent(&run, &attempt, None)
            .unwrap()
    );
    assert_eq!(
        store.get("r-submit").unwrap().status,
        RunStatus::Submitting
    );
    assert_eq!(
        store.get_attempt("r-submit", 1),
        Some(attempt.clone())
    );
    let mut run2 = run.clone();
    run2.attempt_no = Some(2);
    let mut attempt2 = attempt.clone();
    attempt2.attempt_no = 2;
    attempt2.job_name = "rw-r-submit-a2".into();
    attempt2.script_path = "/shared/project/.runwatch/r-submit/attempt-2/run.sh".into();
    store
        .persist_run_attempt_event(&run2, &attempt2, "retry_intent_test");
    assert_eq!(
        store
            .list_attempts("r-submit")
            .into_iter()
            .map(|value| value.attempt_no)
            .collect::<Vec<_>>(),
        vec![1, 2]
    );
}

#[test]
fn retry_intent_is_idempotent_and_preserves_previous_attempt() {
    let mut store = RunStore::open_default("/data", PathStyle::Posix);
    let now = clock();
    let workspace = RemoteWorkspaceRef {
        host_alias: "cluster".into(),
        cwd: "/shared/project".into(),
    };
    let mut run = RunRecord::new("r-retry".into(), "cluster".into(), RunnerKind::Slurm, clock());
    run.status = RunStatus::Submitting;
    run.workspace = Some(workspace);
    run.attempt_no = Some(1);
    run.remote_terminal = Some("/shared/project/.runwatch/r-retry/terminal.json".into());
    run.updated_at = now;
    let mut attempt = RunAttemptRecord {
        run_id: run.run_id.clone(),
        attempt_no: 1,
        runner: RunnerKind::Slurm,
        host: "cluster".into(),
        workdir: "/shared/project".into(),
        command: "python run.py".into(),
        resources: RunResources::default(),
        job_name: "rw-r-retry-a1".into(),
        job_id: Some("1001".into()),
        script_path: "/shared/project/.runwatch/r-retry/attempt-1.sh".into(),
        stdout_path: "/shared/project/.runwatch/r-retry/stdout.log".into(),
        stderr_path: "/shared/project/.runwatch/r-retry/stderr.log".into(),
        terminal_path: "/shared/project/.runwatch/r-retry/terminal.json".into(),
        receipt_path: "/shared/project/.runwatch/r-retry/submission.receipt".into(),
        status: RunStatus::Submitting,
        created_at: now,
        updated_at: now,
        error: None,
    };
    assert!(
        store
            .create_submission_intent(&run, &attempt, None)
            .unwrap()
    );
    run.status = RunStatus::Failed;
    run.updated_at = run.updated_at.plus_seconds(1);
    run.note = Some("attempt 1 failed".into());
    attempt.status = RunStatus::Failed;
    attempt.updated_at = run.updated_at;
    store
        .persist_run_attempt_event(&run, &attempt, "terminal_test");

    let retry = RetryRunSpec {
        run_id: run.run_id.clone(),
        expected_attempt_no: 1,
        request_id: "retry-request-01".into(),
        resources: Some(RunResources {
            time: Some("02:00:00".into()),
            mem: Some("64G".into()),
            ..RunResources::default()
        }),
    };
    let mut run2 = run.clone();
    run2.attempt_no = Some(2);
    run2.job_id = None;
    run2.status = RunStatus::Submitting;
    run2.remote_terminal =
        Some("/shared/project/.runwatch/r-retry/attempt-2/terminal.json".into());
    run2.updated_at = run2.updated_at.plus_seconds(1);
    run2.note = None;
    let mut attempt2 = attempt.clone();
    attempt2.attempt_no = 2;
    attempt2.resources = retry.resources.clone().unwrap();
    attempt2.job_name = "rw-r-retry-a2".into();
    attempt2.job_id = None;
    attempt2.script_path = "/shared/project/.runwatch/r-retry/attempt-2/run.sh".into();
    attempt2.stdout_path = "/shared/project/.runwatch/r-retry/attempt-2/stdout.log".into();
    attempt2.stderr_path = "/shared/project/.runwatch/r-retry/attempt-2/stderr.log".into();
    attempt2.terminal_path = "/shared/project/.runwatch/r-retry/attempt-2/terminal.json".into();
    attempt2.receipt_path =
        "/shared/project/.runwatch/r-retry/attempt-2/submission.receipt".into();
    attempt2.status = RunStatus::Submitting;
    attempt2.created_at = run2.updated_at;
    attempt2.updated_at = run2.updated_at;
    attempt2.error = None;

    assert!(store.create_retry_intent(&retry, &run2, &attempt2).unwrap());
    assert!(!store.create_retry_intent(&retry, &run2, &attempt2).unwrap());
    assert_eq!(
        store.list_pending_retry_intents(),
        vec![retry.clone()]
    );
    let attempts = store.list_attempts(&run.run_id);
    assert_eq!(attempts.len(), 2);
    assert_eq!(attempts[0].attempt_no, 1);
    assert_eq!(attempts[0].status, RunStatus::Failed);
    assert_eq!(
        attempts[0].stdout_path,
        "/shared/project/.runwatch/r-retry/stdout.log"
    );
    assert_eq!(attempts[1].attempt_no, 2);
    assert_eq!(attempts[1].status, RunStatus::Submitting);
    assert_ne!(attempts[0].stdout_path, attempts[1].stdout_path);
    let current = store.get(&run.run_id).unwrap();
    assert_eq!(current.attempt_no, Some(2));
    assert_eq!(current.status, RunStatus::Submitting);
    let retry_events = store
        .list_run_events(&run.run_id, 100)
        .unwrap()
        .into_iter()
        .filter(|event| event.kind == "retry_intent")
        .count();
    assert_eq!(retry_events, 1);

    let stale = RetryRunSpec {
        request_id: "retry-request-02".into(),
        ..retry.clone()
    };
    let error = store
        .create_retry_intent(&stale, &run2, &attempt2)
        .unwrap_err();
    assert!(error.contains("expected attempt 1"), "{error}");

    let mut queued_run = run2.clone();
    queued_run.status = RunStatus::Queued;
    queued_run.job_id = Some("2002".into());
    queued_run.updated_at = queued_run.updated_at.plus_seconds(1);
    let mut queued_attempt = attempt2.clone();
    queued_attempt.status = RunStatus::Queued;
    queued_attempt.job_id = Some("2002".into());
    queued_attempt.updated_at = queued_run.updated_at;
    store
        .persist_run_attempt_event(&queued_run, &queued_attempt, "retry_recovered_test");
    assert!(store.list_pending_retry_intents().is_empty());
}

#[test]
fn retry_intent_rejects_agent_bound_run() {
    let mut store = RunStore::open_default("/data", PathStyle::Posix);
    let now = clock();
    let workspace = RemoteWorkspaceRef {
        host_alias: "cluster".into(),
        cwd: "/shared/project".into(),
    };
    let binding = ContinuationBinding {
        agent_kind: "pi".into(),
        session_id: "s-bound".into(),
        session_file: Some("C:/sessions/s-bound.jsonl".into()),
        origin_leaf_id: Some("leaf-bound".into()),
        project_root: "C:/science".into(),
        workspace: workspace.clone(),
        adapter_path: Some("C:/pi-runs/extensions/runs/index.ts".into()),
    };
    let mut run = RunRecord::new("r-bound-retry".into(), "cluster".into(), RunnerKind::Slurm, clock());
    run.status = RunStatus::Failed;
    run.workspace = Some(workspace);
    run.attempt_no = Some(1);
    run.updated_at = now;
    let attempt = RunAttemptRecord {
        run_id: run.run_id.clone(),
        attempt_no: 1,
        runner: RunnerKind::Slurm,
        host: "cluster".into(),
        workdir: "/shared/project".into(),
        command: "python run.py".into(),
        resources: RunResources::default(),
        job_name: "rw-r-bound-retry-a1".into(),
        job_id: Some("1002".into()),
        script_path: "/shared/project/.runwatch/r-bound-retry/attempt-1.sh".into(),
        stdout_path: "/shared/project/.runwatch/r-bound-retry/stdout.log".into(),
        stderr_path: "/shared/project/.runwatch/r-bound-retry/stderr.log".into(),
        terminal_path: "/shared/project/.runwatch/r-bound-retry/terminal.json".into(),
        receipt_path: "/shared/project/.runwatch/r-bound-retry/submission.receipt".into(),
        status: RunStatus::Failed,
        created_at: now,
        updated_at: now,
        error: Some("failed".into()),
    };
    assert!(
        store
            .create_submission_intent(&run, &attempt, Some(&binding))
            .unwrap()
    );
    let retry = RetryRunSpec {
        run_id: run.run_id.clone(),
        expected_attempt_no: 1,
        request_id: "retry-bound-01".into(),
        resources: None,
    };
    let mut run2 = run.clone();
    run2.attempt_no = Some(2);
    run2.job_id = None;
    run2.status = RunStatus::Submitting;
    run2.updated_at = run2.updated_at.plus_seconds(1);
    let mut attempt2 = attempt.clone();
    attempt2.attempt_no = 2;
    attempt2.job_name = "rw-r-bound-retry-a2".into();
    attempt2.job_id = None;
    attempt2.status = RunStatus::Submitting;
    attempt2.created_at = run2.updated_at;
    attempt2.updated_at = run2.updated_at;
    attempt2.error = None;
    let error = store
        .create_retry_intent(&retry, &run2, &attempt2)
        .unwrap_err();
    assert!(error.contains("requires an unbound Run"), "{error}");
    assert_eq!(store.list_attempts(&run.run_id).len(), 1);
}

#[test]
fn retry_intent_rejects_orphaned_agent_identity_without_binding() {
    let mut store = RunStore::open_default("/data", PathStyle::Posix);
    let now = clock();
    let workspace = RemoteWorkspaceRef {
        host_alias: "cluster".into(),
        cwd: "/shared/project".into(),
    };
    let mut run = RunRecord::new(
        "r-orphan-agent-retry".into(),
        "cluster".into(),
        RunnerKind::Slurm,
        clock(),
    );
    run.status = RunStatus::Failed;
    run.workspace = Some(workspace.clone());
    run.attempt_no = Some(1);
    run.session_id = Some("orphan-session".into());
    run.agent = Some("pi".into());
    run.project_root = Some("C:/science".into());
    run.updated_at = now;
    let attempt = RunAttemptRecord {
        run_id: run.run_id.clone(),
        attempt_no: 1,
        runner: RunnerKind::Slurm,
        host: "cluster".into(),
        workdir: workspace.cwd.clone(),
        command: "python run.py".into(),
        resources: RunResources::default(),
        job_name: "rw-r-orphan-agent-retry-a1".into(),
        job_id: Some("1003".into()),
        script_path: "/shared/project/.runwatch/r-orphan-agent-retry/attempt-1/run.sh".into(),
        stdout_path: "/shared/project/.runwatch/r-orphan-agent-retry/attempt-1/stdout.log"
            .into(),
        stderr_path: "/shared/project/.runwatch/r-orphan-agent-retry/attempt-1/stderr.log"
            .into(),
        terminal_path: "/shared/project/.runwatch/r-orphan-agent-retry/attempt-1/terminal.json"
            .into(),
        receipt_path:
            "/shared/project/.runwatch/r-orphan-agent-retry/attempt-1/submission.receipt".into(),
        status: RunStatus::Failed,
        created_at: now,
        updated_at: now,
        error: Some("failed".into()),
    };
    assert!(
        store
            .create_submission_intent(&run, &attempt, None)
            .unwrap()
    );

    let retry = RetryRunSpec {
        run_id: run.run_id.clone(),
        expected_attempt_no: 1,
        request_id: "retry-orphan-agent-01".into(),
        resources: None,
    };
    let mut desired_run = run.clone();
    desired_run.attempt_no = Some(2);
    desired_run.job_id = None;
    desired_run.status = RunStatus::Submitting;
    desired_run.session_id = None;
    desired_run.agent = None;
    desired_run.project_root = None;
    desired_run.updated_at = desired_run.updated_at.plus_seconds(1);
    let mut desired_attempt = attempt.clone();
    desired_attempt.attempt_no = 2;
    desired_attempt.job_name = "rw-r-orphan-agent-retry-a2".into();
    desired_attempt.job_id = None;
    desired_attempt.status = RunStatus::Submitting;
    desired_attempt.script_path =
        "/shared/project/.runwatch/r-orphan-agent-retry/attempt-2/run.sh".into();
    desired_attempt.stdout_path =
        "/shared/project/.runwatch/r-orphan-agent-retry/attempt-2/stdout.log".into();
    desired_attempt.stderr_path =
        "/shared/project/.runwatch/r-orphan-agent-retry/attempt-2/stderr.log".into();
    desired_attempt.terminal_path =
        "/shared/project/.runwatch/r-orphan-agent-retry/attempt-2/terminal.json".into();
    desired_attempt.receipt_path =
        "/shared/project/.runwatch/r-orphan-agent-retry/attempt-2/submission.receipt".into();
    desired_attempt.created_at = desired_run.updated_at;
    desired_attempt.updated_at = desired_run.updated_at;
    desired_attempt.error = None;

    let error = store
        .create_retry_intent(&retry, &desired_run, &desired_attempt)
        .unwrap_err();
    assert!(error.contains("carries agent identity"), "{error}");
    assert_eq!(store.list_attempts(&run.run_id).len(), 1);
    assert!(store.list_pending_retry_intents().is_empty());
}

#[test]
fn observation_snapshot_refreshes_timestamp_but_events_only_on_semantic_change() {
    let mut store = RunStore::open_default("/data", PathStyle::Posix);
    let first = ObservationRecord {
        run_id: "r-observe".into(),
        attempt_no: 1,
        observed_at: clock(),
        source: ObservationSource::Scheduler,
        health: ObservationHealth::Fresh,
        execution_status: RunStatus::Running,
        raw_state: Some("RUNNING".into()),
        reason: None,
        command_exit_code: Some(0),
    };
    assert!(store.upsert_observation(&first));

    let mut refreshed = first.clone();
    refreshed.observed_at = first.observed_at.plus_seconds(30);
    assert!(!store.upsert_observation(&refreshed));
    assert_eq!(
        store.get_observation("r-observe", 1),
        Some(refreshed.clone())
    );

    let mut failed = refreshed;
    failed.observed_at = failed.observed_at.plus_seconds(30);
    failed.health = ObservationHealth::Unreachable;
    failed.reason = Some("SSH timeout".into());
    failed.command_exit_code = None;
    assert!(store.upsert_observation(&failed));

    let events = store
        .events
        .iter()
        .filter(|event| event.run_id == "r-observe" && event.kind == "observation_changed")
        .count();
    assert_eq!(events, 2);
}

#[test]
fn submission_intent_persists_continuation_binding_atomically() {
    let mut store = RunStore::open_default("/data", PathStyle::Posix);
    let now = clock();
    let workspace = RemoteWorkspaceRef {
        host_alias: "cluster".into(),
        cwd: "/shared/project".into(),
    };
    let mut run = RunRecord::new("r-binding".into(), "cluster".into(), RunnerKind::Slurm, clock());
    run.status = RunStatus::Submitting;
    run.workspace = Some(workspace.clone());
    run.attempt_no = Some(1);
    run.session_id = Some("session-1".into());
    run.agent = Some("pi".into());
    run.project_root = Some("C:/science".into());
    run.updated_at = now;
    let attempt = RunAttemptRecord {
        run_id: run.run_id.clone(),
        attempt_no: 1,
        runner: RunnerKind::Slurm,
        host: "cluster".into(),
        workdir: "/shared/project".into(),
        command: "python run.py".into(),
        resources: RunResources::default(),
        job_name: "rw-r-binding-a1".into(),
        job_id: None,
        script_path: "/shared/project/.runwatch/r-binding/attempt-1.sh".into(),
        stdout_path: "/shared/project/.runwatch/r-binding/stdout.log".into(),
        stderr_path: "/shared/project/.runwatch/r-binding/stderr.log".into(),
        terminal_path: "/shared/project/.runwatch/r-binding/terminal.json".into(),
        receipt_path: "/shared/project/.runwatch/r-binding/submission.receipt".into(),
        status: RunStatus::Submitting,
        created_at: now,
        updated_at: now,
        error: None,
    };
    let binding = ContinuationBinding {
        agent_kind: "pi".into(),
        session_id: "session-1".into(),
        session_file: Some("C:/sessions/s1.jsonl".into()),
        origin_leaf_id: Some("leaf-1".into()),
        project_root: "C:/science".into(),
        workspace,
        adapter_path: Some("C:/pi-runs/extensions/runs/index.ts".into()),
    };

    assert!(
        store
            .create_submission_intent(&run, &attempt, Some(&binding))
            .unwrap()
    );
    assert_eq!(
        store.get_continuation_binding("r-binding"),
        Some(binding)
    );
}

#[test]
fn live_session_lease_prevents_second_owner() {
    let mut store = RunStore::open_default("/data", PathStyle::Posix);
    let first = AgentSessionRegistration {
        agent_kind: "pi".into(),
        session_id: "s1".into(),
        owner_instance_id: "owner-a".into(),
        session_file: Some("C:/sessions/s1.jsonl".into()),
        project_root: "C:/science".into(),
        current_leaf_id: Some("leaf-a".into()),
    };
    store
        .register_agent_session(&first, 30, clock())
        .expect("first lease");
    store
        .register_agent_session(&first, 30, clock())
        .expect("same owner refresh");
    let mut second = first.clone();
    second.owner_instance_id = "owner-b".into();
    assert!(
        store
            .register_agent_session(&second, 30, clock())
            .is_err()
    );
    assert!(store.release_agent_session("pi", "s1", "owner-a"));
    store
        .register_agent_session(&second, 30, clock())
        .expect("new owner after release");
}

#[test]
fn terminal_delivery_is_deterministic_claimed_and_acked() {
    let mut store = RunStore::open_default("/data", PathStyle::Posix);
    let now = clock();
    let workspace = RemoteWorkspaceRef {
        host_alias: "cluster".into(),
        cwd: "/shared/project".into(),
    };
    let binding = ContinuationBinding {
        agent_kind: "pi".into(),
        session_id: "s1".into(),
        session_file: Some("C:/sessions/s1.jsonl".into()),
        origin_leaf_id: Some("leaf-origin".into()),
        project_root: "C:/science".into(),
        workspace: workspace.clone(),
        adapter_path: Some("C:/pi-runs/extensions/runs/index.ts".into()),
    };
    let mut run = RunRecord::new("r-delivery".into(), "cluster".into(), RunnerKind::Slurm, clock());
    run.status = RunStatus::Submitting;
    run.workspace = Some(workspace);
    run.attempt_no = Some(1);
    run.session_id = Some("s1".into());
    run.agent = Some("pi".into());
    run.updated_at = now;
    let attempt = RunAttemptRecord {
        run_id: run.run_id.clone(),
        attempt_no: 1,
        runner: RunnerKind::Slurm,
        host: "cluster".into(),
        workdir: "/shared/project".into(),
        command: "python run.py".into(),
        resources: RunResources::default(),
        job_name: "rw-r-delivery-a1".into(),
        job_id: Some("123".into()),
        script_path: "/shared/project/.runwatch/r-delivery/attempt-1.sh".into(),
        stdout_path: "/shared/project/.runwatch/r-delivery/stdout.log".into(),
        stderr_path: "/shared/project/.runwatch/r-delivery/stderr.log".into(),
        terminal_path: "/shared/project/.runwatch/r-delivery/terminal.json".into(),
        receipt_path: "/shared/project/.runwatch/r-delivery/submission.receipt".into(),
        status: RunStatus::Queued,
        created_at: now,
        updated_at: now,
        error: None,
    };
    assert!(
        store
            .create_submission_intent(&run, &attempt, Some(&binding))
            .unwrap()
    );
    run.status = RunStatus::Succeeded;
    run.job_id = Some("123".into());
    run.updated_at = clock();
    store.upsert(&run);
    let first = store.ensure_terminal_delivery(&run, clock()).unwrap();
    let second = store.ensure_terminal_delivery(&run, clock()).unwrap();
    assert_eq!(first, second);

    let registration = AgentSessionRegistration {
        agent_kind: "pi".into(),
        session_id: "s1".into(),
        owner_instance_id: "owner-a".into(),
        session_file: binding.session_file.clone(),
        project_root: binding.project_root.clone(),
        current_leaf_id: Some("leaf-origin".into()),
    };
    store
        .register_agent_session(&registration, 30, clock())
        .unwrap();
    let claimed = store.claim_deliveries("pi", "s1", "owner-a", 8, clock()).unwrap();
    assert_eq!(claimed.len(), 1);
    assert_eq!(claimed[0].payload.run_id, "r-delivery");
    assert!(
        store
            .finish_delivery("pi", "s1", "owner-a", &first, "delivered", &None, clock())
            .unwrap()
    );
    assert!(
        store
            .claim_deliveries("pi", "s1", "owner-a", 8, clock())
            .unwrap()
            .is_empty()
    );
}

#[test]
fn expired_live_delivery_claim_is_recovered_by_offline_reservation() {
    let mut store = RunStore::open_default("/data", PathStyle::Posix);
    let now = clock();
    let workspace = RemoteWorkspaceRef {
        host_alias: "cluster".into(),
        cwd: "/shared/project".into(),
    };
    let binding = ContinuationBinding {
        agent_kind: "pi".into(),
        session_id: "s-fast-terminal".into(),
        session_file: Some("C:/sessions/s-fast-terminal.jsonl".into()),
        origin_leaf_id: Some("leaf-origin".into()),
        project_root: "C:/science".into(),
        workspace: workspace.clone(),
        adapter_path: Some("C:/pi-runs/extensions/runs/index.ts".into()),
    };
    let payload = DeliveryPayload {
        delivery_id: "r-fast-terminal:a1:terminal".into(),
        run_id: "r-fast-terminal".into(),
        attempt_no: 1,
        status: RunStatus::Succeeded,
        job_id: Some("31804".into()),
        workspace,
        binding: binding.clone(),
        created_at: now.plus_seconds(-120),
    };
    let expired = now.plus_seconds(-1);
    store.deliveries.push(delivery(&payload, DeliveryState::Delivering, 1, Some(expired), None));
    let registration = AgentSessionRegistration {
        agent_kind: "pi".into(),
        session_id: binding.session_id.clone(),
        owner_instance_id: "dead-live-pi".into(),
        session_file: binding.session_file.clone(),
        project_root: binding.project_root.clone(),
        current_leaf_id: binding.origin_leaf_id.clone(),
    };
    store.leases.push(LeaseRow {
        agent_kind: "pi".into(),
        session_id: binding.session_id.clone(),
        owner_instance_id: registration.owner_instance_id.clone(),
        expires_at: now.plus_seconds(-30),
        registration: registration.clone(),
    });

    let invocation = store
        .reserve_offline_invocation(0, clock())
        .unwrap()
        .expect("expired live claim must become an offline invocation");
    assert_eq!(invocation.delivery_id, payload.delivery_id);
    assert!(invocation.owner_instance_id.starts_with("offline:pi:"));

    let state = store.get_delivery_state(&payload.delivery_id).unwrap();
    let attempts = delivery_row(&store, &payload.delivery_id).attempts;
    assert_eq!(state, "delivering");
    assert_eq!(attempts, 2);
    let invocation_count = store
        .invocations
        .iter()
        .filter(|row| row.record.delivery_id == payload.delivery_id)
        .count();
    assert_eq!(invocation_count, 1);
}

#[test]
fn rebind_updates_binding_and_requeues_blocked_delivery() {
    let mut store = RunStore::open_default("/data", PathStyle::Posix);
    let workspace = RemoteWorkspaceRef {
        host_alias: "cluster".into(),
        cwd: "/shared/project".into(),
    };
    let mut run = RunRecord::new("r-rebind".into(), "cluster".into(), RunnerKind::Slurm, clock());
    run.status = RunStatus::Succeeded;
    run.workspace = Some(workspace.clone());
    run.attempt_no = Some(1);
    store.upsert(&run);
    let original = ContinuationBinding {
        agent_kind: "pi".into(),
        session_id: "s1".into(),
        session_file: Some("C:/sessions/s1.jsonl".into()),
        origin_leaf_id: Some("old-leaf".into()),
        project_root: "C:/science".into(),
        workspace: workspace.clone(),
        adapter_path: Some("C:/pi-runs/extensions/runs/index.ts".into()),
    };
    let payload = DeliveryPayload {
        delivery_id: "r-rebind:a1:terminal".into(),
        run_id: run.run_id.clone(),
        attempt_no: 1,
        status: RunStatus::Succeeded,
        job_id: Some("123".into()),
        workspace,
        binding: original.clone(),
        created_at: clock(),
    };
    store.bindings.push(BindingRow {
        run_id: run.run_id.clone(),
        binding: original.clone(),
    });
    store.deliveries.push(delivery(&payload, DeliveryState::NeedsRebind, 1, None, None));

    let rebound = ContinuationBinding {
        origin_leaf_id: Some("new-leaf".into()),
        ..original
    };
    assert_eq!(store.rebind_continuation("r-rebind", &rebound, clock()).unwrap(), 1);
    assert_eq!(
        store.get_continuation_binding("r-rebind"),
        Some(rebound.clone())
    );
    let state = store.get_delivery_state("r-rebind:a1:terminal").unwrap();
    assert_eq!(state, "pending");
    let rebound_payload = delivery_row(&store, "r-rebind:a1:terminal").payload.clone();
    assert_eq!(rebound_payload.binding, rebound);

    let registration = AgentSessionRegistration {
        agent_kind: "pi".into(),
        session_id: "s1".into(),
        owner_instance_id: "owner-rebind".into(),
        session_file: rebound.session_file.clone(),
        project_root: rebound.project_root.clone(),
        current_leaf_id: rebound.origin_leaf_id.clone(),
    };
    store
        .register_agent_session(&registration, 30, clock())
        .unwrap();
    let claimed = store
        .claim_deliveries("pi", "s1", "owner-rebind", 8, clock())
        .unwrap();
    assert_eq!(claimed.len(), 1);
    assert_eq!(claimed[0].payload.binding, rebound);
    let newer = ContinuationBinding {
        origin_leaf_id: Some("newer-leaf".into()),
        ..rebound
    };
    assert!(store.rebind_continuation("r-rebind", &newer, clock()).is_err());
}

fn seed_offline_invocation_fixture_for_agent(
    run_id: &str,
    session_id: &str,
    agent_kind: &str,
) -> (RunStore, String, AgentInvocationRecord) {
    let mut store = RunStore::open_default("/data", PathStyle::Posix);
    let workspace = RemoteWorkspaceRef {
        host_alias: "cluster".into(),
        cwd: "/shared/project".into(),
    };
    let binding = ContinuationBinding {
        agent_kind: agent_kind.into(),
        session_id: session_id.into(),
        session_file: Some(format!("C:/sessions/{session_id}.jsonl")),
        origin_leaf_id: (agent_kind == "pi").then_some("leaf-origin".into()),
        project_root: "C:/science".into(),
        workspace: workspace.clone(),
        adapter_path: (agent_kind == "pi")
            .then_some("C:/pi-runs/extensions/runs/index.ts".into()),
    };
    let mut run = RunRecord::new(run_id.into(), "cluster".into(), RunnerKind::Slurm, clock());
    run.status = RunStatus::Succeeded;
    run.workspace = Some(workspace);
    run.attempt_no = Some(1);
    run.job_id = Some("123".into());
    store.upsert(&run);
    store.bindings.push(BindingRow {
        run_id: run.run_id.clone(),
        binding: binding.clone(),
    });
    let delivery_id = store.ensure_terminal_delivery(&run, clock()).unwrap();
    let invocation = store
        .reserve_offline_invocation(0, clock())
        .unwrap()
        .expect("offline invocation");
    (store, delivery_id, invocation)
}

fn seed_offline_invocation_fixture(
    run_id: &str,
    session_id: &str,
) -> (RunStore, String, AgentInvocationRecord) {
    seed_offline_invocation_fixture_for_agent(run_id, session_id, "pi")
}

fn expire_offline_lease_for_agent(store: &mut RunStore, agent_kind: &str, session_id: &str) {
    for row in store.leases.iter_mut() {
        if row.agent_kind == agent_kind && row.session_id == session_id {
            row.expires_at = clock().plus_seconds(-1);
        }
    }
}

fn expire_offline_lease(store: &mut RunStore, session_id: &str) {
    expire_offline_lease_for_agent(store, "pi", session_id);
}

#[test]
fn offline_invocation_ownership_requires_active_lease_and_delivering_state() {
    let (mut store, delivery_id, invocation) =
        seed_offline_invocation_fixture("r-owned", "s-owned");
    assert!(
        store
            .offline_invocation_is_owned(
                &invocation.invocation_id,
                &delivery_id,
                &invocation.owner_instance_id, clock())
    );
    assert!(
        !store
            .offline_invocation_is_owned(&invocation.invocation_id, &delivery_id, "wrong-owner", clock())
    );
    expire_offline_lease(&mut store, "s-owned");
    assert!(
        !store
            .offline_invocation_is_owned(
                &invocation.invocation_id,
                &delivery_id,
                &invocation.owner_instance_id, clock())
    );
}

#[test]
fn orphaned_starting_invocation_requeues_after_lease_expiry() {
    let (mut store, delivery_id, invocation) = seed_offline_invocation_fixture("r-orphan-start",
        "s-orphan-start",
    );
    expire_offline_lease(&mut store, "s-orphan-start");
    assert_eq!(
        store
            .reconcile_orphaned_agent_invocations(0, clock()),
        1
    );
    let delivery_state = store.get_delivery_state(&delivery_id).unwrap();
    let invocation_state = invocation_state(&store, &invocation.invocation_id);
    assert_eq!(delivery_state, "retrying");
    assert_eq!(invocation_state, "failed");
}

#[test]
fn active_offline_invocation_is_not_reconciled() {
    let (mut store, delivery_id, invocation) =
        seed_offline_invocation_fixture("r-active", "s-active");
    assert_eq!(
        store
            .reconcile_orphaned_agent_invocations(0, clock()),
        0
    );
    assert!(
        store
            .offline_invocation_is_owned(
                &invocation.invocation_id,
                &delivery_id,
                &invocation.owner_instance_id, clock())
    );
}

#[test]
fn delivered_orphan_reconciles_completed_without_requeue() {
    let (mut store, delivery_id, invocation) =
        seed_offline_invocation_fixture("r-acked", "s-acked");
    assert!(
        store
            .finish_delivery(
                "pi",
                "s-acked",
                &invocation.owner_instance_id,
                &delivery_id,
                "delivered",
                &None, clock())
            .unwrap()
    );
    expire_offline_lease(&mut store, "s-acked");
    assert_eq!(
        store
            .reconcile_orphaned_agent_invocations(0, clock()),
        1
    );
    let delivery_state = store.get_delivery_state(&delivery_id).unwrap();
    let invocation_state = invocation_state(&store, &invocation.invocation_id);
    assert_eq!(delivery_state, "delivered");
    assert_eq!(invocation_state, "completed");
}

#[test]
fn orphaned_running_invocation_requeues_after_lease_expiry() {
    let (mut store, delivery_id, invocation) = seed_offline_invocation_fixture("r-orphan-running",
        "s-orphan-running",
    );
    store
        .set_agent_invocation_pid(&invocation.invocation_id, 4242, clock());
    expire_offline_lease(&mut store, "s-orphan-running");
    assert_eq!(
        store
            .reconcile_orphaned_agent_invocations(0, clock()),
        1
    );
    let delivery_state = store.get_delivery_state(&delivery_id).unwrap();
    let invocation_state = invocation_state(&store, &invocation.invocation_id);
    assert_eq!(delivery_state, "retrying");
    assert_eq!(invocation_state, "failed");
}

#[test]
fn offline_invocation_reserves_exact_delivery_and_requeues_unacked_exit() {
    let mut store = RunStore::open_default("/data", PathStyle::Posix);
    let workspace = RemoteWorkspaceRef {
        host_alias: "cluster".into(),
        cwd: "/shared/project".into(),
    };
    let binding = ContinuationBinding {
        agent_kind: "pi".into(),
        session_id: "s-offline".into(),
        session_file: Some("C:/sessions/offline.jsonl".into()),
        origin_leaf_id: Some("leaf-origin".into()),
        project_root: "C:/science".into(),
        workspace: workspace.clone(),
        adapter_path: Some("C:/pi-runs/extensions/runs/index.ts".into()),
    };
    let mut run = RunRecord::new("r-offline".into(), "cluster".into(), RunnerKind::Slurm, clock());
    run.status = RunStatus::Succeeded;
    run.workspace = Some(workspace);
    run.attempt_no = Some(1);
    run.job_id = Some("123".into());
    store.upsert(&run);
    store.bindings.push(BindingRow {
        run_id: run.run_id.clone(),
        binding: binding.clone(),
    });
    let delivery_id = store.ensure_terminal_delivery(&run, clock()).unwrap();

    let invocation = store
        .reserve_offline_invocation(0, clock())
        .unwrap()
        .expect("offline invocation");
    assert_eq!(invocation.delivery_id, delivery_id);
    assert_eq!(
        invocation.session_file.as_deref(),
        Some("C:/sessions/offline.jsonl")
    );
    assert_eq!(
        invocation.adapter_path.as_deref(),
        Some("C:/pi-runs/extensions/runs/index.ts")
    );
    assert!(
        store
            .reserve_offline_invocation(0, clock())
            .unwrap()
            .is_none()
    );

    let delivery_state = store.get_delivery_state(&delivery_id).unwrap();
    assert_eq!(delivery_state, "delivering");
    let lease_owner = lease_owners(&store, "pi", "s-offline").remove(0);
    assert_eq!(lease_owner, invocation.owner_instance_id);

    store
        .finish_agent_invocation_process(&invocation.invocation_id, Some(1), &None, clock());
    let delivery_state = store.get_delivery_state(&delivery_id).unwrap();
    assert_eq!(delivery_state, "retrying");
    let leases = lease_owners(&store, "pi", "s-offline").len();
    assert_eq!(leases, 0);
}

#[test]
fn codex_offline_invocation_reserves_exact_agent_lease_without_pi_adapter() {
    let (mut store, delivery_id, invocation) = seed_offline_invocation_fixture_for_agent("r-codex",
        "codex-thread-1",
        "codex",
    );
    assert_eq!(invocation.delivery_id, delivery_id);
    assert_eq!(invocation.payload.binding.agent_kind, "codex");
    assert!(invocation.session_file.is_some());
    assert!(invocation.adapter_path.is_none());
    assert!(
        store
            .offline_invocation_is_owned(
                &invocation.invocation_id,
                &delivery_id,
                &invocation.owner_instance_id, clock())
    );
    let codex_leases = lease_owners(&store, "codex", "codex-thread-1").len();
    let pi_leases = lease_owners(&store, "pi", "codex-thread-1").len();
    assert_eq!(codex_leases, 1);
    assert_eq!(pi_leases, 0);
    expire_offline_lease_for_agent(&mut store, "codex", "codex-thread-1");
    assert_eq!(
        store
            .reconcile_orphaned_agent_invocations(0, clock()),
        1
    );
    assert_eq!(
        store.get_delivery_state(&delivery_id).as_deref(),
        Some("retrying")
    );
}

#[test]
fn offline_invocation_without_adapter_path_blocks_for_rebind() {
    let mut store = RunStore::open_default("/data", PathStyle::Posix);
    let workspace = RemoteWorkspaceRef {
        host_alias: "cluster".into(),
        cwd: "/shared/project".into(),
    };
    let binding = ContinuationBinding {
        agent_kind: "pi".into(),
        session_id: "s-old".into(),
        session_file: Some("C:/sessions/old.jsonl".into()),
        origin_leaf_id: Some("leaf-old".into()),
        project_root: "C:/science".into(),
        workspace: workspace.clone(),
        adapter_path: None,
    };
    let mut run = RunRecord::new("r-old".into(), "cluster".into(), RunnerKind::Slurm, clock());
    run.status = RunStatus::Succeeded;
    run.workspace = Some(workspace);
    run.attempt_no = Some(1);
    store.upsert(&run);
    store.bindings.push(BindingRow {
        run_id: run.run_id.clone(),
        binding: binding.clone(),
    });
    let delivery_id = store.ensure_terminal_delivery(&run, clock()).unwrap();
    assert!(
        store
            .reserve_offline_invocation(0, clock())
            .unwrap()
            .is_none()
    );
    let state = store.get_delivery_state(&delivery_id).unwrap();
    assert_eq!(state, "needs_rebind");
}
