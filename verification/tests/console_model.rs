use runwatch::console::model::{
    apply_host_run_usage, build_detail, filter_rows, format_age, host_usage_summary,
    project_dashboard, short_id, sort_rows, DaemonFacts, DashboardSnapshot, DetailEvent,
    DetailParts, HostCardView, RunDetailView, RunFilter, RunSort, STALE_AFTER_SECS,
};
use runwatch::time::Timestamp;
use runwatch::types::{
    ObservationHealth, ObservationRecord, ObservationSource, RemoteWorkspaceRef,
    RunAttemptRecord, RunContinuationStatus, RunRecord, RunResources, RunStatus, RunnerKind,
};

fn clock() -> Timestamp {
    Timestamp::from_seconds(1_790_000_000)
}

fn run(id: &str, status: RunStatus, updated_at: Timestamp) -> RunRecord {
    RunRecord {
        run_id: id.into(),
        name: Some(format!("name-{id}")),
        host: "gm00".into(),
        job_id: Some("31842".into()),
        runner: RunnerKind::Slurm,
        remote_terminal: None,
        status,
        workspace: Some(RemoteWorkspaceRef {
            host_alias: "gm00".into(),
            cwd: "/share/work".into(),
        }),
        attempt_no: Some(1),
        session_id: None,
        project_root: None,
        agent: None,
        updated_at,
        note: None,
    }
}

fn attempt(
    run_id: &str,
    attempt_no: u32,
    status: RunStatus,
    now: Timestamp,
) -> RunAttemptRecord {
    RunAttemptRecord {
        run_id: run_id.into(),
        attempt_no,
        runner: RunnerKind::Slurm,
        host: "gm00".into(),
        workdir: "/share/work".into(),
        command: "python refine.py --input map.mrc".into(),
        resources: RunResources {
            time: Some("02:00:00".into()),
            partition: Some("gpu".into()),
            cpus: Some(8),
            mem: Some("32G".into()),
            ..RunResources::default()
        },
        job_name: format!("rw-{run_id}-a{attempt_no}"),
        job_id: Some(format!("3184{attempt_no}")),
        script_path: format!("/share/work/.runwatch/{run_id}/attempt-{attempt_no}/run.sh"),
        stdout_path: format!("/share/work/.runwatch/{run_id}/attempt-{attempt_no}/stdout.log"),
        stderr_path: format!("/share/work/.runwatch/{run_id}/attempt-{attempt_no}/stderr.log"),
        terminal_path: format!(
            "/share/work/.runwatch/{run_id}/attempt-{attempt_no}/terminal.json"
        ),
        receipt_path: format!(
            "/share/work/.runwatch/{run_id}/attempt-{attempt_no}/submission.receipt"
        ),
        status,
        created_at: now,
        updated_at: now,
        error: None,
    }
}

fn detail(
    run: RunRecord,
    observation: Option<ObservationRecord>,
    attempt: Option<RunAttemptRecord>,
    attempts: Vec<RunAttemptRecord>,
    selected_attempt_no: Option<u32>,
    attempt_error: Option<String>,
    continuation: RunContinuationStatus,
    continuation_error: Option<String>,
    events: Vec<DetailEvent>,
    events_error: Option<String>,
    logs: String,
    artifacts: String,
) -> RunDetailView {
    build_detail(DetailParts {
        run,
        observation,
        attempt,
        resources: "{}".into(),
        attempts,
        selected_attempt_no,
        attempt_error,
        continuation,
        continuation_error,
        events,
        events_error,
        logs,
        artifacts,
    })
}

fn dashboard(
    runs: Vec<RunRecord>,
    observations: Vec<ObservationRecord>,
    continuations: Vec<RunContinuationStatus>,
    now: Timestamp,
) -> DashboardSnapshot {
    project_dashboard(
        DaemonFacts {
            version: "0.1.0".into(),
            protocol: 1,
            capabilities: 24,
            pid: 4242,
            paused: false,
            manual_submit_supported: true,
            retry_supported: true,
        },
        &runs,
        &observations,
        &continuations,
        now,
    )
}

#[test]
fn running_unreachable_keeps_execution_state_and_gets_attention() {
    let now = clock();
    let run = run("r1", RunStatus::Running, now);
    let observation = ObservationRecord {
        run_id: "r1".into(),
        attempt_no: 1,
        observed_at: now,
        source: ObservationSource::Transport,
        health: ObservationHealth::Unreachable,
        execution_status: RunStatus::Running,
        raw_state: None,
        reason: Some("ssh down".into()),
        command_exit_code: None,
    };
    let snapshot = dashboard(vec![run], vec![observation], vec![], now);
    assert_eq!(snapshot.rows[0].status, RunStatus::Running);
    assert!(snapshot.rows[0].attention);
    assert!(snapshot.rows[0].observation.contains("unreachable"));
}

#[test]
fn stale_active_observation_is_attention_but_terminal_age_is_not() {
    let now = clock();
    let old = now.plus_seconds(-(STALE_AFTER_SECS as i64 + 1));
    let observation = ObservationRecord {
        run_id: "r1".into(),
        attempt_no: 1,
        observed_at: old,
        source: ObservationSource::Scheduler,
        health: ObservationHealth::Fresh,
        execution_status: RunStatus::Running,
        raw_state: None,
        reason: None,
        command_exit_code: None,
    };
    let live = dashboard(
        vec![run("r1", RunStatus::Running, now)],
        vec![observation.clone()],
        vec![],
        now,
    );
    assert!(live.rows[0].attention);
    let terminal = dashboard(
        vec![run("r1", RunStatus::Succeeded, now)],
        vec![observation],
        vec![],
        now,
    );
    assert!(!terminal.rows[0].attention);
}

#[test]
fn continuation_rebind_is_promoted_to_dashboard_attention() {
    let now = clock();
    let snapshot = dashboard(
        vec![run("r1", RunStatus::Succeeded, now)],
        vec![],
        vec![RunContinuationStatus {
            run_id: "r1".into(),
            configured: true,
            needs_rebind: 1,
            ..RunContinuationStatus::default()
        }],
        now,
    );
    assert!(snapshot.rows[0].attention);
    assert_eq!(snapshot.rows[0].continuation, "needs rebind (1)");
}

#[test]
fn empty_single_and_fifty_run_snapshots_preserve_counts() {
    let now = clock();
    let empty = dashboard(vec![], vec![], vec![], now);
    assert_eq!(empty.total, 0);
    assert_eq!(empty.active, 0);
    assert_eq!(empty.attention, 0);

    let single = dashboard(
        vec![run("one", RunStatus::Running, now)],
        vec![],
        vec![],
        now,
    );
    assert_eq!(single.total, 1);
    assert_eq!(single.active, 1);

    let fifty = dashboard(
        (0..50i64)
            .map(|index| {
                run(
                    &format!("r-{index:02}"),
                    if index % 2 == 0 {
                        RunStatus::Running
                    } else {
                        RunStatus::Succeeded
                    },
                    now.plus_seconds(-index),
                )
            })
            .collect(),
        vec![],
        vec![],
        now,
    );
    assert_eq!(fifty.total, 50);
    assert_eq!(fifty.active, 25);
}

#[test]
fn host_usage_counts_only_live_runs() {
    let now = clock();
    let mut rows = dashboard(
        vec![
            run("a", RunStatus::Running, now),
            run("b", RunStatus::Queued, now),
            run("c", RunStatus::Succeeded, now),
        ],
        vec![],
        vec![],
        now,
    )
    .rows;
    rows[0].host = "gm00".into();
    rows[1].host = "gm00".into();
    rows[2].host = "other".into();
    let text = host_usage_summary(&rows);
    assert!(text.contains("gm00   2 live Runs"));
    assert!(!text.contains("other"));
}

#[test]
fn host_cards_receive_live_run_counts_by_exact_alias() {
    let now = clock();
    let mut rows = dashboard(
        vec![
            run("a", RunStatus::Running, now),
            run("b", RunStatus::Queued, now),
            run("c", RunStatus::Succeeded, now),
        ],
        vec![],
        vec![],
        now,
    )
    .rows;
    rows[0].host = "gm00".into();
    rows[1].host = "gm00".into();
    rows[2].host = "compute-gw".into();
    let mut hosts = vec![
        HostCardView {
            alias: "gm00".into(),
            endpoint: "u@gm00:22".into(),
            route: "Direct".into(),
            live_runs: 0,
        },
        HostCardView {
            alias: "compute-gw".into(),
            endpoint: "u@compute:22".into(),
            route: "Direct".into(),
            live_runs: 99,
        },
    ];
    apply_host_run_usage(&mut hosts, &rows);
    assert_eq!(hosts[0].live_runs, 2);
    assert_eq!(hosts[1].live_runs, 0);
}

#[test]
fn unresolved_cancel_is_attention_without_forcing_cancelled_state() {
    let now = clock();
    let mut value = run("r-cancel", RunStatus::Running, now);
    value.note = Some("cancel requested for scheduler job 31842".into());
    let snapshot = dashboard(vec![value], vec![], vec![], now);
    assert_eq!(snapshot.rows[0].status, RunStatus::Running);
    assert!(snapshot.rows[0].attention);
    assert_eq!(
        snapshot.rows[0].attention_reason.as_deref(),
        Some("Cancel requested; awaiting terminal observation")
    );
}

#[test]
fn explicit_sort_modes_preserve_stable_human_ordering() {
    let now = clock();
    let mut rows = dashboard(
        vec![
            run("z", RunStatus::Running, now.plus_seconds(-30)),
            run("a", RunStatus::Failed, now.plus_seconds(-10)),
            run("m", RunStatus::Succeeded, now),
        ],
        vec![],
        vec![],
        now,
    )
    .rows;
    sort_rows(&mut rows, RunSort::Newest);
    assert_eq!(rows[0].run_id, "m");
    sort_rows(&mut rows, RunSort::Name);
    assert_eq!(rows[0].run_id, "a");
    rows[0].host = "zz-host".into();
    rows[1].host = "aa-host".into();
    sort_rows(&mut rows, RunSort::Host);
    assert_eq!(rows[0].host, "aa-host");
}

#[test]
fn detail_partial_failures_are_explicit_not_missing_data() {
    let now = clock();
    let detail = detail(
        run("r-detail", RunStatus::Running, now),
        None,
        None,
        vec![],
        Some(1),
        Some("attempt IPC failed".into()),
        RunContinuationStatus::default(),
        Some("continuation IPC failed".into()),
        vec![],
        Some("events IPC failed".into()),
        "Logs unavailable\nlog IPC failed".into(),
        "Artifacts unavailable\nartifact IPC failed".into(),
    );
    assert!(detail.overview.contains("Attempt metadata unavailable"));
    assert!(detail.overview.contains("attempt IPC failed"));
    assert!(detail.timeline.contains("Timeline unavailable"));
    assert!(detail.timeline.contains("events IPC failed"));
    assert!(
        detail
            .continuation
            .contains("Continuation status unavailable")
    );
    assert!(detail.continuation.contains("continuation IPC failed"));
    assert!(detail.logs.contains("Logs unavailable"));
    assert!(detail.artifacts.contains("Artifacts unavailable"));
}

#[test]
fn human_retry_context_is_fail_closed_around_binding_and_attempt_selection() {
    let now = clock();
    let failed = attempt("r-retry-ui", 1, RunStatus::Failed, now);
    let eligible = detail(
        run("r-retry-ui", RunStatus::Failed, now),
        None,
        Some(failed.clone()),
        vec![failed.clone()],
        Some(1),
        None,
        RunContinuationStatus::default(),
        None,
        vec![],
        None,
        String::new(),
        String::new(),
    );
    let retry = eligible
        .retry_context
        .expect("unbound failed current Attempt should retry");
    assert_eq!(retry.expected_attempt_no, 1);
    assert_eq!(retry.command, failed.command);
    assert_eq!(retry.resources.cpus, Some(8));
    assert!(eligible.overview.contains("Eligible for human Retry"));

    let bound = detail(
        run("r-retry-ui", RunStatus::Failed, now),
        None,
        Some(failed.clone()),
        vec![failed.clone()],
        Some(1),
        None,
        RunContinuationStatus {
            run_id: "r-retry-ui".into(),
            configured: true,
            agent_kind: Some("pi".into()),
            session_id: Some("session-bound".into()),
            ..RunContinuationStatus::default()
        },
        None,
        vec![],
        None,
        String::new(),
        String::new(),
    );
    assert!(bound.retry_context.is_none());
    assert!(
        bound
            .overview
            .contains("managed by the owning Agent Integration")
    );

    let unknown_binding = detail(
        run("r-retry-ui", RunStatus::Failed, now),
        None,
        Some(failed.clone()),
        vec![failed.clone()],
        Some(1),
        None,
        RunContinuationStatus::default(),
        Some("continuation IPC unavailable".into()),
        vec![],
        None,
        String::new(),
        String::new(),
    );
    assert!(unknown_binding.retry_context.is_none());
    assert!(unknown_binding.overview.contains("fails closed"));

    let mut current = run("r-retry-ui", RunStatus::Failed, now);
    current.attempt_no = Some(2);
    current.job_id = Some("31842".into());
    let current_attempt = attempt("r-retry-ui", 2, RunStatus::Failed, now);
    let historical = detail(
        current,
        None,
        Some(failed.clone()),
        vec![failed, current_attempt],
        Some(1),
        None,
        RunContinuationStatus::default(),
        None,
        vec![],
        None,
        String::new(),
        String::new(),
    );
    assert!(historical.retry_context.is_none());
    assert!(historical.overview.contains("Historical Attempt selected"));
}

#[test]
fn filters_and_search_scale_to_large_local_snapshots() {
    let now = clock();
    let runs = (0..500i64)
        .map(|index| {
            run(
                &format!("run-{index:03}"),
                if index % 5 == 0 {
                    RunStatus::Failed
                } else if index % 2 == 0 {
                    RunStatus::Running
                } else {
                    RunStatus::Succeeded
                },
                now.plus_seconds(-index),
            )
        })
        .collect();
    let snapshot = dashboard(runs, vec![], vec![], now);
    assert_eq!(snapshot.total, 500);
    assert_eq!(
        filter_rows(&snapshot.rows, RunFilter::Attention, "").len(),
        100
    );
    assert_eq!(
        filter_rows(&snapshot.rows, RunFilter::All, "run-042").len(),
        1
    );
}

#[test]
fn search_ignores_the_case_of_letters_beyond_ascii() {
    let mut run = run("r1", RunStatus::Running, clock());
    run.name = Some("ÉTUDE".into());
    let rows = dashboard(vec![run], vec![], vec![], clock()).rows;
    assert_eq!(filter_rows(&rows, RunFilter::All, " étude ").len(), 1);
    assert_eq!(filter_rows(&rows, RunFilter::All, "etude").len(), 0);
}

#[test]
fn ages_and_names_are_short() {
    assert_eq!(format_age(59), "59s");
    assert_eq!(format_age(60), "1m");
    assert!(short_id("0123456789abcdef0123").chars().count() < 20);
}

#[test]
fn detail_shows_its_events_by_date() {
    let moment = Timestamp::from_seconds(1_788_539_445);
    let shown = detail(
        run("r1", RunStatus::Running, moment),
        None,
        None,
        vec![],
        None,
        None,
        RunContinuationStatus::default(),
        None,
        vec![DetailEvent {
            at: moment,
            kind: "submission_intent".into(),
            payload: "{}".into(),
        }],
        None,
        String::new(),
        String::new(),
    );
    assert_eq!(
        shown.timeline,
        "2026-09-04T16:30:45+00:00  submission_intent\n{}"
    );
}
