use runwatch::autostart::{legacy_gui_startup_path, resident_runtime_owner_held};
use runwatch::command::show_host;
use runwatch::config::{default_enabled, default_poll, HostWatch};
use runwatch::console::controller::{
    autostart_notice, cancel_notice, detail_failed_notice, event_count, load_detail,
    log_line_count, no_runtime_notice, notice_message, pause_failed_notice, shown_attempt,
    sibling_cli, AutostartTarget, Command, DetailAnswers, Reaction,
};
use runwatch::console::desk::{Desk, UiEvent};
use runwatch::console::drafts::ManualRunner;
use runwatch::console::model::{DetailEvent, HostCardView, RunRow};
use runwatch::console::notifications::NoticeKind;
use runwatch::console::runs::RunsViewState;
use runwatch::console::settings::{settings_path, GuiSettings, LoadedGuiSettings};
use runwatch::dispatch::{
    dispatch_due, finish_worker, launch_plan, reconcile_orphans, PiLauncher, WorkerEnd,
};
use runwatch::ipc::wait_is_over;
use runwatch::live::heartbeat_path;
use runwatch::local_process::{
    adopt_handle, check_receipt, fail_local_start, find_cancel_target, find_observed_attempt,
    finish_local_start, judge_local_process, read_local_end, recorded_handle, request_cancel,
    start_local_submission, still_usable, LocalPlan, LocalProcessHandle, LocalProcessState,
};
use runwatch::operations::{cancel_run, read_remote_tail, CancelStep};
use runwatch::paths::PathStyle;
use runwatch::store::{BindingRow, RunStore};
use runwatch::submission::{ExecOutput, SubmissionStart};
use runwatch::supervisor::{check_supervise, pid_path, serve_args};
use runwatch::time::{Timestamp, FIRST_DATE, LAST_DATE};
use runwatch::types::{
    ContinuationBinding, RemoteWorkspaceRef, RunAttemptRecord, RunContinuationStatus, RunRecord,
    RunResources, RunStatus, RunnerKind, SubmitRunSpec,
};

fn clock() -> Timestamp {
    Timestamp::from_seconds(1_790_000_000)
}

fn open() -> RunStore {
    RunStore::open_default("/data", PathStyle::Posix)
}

fn plan() -> LocalPlan {
    let spec = SubmitRunSpec {
        run_id: "local-1".into(),
        name: Some("fit".into()),
        workspace: RemoteWorkspaceRef {
            host_alias: "local".into(),
            cwd: r"C:\science".into(),
        },
        runner: RunnerKind::Process,
        command: "python fit.py".into(),
        resources: RunResources::default(),
        continuation: None,
    };
    LocalPlan::build(spec, PathStyle::Windows, true).unwrap()
}

fn begin(store: &mut RunStore) -> (RunRecord, RunAttemptRecord) {
    match start_local_submission(store, &plan(), clock()) {
        Ok(SubmissionStart::Proceed(run, attempt)) => (run, attempt),
        _ => panic!("a new run is started"),
    }
}

const HANDLE: LocalProcessHandle = LocalProcessHandle {
    pid: 42,
    creation_time: 7,
};

#[test]
fn local_files_lie_in_the_directory_of_the_run() {
    let plan = plan();
    assert_eq!(plan.run_dir, r"C:\science\.runwatch\local-1");
    assert_eq!(
        plan.wrapper_path,
        r"C:\science\.runwatch\local-1\attempt-1.ps1"
    );
    assert_eq!(
        plan.terminal_path,
        r"C:\science\.runwatch\local-1\terminal.json"
    );
}

#[test]
fn local_run_is_started_observed_and_cancelled() {
    let mut store = open();
    let (run, attempt) = begin(&mut store);
    assert_eq!(run.status, RunStatus::Submitting);
    assert_eq!(recorded_handle(&attempt, &None), Ok(None));
    let running = finish_local_start(&mut store, &run, &attempt, HANDLE, clock());
    assert_eq!(running.status, RunStatus::Running);
    assert_eq!(
        running.job_id.as_deref(),
        Some("local:42:0000000000000007")
    );
    match start_local_submission(&mut store, &plan(), clock()) {
        Ok(SubmissionStart::Settled(run)) => assert_eq!(run.status, RunStatus::Running),
        _ => panic!("a running run is not started again"),
    }

    let attempt = find_observed_attempt(&store, &running).unwrap();
    assert_eq!(recorded_handle(&attempt, &None), Ok(Some(HANDLE)));
    let before = store.events.len();
    let seen = adopt_handle(&mut store, &running, &attempt, HANDLE, clock());
    assert_eq!(seen.job_id, running.job_id);
    assert_eq!(store.events.len(), before);
    assert_eq!(
        judge_local_process(&running, LocalProcessState::Running, &None),
        RunStatus::Running
    );
    assert_eq!(
        judge_local_process(&running, LocalProcessState::Missing, &None),
        RunStatus::Failed
    );
    assert_eq!(
        judge_local_process(
            &running,
            LocalProcessState::Exited(0),
            &Some("{\"status\":\"succeeded\"}".into())
        ),
        RunStatus::Succeeded
    );
    assert_eq!(read_local_end("gibberish"), RunStatus::Failed);

    assert_eq!(
        find_cancel_target(&running, PathStyle::Windows),
        Ok(HANDLE)
    );
    assert!(find_cancel_target(&running, PathStyle::Posix).is_err());
    assert!(matches!(
        cancel_run(&store, "local-1", PathStyle::Windows),
        Ok(CancelStep::Local(_, HANDLE))
    ));
    let gone = request_cancel(
        &mut store,
        &running,
        HANDLE,
        LocalProcessState::Missing,
        clock(),
    );
    assert!(gone.is_err());
    let noted = request_cancel(
        &mut store,
        &running,
        HANDLE,
        LocalProcessState::Running,
        clock(),
    )
    .unwrap();
    assert_eq!(noted.status, RunStatus::Running);
    assert_eq!(
        judge_local_process(&noted, LocalProcessState::Missing, &None),
        RunStatus::Cancelled
    );
}

#[test]
fn local_start_that_fails_fails_the_run() {
    let mut store = open();
    let (run, attempt) = begin(&mut store);
    let message = fail_local_start(&mut store, &run, &attempt, "no pwsh", clock());
    assert_eq!(message, "local Process launch failed: no pwsh");
    assert_eq!(store.get("local-1").unwrap().status, RunStatus::Failed);
    assert_eq!(
        store.get_attempt("local-1", 1).unwrap().error,
        Some(message)
    );
}

#[test]
fn lost_process_is_found_again_by_its_receipt() {
    let mut store = open();
    let (run, attempt) = begin(&mut store);
    let receipt = Some(" local:42:0000000000000007\n".to_string());
    assert_eq!(recorded_handle(&attempt, &receipt), Ok(Some(HANDLE)));
    assert!(recorded_handle(&attempt, &Some("x".into())).is_err());
    let adopted = adopt_handle(&mut store, &run, &attempt, HANDLE, clock());
    assert_eq!(adopted.job_id, Some(HANDLE.encode()));
    assert_eq!(store.events.last().unwrap().kind, "local_process_adopted");
    assert_eq!(check_receipt(None, HANDLE), Ok(true));
    assert_eq!(check_receipt(Some(HANDLE), HANDLE), Ok(false));
    let other = LocalProcessHandle {
        pid: 43,
        creation_time: 7,
    };
    assert!(check_receipt(Some(other), HANDLE).is_err());
    assert!(still_usable(LocalProcessState::Running));
    assert!(still_usable(LocalProcessState::Exited(1)));
    assert!(!still_usable(LocalProcessState::Missing));
    assert!(!still_usable(LocalProcessState::Reused));
}

fn bound_store() -> RunStore {
    let mut store = open();
    let workspace = RemoteWorkspaceRef {
        host_alias: "cluster".into(),
        cwd: "/shared/project".into(),
    };
    for number in 1..=3 {
        let mut run = RunRecord::new(
            format!("r{number}"),
            "cluster".into(),
            RunnerKind::Slurm,
            clock(),
        );
        run.status = RunStatus::Succeeded;
        run.workspace = Some(workspace.clone());
        run.attempt_no = Some(1);
        store.upsert(&run);
        store.bindings.push(BindingRow {
            run_id: run.run_id.clone(),
            binding: ContinuationBinding {
                agent_kind: "pi".into(),
                session_id: format!("s{number}"),
                session_file: Some("/sessions/s.jsonl".into()),
                origin_leaf_id: None,
                project_root: "/science".into(),
                workspace: workspace.clone(),
                adapter_path: Some("/pi/index.ts".into()),
            },
        });
        store.ensure_terminal_delivery(&run, clock());
    }
    store
}

#[test]
fn one_round_starts_no_more_workers_than_it_may() {
    let mut store = bound_store();
    let later = clock().plus_seconds(60);
    let first = dispatch_due(&mut store, 0, later).unwrap().unwrap();
    let second = dispatch_due(&mut store, 1, later).unwrap().unwrap();
    assert_ne!(first.delivery_id, second.delivery_id);
    assert!(dispatch_due(&mut store, 2, later).unwrap().is_none());
    assert_eq!(store.invocations.len(), 2);

    let launcher = PiLauncher {
        executable: "volta".into(),
        prefix_args: vec!["run".into(), "pi".into()],
    };
    let plan = launch_plan(&launcher, &first, &b"{}".to_vec());
    assert_eq!(
        plan.args,
        [
            "run",
            "pi",
            "--mode",
            "rpc",
            "--session",
            "/sessions/s.jsonl",
            "-e",
            "/pi/index.ts"
        ]
    );
    assert_eq!(plan.delivery, "e30=");
    assert_eq!(plan.directory, "/science");
    assert_eq!(plan.invocation_id, first.invocation_id);

    finish_worker(
        &mut store,
        &first.invocation_id,
        &WorkerEnd::Exited(Some(1)),
        later,
    );
    assert_eq!(
        store.get_delivery_state(&first.delivery_id).as_deref(),
        Some("retrying")
    );
    finish_worker(&mut store, &second.invocation_id, &WorkerEnd::TimedOut, later);
    let row = store
        .deliveries
        .iter()
        .find(|row| row.delivery_id == second.delivery_id)
        .unwrap();
    assert_eq!(
        row.last_error.as_deref(),
        Some("offline Pi RPC worker exceeded 21600 seconds")
    );
}

#[test]
fn worker_whose_lease_ran_out_is_given_up() {
    let mut store = bound_store();
    let later = clock().plus_seconds(60);
    let claimed = dispatch_due(&mut store, 0, later).unwrap().unwrap();
    assert_eq!(reconcile_orphans(&mut store, later), 0);
    for lease in store.leases.iter_mut() {
        lease.expires_at = clock();
    }
    assert_eq!(reconcile_orphans(&mut store, later), 1);
    assert_eq!(
        store.get_delivery_state(&claimed.delivery_id).as_deref(),
        Some("retrying")
    );
}

#[test]
fn exit_after_delivery_leaves_the_notice_delivered() {
    let mut store = bound_store();
    let later = clock().plus_seconds(60);
    let claimed = dispatch_due(&mut store, 0, later).unwrap().unwrap();
    assert_eq!(
        store.finish_delivery(
            &claimed.payload.binding.agent_kind,
            &claimed.payload.binding.session_id,
            &claimed.owner_instance_id,
            &claimed.delivery_id,
            "delivered",
            &None,
            later,
        ),
        Ok(true)
    );
    finish_worker(
        &mut store,
        &claimed.invocation_id,
        &WorkerEnd::Broken("late".into()),
        later,
    );
    assert_eq!(
        store.get_delivery_state(&claimed.delivery_id).as_deref(),
        Some("delivered")
    );
    assert!(store.leases.is_empty());
}

#[test]
fn notices_say_what_came_of_a_request() {
    assert_eq!(no_runtime_notice().kind, NoticeKind::Attention);
    assert_eq!(
        notice_message(&pause_failed_notice("busy")),
        "Polling control failed: busy"
    );
    assert_eq!(
        notice_message(&detail_failed_notice("r1", "gone")),
        "Could not load r1: gone"
    );
    assert_eq!(
        notice_message(&cancel_notice("r1", &Ok(()))),
        "Cancel requested: r1; final state still follows durable observation"
    );
    assert_eq!(
        cancel_notice("r1", &Err("no".into())).title,
        "Cancel failed"
    );
    assert_eq!(
        notice_message(&autostart_notice(AutostartTarget::Gui, false, &Ok(()))),
        "GUI autostart: disabled"
    );
    assert_eq!(
        autostart_notice(AutostartTarget::Daemon, true, &Err("denied".into())).title,
        "Resident runwatchd change failed"
    );
    assert_eq!(event_count(0), 1);
    assert_eq!(event_count(999), 200);
    assert_eq!(log_line_count(999), 500);
    assert_eq!(shown_attempt(Some(2), Some(3)), Some(2));
    assert_eq!(shown_attempt(None, Some(3)), Some(3));
    assert_eq!(
        sibling_cli("/a/gui", "/a/runwatch.exe", true).unwrap(),
        "/a/runwatch.exe"
    );
    assert_eq!(
        sibling_cli("/a/gui", "/a/runwatch.exe", false).unwrap_err(),
        "runwatch.exe is not next to /a/gui"
    );
}

#[test]
fn detail_holds_what_was_answered_and_names_what_was_not() {
    let mut run = RunRecord::new("r1".into(), "gm00".into(), RunnerKind::Slurm, clock());
    run.attempt_no = Some(1);
    let detail = load_detail(DetailAnswers {
        run,
        requested_attempt_no: None,
        observation: None,
        attempt: Err("pipe closed".into()),
        resources: "{}".into(),
        attempts: None,
        continuation: Ok(RunContinuationStatus::default()),
        events: Ok(vec![DetailEvent {
            at: clock(),
            kind: "submission_intent".into(),
            payload: "{}".into(),
        }]),
        logs: Ok(("out".into(), "err".into())),
        artifacts: Err("no such run".into()),
    });
    assert_eq!(detail.run_id, "r1");
    assert_eq!(detail.selected_attempt_no, Some(1));
    assert_eq!(detail.logs, "STDOUT\nout\n\nSTDERR\nerr");
    assert_eq!(detail.artifacts, "Artifacts unavailable\nno such run");
    assert!(detail.overview.contains("pipe closed"));
    assert!(detail.timeline.contains("submission_intent"));
}

fn row(id: &str) -> RunRow {
    RunRow {
        run_id: id.into(),
        name: id.into(),
        status: RunStatus::Running,
        runner: RunnerKind::Slurm,
        host: "gm00".into(),
        handle: "31842".into(),
        observation: "fresh".into(),
        continuation: "-".into(),
        updated: "1s".into(),
        workspace: "/share/work".into(),
        active: true,
        attention: false,
        attention_reason: None,
        updated_at: clock(),
    }
}

#[test]
fn page_copies_and_reloads_the_chosen_run() {
    let mut page = RunsViewState::new();
    assert!(matches!(page.copy_id(), Reaction::Nothing));
    assert!(matches!(page.reload_with_tail(200), Reaction::Nothing));
    assert_eq!(page.log_tail, 200);
    page.all_rows = vec![row("a"), row("b")];
    page.rebuild_visible();
    assert_eq!(page.table_ids, ["a", "b"]);
    page.load_row(1);
    match page.copy_id() {
        Reaction::Copy { value, toast } => {
            assert_eq!(value, "b");
            assert_eq!(toast, "Run ID copied");
        }
        _ => panic!("the run's name is copied"),
    }
    match page.copy_workspace() {
        Reaction::Copy { value, .. } => assert_eq!(value, "/share/work"),
        _ => panic!("the workspace is copied"),
    }
    page.logs = "lines".into();
    page.artifacts = "paths".into();
    assert!(matches!(page.copy_logs(), Reaction::Copy { value, .. } if value == "lines"));
    assert!(matches!(page.copy_artifacts(), Reaction::Copy { value, .. } if value == "paths"));
    match page.reload_with_events(999) {
        Reaction::Send(Command::LoadDetail {
            run_id,
            tail,
            event_limit,
            ..
        }) => {
            assert_eq!(run_id, "b");
            assert_eq!(tail, 200);
            assert_eq!(event_limit, 200);
        }
        _ => panic!("the detail is asked for"),
    }
    page.toggle_wrap();
    assert!(page.log_wrap);
    page.cancel_dialog = true;
    page.close_cancel();
    assert!(!page.cancel_dialog);
    page.choose_runner(ManualRunner::Lsf);
    assert_eq!(page.create_runner, ManualRunner::Lsf);
    page.create_dialog = true;
    assert!(matches!(page.close_create(), Reaction::Nothing));
    assert!(!page.create_dialog);
    page.create_pending = true;
    assert!(matches!(page.close_create(), Reaction::Toast(_)));
    page.create_unsent();
    assert!(!page.create_pending);
    assert_eq!(
        page.create_message,
        "Submission failed: GUI controller is unavailable"
    );
}

#[test]
fn desk_follows_its_window_and_its_tray() {
    let mut desk = Desk::new(
        "package siblings: complete".into(),
        true,
        false,
        LoadedGuiSettings {
            settings: GuiSettings::default(),
            warning: None,
        },
    );
    desk.handle(UiEvent::Hosts(Ok(vec![HostCardView {
        alias: "gm00".into(),
        endpoint: "u@gm00:22".into(),
        route: "Direct".into(),
        live_runs: 0,
    }])));
    let before = desk.hosts.viewport_width;
    desk.resize(false, 2000);
    assert_eq!(desk.hosts.viewport_width, before);
    desk.resize(true, 2000);
    assert_eq!(desk.hosts.viewport_width, 2000);
    assert_eq!(desk.hosts.wall.as_ref().unwrap().hosts.len(), 1);
    assert!(matches!(
        desk.press_daemon_autostart_in_tray(),
        Reaction::Toast(_)
    ));
    desk.daemon_autostart = false;
    assert!(matches!(
        desk.press_daemon_autostart_in_tray(),
        Reaction::Send(Command::SetDaemonAutostart(true))
    ));
    desk.disable_dialog = true;
    desk.keep_daemon();
    assert!(!desk.disable_dialog);
}

#[test]
fn supervisor_and_settings_have_their_places() {
    assert_eq!(pid_path("/data", PathStyle::Posix), "/data/supervise.pid");
    assert_eq!(
        heartbeat_path("/data", PathStyle::Posix),
        "/data/serve.pid"
    );
    assert_eq!(
        settings_path("/data", PathStyle::Posix),
        "/data/gui-settings.json"
    );
    assert_eq!(serve_args(20), ["serve", "--interval", "20"]);
    assert!(check_supervise(0, "/runwatch", true).is_err());
    assert!(check_supervise(3601, "/runwatch", true).is_err());
    assert_eq!(
        check_supervise(20, "/runwatch", false).unwrap_err(),
        "runwatch executable is not a file: /runwatch"
    );
    assert!(check_supervise(3600, "/runwatch", true).is_ok());
    assert!(legacy_gui_startup_path(None, PathStyle::Windows).is_err());
    assert!(legacy_gui_startup_path(Some("C:\\A".into()), PathStyle::Windows)
        .unwrap()
        .ends_with("\\Startup\\runwatch.cmd"));
    assert!(resident_runtime_owner_held(false, true));
    assert!(!resident_runtime_owner_held(false, false));
    let host = HostWatch {
        alias: "gm00".into(),
        poll_sec: default_poll(),
        query: RunnerKind::Slurm,
        enabled: default_enabled(),
    };
    assert_eq!(
        show_host(&host),
        format!("  gm00 enabled=true poll={}s", default_poll())
    );
}

#[test]
fn waiting_ends_with_the_run_or_the_time() {
    let mut run = RunRecord::new("r1".into(), "h".into(), RunnerKind::Slurm, clock());
    assert!(wait_is_over(&None, false));
    assert!(!wait_is_over(&Some(run.clone()), false));
    assert!(wait_is_over(&Some(run.clone()), true));
    run.status = RunStatus::Failed;
    assert!(wait_is_over(&Some(run), false));
}

#[test]
fn status_is_set_where_there_is_a_run() {
    let mut store = open();
    assert!(store.set_status("r1", RunStatus::Failed, clock()).is_none());
    store.upsert(&RunRecord::new(
        "r1".into(),
        "h".into(),
        RunnerKind::Slurm,
        clock(),
    ));
    let later = clock().plus_seconds(5);
    let changed = store.set_status("r1", RunStatus::Failed, later).unwrap();
    assert_eq!(changed.status, RunStatus::Failed);
    assert_eq!(store.get("r1").unwrap().updated_at, later);
}

#[test]
fn remote_tail_is_read_only_from_a_command_that_succeeded() {
    let mut output = ExecOutput {
        code: Some(0),
        stdout: "line\n".into(),
        stderr: String::new(),
    };
    assert_eq!(read_remote_tail(&output).unwrap(), "line\n");
    output.code = None;
    assert!(read_remote_tail(&output)
        .unwrap_err()
        .starts_with("remote log tail failed with exit None: line"));
}

#[test]
fn calendar_reaches_as_far_as_dates_are_written() {
    assert_eq!(
        Timestamp::from_seconds(FIRST_DATE).to_rfc3339(),
        "-262143-01-01T00:00:00+00:00"
    );
    assert_eq!(
        Timestamp::from_seconds(LAST_DATE).to_rfc3339(),
        "+262142-12-31T23:59:59+00:00"
    );
    assert_eq!(Timestamp::from_seconds(LAST_DATE).hour_minute(), "23:59");
    assert!(!Timestamp::from_seconds(LAST_DATE + 1).is_dated());
    assert!(!Timestamp::from_seconds(FIRST_DATE - 1).is_dated());
}
