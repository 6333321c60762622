use runwatch::console::controller::{Command, Reaction};
use runwatch::console::desk::{Desk, UiEvent};
use runwatch::console::drafts::{
    manual_run_id, new_retry_request_id, ManualRunDraft, ManualRunner, RetryDraft,
};
use runwatch::console::hosts::{host_wall_layout, HostsViewState, CARD_MAX_WIDTH};
use runwatch::console::model::{HostCardView, RunDetailView, RunFilter, RunRow, RunSort};
use runwatch::console::notifications::{
    coalesce_native, Notice, NoticeKind, TransitionTracker,
};
use runwatch::console::runs::RunsViewState;
use runwatch::console::settings::{
    load, save, Choice, GuiSettings, GuiSettingsState, LoadedGuiSettings, SettingsFile,
    GUI_SETTINGS_VERSION,
};
use runwatch::time::Timestamp;
use runwatch::types::{RunResources, RunStatus, RunnerKind};

fn clock() -> Timestamp {
    Timestamp::from_seconds(1_790_000_000)
}

/// 2026-09-04 16:30:45.
fn moment() -> Timestamp {
    Timestamp::from_seconds(1_788_539_445)
}

fn row(id: &str, status: RunStatus, attention: bool, reason: Option<&str>) -> RunRow {
    RunRow {
        run_id: id.into(),
        name: id.into(),
        status,
        runner: RunnerKind::Slurm,
        host: "gm00".into(),
        handle: "31842".into(),
        observation: "fresh".into(),
        continuation: "-".into(),
        updated: "1s".into(),
        workspace: "/share/work".into(),
        active: !status.is_terminal(),
        attention,
        attention_reason: reason.map(str::to_string),
        updated_at: clock(),
    }
}

#[test]
fn multiple_terminal_transitions_are_all_reported() {
    let mut tracker = TransitionTracker::default();
    assert!(
        tracker
            .observe(&vec![
                row("a", RunStatus::Running, false, None),
                row("b", RunStatus::Queued, false, None),
            ])
            .is_empty()
    );
    let notices = tracker.observe(&vec![
        row("a", RunStatus::Succeeded, false, None),
        row("b", RunStatus::Failed, true, Some("Run failed")),
    ]);
    assert_eq!(notices.len(), 2);
    assert_eq!(notices[0].kind, NoticeKind::Success);
    assert_eq!(notices[1].kind, NoticeKind::Attention);
}

#[test]
fn new_attention_is_notified_once_and_recovery_rearms_it() {
    let mut tracker = TransitionTracker::default();
    assert!(
        tracker
            .observe(&vec![row("r", RunStatus::Running, false, None)])
            .is_empty()
    );
    let notices = tracker.observe(&vec![row(
        "r",
        RunStatus::Running,
        true,
        Some("Observation is unreachable"),
    )]);
    assert_eq!(notices.len(), 1);
    assert_eq!(notices[0].kind, NoticeKind::Attention);
    assert_eq!(notices[0].body, "Observation is unreachable");
    assert!(
        tracker
            .observe(&vec![row(
                "r",
                RunStatus::Running,
                true,
                Some("Observation is unreachable"),
            )])
            .is_empty()
    );
    assert!(
        tracker
            .observe(&vec![row("r", RunStatus::Running, false, None)])
            .is_empty()
    );
    assert_eq!(
        tracker
            .observe(&vec![row(
                "r",
                RunStatus::Running,
                true,
                Some("Continuation needs explicit rebind"),
            )])
            .len(),
        1
    );
}

#[test]
fn native_policy_coalesces_one_refresh_and_prioritizes_attention() {
    let settings = GuiSettings {
        native_notifications: true,
        ..GuiSettings::default()
    };
    let notices = vec![
        Notice {
            kind: NoticeKind::Success,
            title: "done-a".into(),
            body: "running -> succeeded".into(),
        },
        Notice {
            kind: NoticeKind::Success,
            title: "done-b".into(),
            body: "running -> succeeded".into(),
        },
        Notice {
            kind: NoticeKind::Attention,
            title: "failed-c".into(),
            body: "running -> failed".into(),
        },
    ];
    let native = coalesce_native(&notices, &settings).unwrap();
    assert_eq!(native.kind, NoticeKind::Attention);
    assert_eq!(native.title, "runwatch");
    assert_eq!(native.body, "1 need attention · 2 completed");
}

#[test]
fn native_policy_respects_categories_and_run_name_privacy() {
    let notice = Notice {
        kind: NoticeKind::Success,
        title: "private-run-name".into(),
        body: "running -> succeeded".into(),
    };
    let mut settings = GuiSettings {
        native_notifications: true,
        ..GuiSettings::default()
    };
    settings.include_run_name = false;
    let native = coalesce_native(&vec![notice.clone()], &settings).unwrap();
    assert_eq!(native.title, "runwatch");
    assert_eq!(native.body, "Run completed successfully");
    assert!(!native.body.contains("private-run-name"));

    settings.notify_success = false;
    assert!(coalesce_native(&vec![notice.clone()], &settings).is_none());
    settings.native_notifications = false;
    settings.notify_success = true;
    assert!(coalesce_native(&vec![notice.clone()], &settings).is_none());
}

#[test]
fn initial_terminal_snapshot_does_not_replay_old_completion() {
    let mut tracker = TransitionTracker::default();
    assert!(
        tracker
            .observe(&vec![row("old", RunStatus::Succeeded, false, None)])
            .is_empty()
    );
}

#[test]
fn missing_settings_use_defaults_without_warning() {
    let loaded = load(&SettingsFile::Missing);
    assert_eq!(loaded.settings, GuiSettings::default());
    assert!(loaded.warning.is_none());
}

#[test]
fn corrupt_or_future_settings_fail_soft_to_defaults() {
    let loaded = load(&SettingsFile::Malformed {
        path: "/data/gui-settings.json".into(),
        error: "key must be a string".into(),
    });
    assert_eq!(loaded.settings, GuiSettings::default());
    assert!(loaded
        .warning
        .as_deref()
        .unwrap_or_default()
        .contains("using defaults"));

    let loaded = load(&SettingsFile::Read {
        path: "/data/gui-settings.json".into(),
        settings: GuiSettings {
            version: 99,
            native_notifications: false,
            notify_success: false,
            notify_attention: false,
            include_run_name: false,
        },
    });
    assert_eq!(loaded.settings, GuiSettings::default());
    assert!(loaded
        .warning
        .as_deref()
        .unwrap_or_default()
        .contains("Unsupported"));
}

#[test]
fn settings_roundtrip_preserves_only_desktop_preferences() {
    let settings = GuiSettings {
        version: 7,
        native_notifications: false,
        notify_success: false,
        notify_attention: true,
        include_run_name: false,
    };
    let loaded = load(&SettingsFile::Read {
        path: "/data/gui-settings.json".into(),
        settings: save(settings),
    });
    assert!(loaded.warning.is_none());
    assert_eq!(loaded.settings.version, GUI_SETTINGS_VERSION);
    assert!(!loaded.settings.native_notifications);
    assert!(!loaded.settings.notify_success);
    assert!(loaded.settings.notify_attention);
    assert!(!loaded.settings.include_run_name);
}

#[test]
fn unreadable_settings_are_warned_of() {
    let loaded = load(&SettingsFile::Unreadable {
        path: "/data/x".into(),
        error: "denied".into(),
    });
    assert_eq!(
        loaded.warning.as_deref(),
        Some("Could not read /data/x: denied; using defaults")
    );
    let loaded = load(&SettingsFile::NoPath {
        error: "no home".into(),
    });
    assert_eq!(
        loaded.warning.as_deref(),
        Some("Could not resolve GUI settings path: no home")
    );
}

#[test]
fn process_submission_is_unbound_and_discards_scheduler_resources() {
    let draft = ManualRunDraft {
        cwd: r"E:\science\run".into(),
        command: "python analysis.py --fast".into(),
        time: "01:00:00".into(),
        pool: "gpu".into(),
        cpus: "8".into(),
        ..Default::default()
    };
    let spec = draft
        .build_spec_at(ManualRunner::Process, moment(), 0x123456)
        .unwrap();
    assert_eq!(spec.runner, RunnerKind::Process);
    assert_eq!(spec.workspace.host_alias, "local");
    assert_eq!(spec.resources, RunResources::default());
    assert_eq!(spec.continuation, None);
    assert_eq!(
        spec.name.as_deref(),
        Some("python analysis.py · Local Process · 16:30")
    );
    assert!(spec.run_id.starts_with("manual-python-analysis-py-"));
    assert!(spec.run_id.ends_with("-20260904-163045-123456"));
}

#[test]
fn slurm_and_lsf_map_the_shared_pool_field_to_the_right_resource_family() {
    let draft = ManualRunDraft {
        host_alias: "gm00".into(),
        cwd: "/share/home/shark/work".into(),
        command: "python train.py".into(),
        pool: "gpu".into(),
        cpus: "4".into(),
        gpus: "1".into(),
        ..Default::default()
    };
    let slurm = draft.build_spec_at(ManualRunner::Slurm, moment(), 1).unwrap();
    assert_eq!(slurm.resources.partition.as_deref(), Some("gpu"));
    assert_eq!(slurm.resources.queue, None);
    assert_eq!(slurm.resources.cpus, Some(4));
    assert_eq!(slurm.resources.gpus, Some(1));

    let lsf = draft.build_spec_at(ManualRunner::Lsf, moment(), 2).unwrap();
    assert_eq!(lsf.resources.partition, None);
    assert_eq!(lsf.resources.queue.as_deref(), Some("gpu"));
}

#[test]
fn manual_preflight_rejects_missing_remote_identity_and_invalid_counts() {
    let draft = ManualRunDraft {
        cwd: "/shared/work".into(),
        command: "echo ok".into(),
        cpus: "0".into(),
        ..Default::default()
    };
    let error = draft
        .build_spec_at(ManualRunner::Slurm, moment(), 1)
        .unwrap_err();
    assert!(error.contains("Host alias"));

    let draft = ManualRunDraft {
        host_alias: "gm00".into(),
        cwd: "/shared/work".into(),
        command: "echo ok".into(),
        cpus: "zero".into(),
        ..Default::default()
    };
    let error = draft
        .build_spec_at(ManualRunner::Slurm, moment(), 1)
        .unwrap_err();
    assert!(error.contains("CPU count"));
}

#[test]
fn retry_review_maps_resources_and_local_retry_has_no_scheduler_envelope() {
    let draft = RetryDraft {
        run_id: "manual-r1".into(),
        expected_attempt_no: 2,
        request_id: "gui-retry-fixed-01".into(),
        time: "04:00:00".into(),
        pool: "gpu".into(),
        account: "science".into(),
        cpus: "16".into(),
        mem: "64G".into(),
        gpus: "2".into(),
    };
    let slurm = draft.build_spec(RunnerKind::Slurm).unwrap();
    let resources = slurm.resources.unwrap();
    assert_eq!(resources.partition.as_deref(), Some("gpu"));
    assert_eq!(resources.queue, None);
    assert_eq!(resources.cpus, Some(16));
    assert_eq!(resources.gpus, Some(2));
    assert_eq!(resources.mem.as_deref(), Some("64G"));

    let lsf = draft.build_spec(RunnerKind::Lsf).unwrap();
    let resources = lsf.resources.unwrap();
    assert_eq!(resources.partition, None);
    assert_eq!(resources.queue.as_deref(), Some("gpu"));

    let local = draft.build_spec(RunnerKind::Process).unwrap();
    assert_eq!(local.resources, None);
    assert_eq!(local.request_id, "gui-retry-fixed-01");
    assert_eq!(local.expected_attempt_no, 2);
}

#[test]
fn retry_review_rejects_invalid_counts_and_generates_wire_safe_request_ids() {
    let draft = RetryDraft {
        run_id: "manual-r1".into(),
        expected_attempt_no: 1,
        request_id: "gui-retry-fixed-02".into(),
        time: String::new(),
        pool: String::new(),
        account: String::new(),
        cpus: "0".into(),
        mem: String::new(),
        gpus: String::new(),
    };
    assert!(
        draft
            .build_spec(RunnerKind::Slurm)
            .unwrap_err()
            .contains("greater than zero")
    );

    let id = new_retry_request_id(moment(), 1, 4242);
    assert!(id.starts_with("gui-retry-"));
    assert!(id.len() <= 96);
    assert!(
        id.bytes()
            .all(|byte| byte.is_ascii_alphanumeric() || matches!(byte, b'-' | b'_' | b'.'))
    );
}

#[test]
fn generated_run_id_is_ascii_bounded_and_readable() {
    let id = manual_run_id("CryoEM refinement Ω / long long long name", moment(), 0xabcdef);
    assert!(id.len() <= 96);
    assert!(
        id.bytes()
            .all(|byte| byte.is_ascii_alphanumeric() || matches!(byte, b'-' | b'_' | b'.'))
    );
    assert!(id.starts_with("manual-cryoem-refinement-"));
    assert!(id.ends_with("-20260904-163045-abcdef"));
}

fn host(alias: &str, endpoint: &str, route: &str) -> HostCardView {
    HostCardView {
        alias: alias.into(),
        endpoint: endpoint.into(),
        route: route.into(),
        live_runs: 0,
    }
}

#[test]
fn host_wall_reflows_columns_with_viewport_width() {
    let hosts = vec![
        host("gm00", "shark@gm00.example:22", "Direct"),
        host("gpu01", "user@gpu01.example:22", "Direct"),
        host("cap00", "inter@cap00.example:22", "Direct"),
        host("macos", "user@macos.example:22", "Direct"),
    ];
    let narrow = host_wall_layout(480, &hosts);
    let medium = host_wall_layout(900, &hosts);
    let wide = host_wall_layout(1440, &hosts);
    assert_eq!(narrow.columns, 1);
    assert!(medium.columns >= 2);
    assert!(wide.columns > medium.columns);
}

#[test]
fn longest_host_drives_one_shared_card_width_and_height() {
    let short = host("gm00", "u@gm00:22", "Direct");
    let long = host(
        "compute-gateway-long",
        "scientist@compute-gateway.internal.example:22022",
        "ProxyJump · bastion-alpha → bastion-beta → bastion-gamma → bastion-delta",
    );
    let short_only = host_wall_layout(1200, &vec![short.clone()]);
    let layout = host_wall_layout(1200, &vec![short, long]);
    assert!(layout.card_width > short_only.card_width);
    assert!(layout.card_width <= CARD_MAX_WIDTH);
    assert!(layout.card_height > short_only.card_height);
    assert!((1..=3).contains(&layout.route_lines));
}

#[test]
fn hosts_page_counts_its_live_runs() {
    let mut page = HostsViewState::new();
    page.apply_run_usage(&vec![row("a", RunStatus::Running, false, None)]);
    page.apply_hosts(Ok(vec![host("gm00", "u@gm00:22", "Direct")]));
    assert_eq!(page.hosts[0].live_runs, 1);
    assert_eq!(
        page.status,
        "1 exact OpenSSH Host alias · read-only projection from ssh -G"
    );
    assert_eq!(page.usage, "gm00   1 live Run");
    page.set_viewport_width(0);
    assert_eq!(page.viewport_width, 1080);
    page.set_viewport_width(300);
    assert_eq!(page.wall.as_ref().unwrap().columns, 1);
    page.apply_hosts(Err("bad config".into()));
    assert!(page.wall.is_none());
    assert!(page.status.contains("not an empty Host list"));
}

fn detail(run_id: &str, title: &str) -> RunDetailView {
    RunDetailView {
        run_id: run_id.into(),
        title: title.into(),
        selected_attempt_no: Some(1),
        attempt_numbers: vec![1],
        attempt_label: "Attempt 1 · 1/1 · current".into(),
        overview: format!("overview-{title}"),
        logs: format!("logs-{title}"),
        artifacts: format!("artifacts-{title}"),
        timeline: format!("timeline-{title}"),
        continuation: format!("continuation-{title}"),
        retry_context: None,
        can_cancel: true,
    }
}

#[test]
fn stale_detail_response_cannot_replace_newer_selection_or_reload() {
    let mut state = RunsViewState::new();
    state.selected_id = "run-b".into();
    state.detail_request = 2;

    state.apply_detail(1, detail("run-a", "old-a"));
    assert_eq!(state.detail_title, "Select a Run to inspect");

    state.apply_detail(2, detail("run-b", "new-b"));
    assert_eq!(state.detail_title, "new-b");
    assert_eq!(state.logs, "logs-new-b");

    state.detail_request = 4;
    state.apply_detail(3, detail("run-b", "old-tail"));
    assert_eq!(state.detail_title, "new-b");
    state.apply_detail(4, detail("run-b", "new-tail"));
    assert_eq!(state.detail_title, "new-tail");
}

#[test]
fn retry_dialog_keeps_request_identity_after_failure_and_clears_only_after_success() {
    let mut state = RunsViewState::new();
    state.retry_supported = true;
    state.retry_available = true;
    state.retry_dialog = true;
    state.retry_pending = true;
    state.retry.request_id = "gui-retry-stable-01".into();

    state.retry_failed("simulated response loss");
    assert!(state.retry_dialog);
    assert!(!state.retry_pending);
    assert_eq!(state.retry.request_id, "gui-retry-stable-01");
    assert!(state.retry_message.contains("idempotent"));

    state.retry_pending = true;
    state.retry_succeeded();
    assert!(!state.retry_dialog);
    assert!(!state.retry_pending);
    assert!(state.retry.request_id.is_empty());
    assert!(!state.retry_available);
}

fn page_of_runs() -> RunsViewState {
    let mut state = RunsViewState::new();
    state.all_rows = vec![
        row("b", RunStatus::Running, false, None),
        row("a", RunStatus::Failed, true, Some("Run failed")),
    ];
    state.set_filter(RunFilter::All);
    state
}

#[test]
fn list_is_filtered_sorted_and_opened() {
    let mut state = page_of_runs();
    assert_eq!(state.table_ids, ["b", "a"]);
    state.set_sort(RunSort::Name);
    assert_eq!(state.table_ids, ["a", "b"]);
    assert_eq!(state.table_rows[0][0], "! failed");
    state.query = "B".into();
    state.rebuild_visible();
    assert_eq!(state.table_ids, ["b"]);
    state.clear_query();
    assert!(matches!(state.load_row(9), Reaction::Nothing));
    match state.load_row(1) {
        Reaction::Send(Command::LoadDetail {
            request_id, run_id, ..
        }) => {
            assert_eq!(request_id, 1);
            assert_eq!(run_id, "b");
        }
        _ => panic!("a line opens its run"),
    }
    assert_eq!(state.detail_title, "Loading b...");
    assert!(matches!(state.probe(), Reaction::Send(Command::Probe(_))));
    assert!(matches!(
        state.copy_handle(),
        Reaction::Copy { toast: "Run handle copied", .. }
    ));
}

#[test]
fn attempts_are_walked_to_their_ends() {
    let mut state = page_of_runs();
    state.selected_id = "b".into();
    state.attempt_numbers = vec![1, 2, 5];
    state.selected_attempt_no = 5;
    assert!(matches!(
        state.newer_attempt(),
        Reaction::Toast("No later Attempt")
    ));
    match state.older_attempt() {
        Reaction::Send(Command::LoadDetail { attempt_no, .. }) => assert_eq!(attempt_no, Some(2)),
        _ => panic!("there is an earlier attempt"),
    }
    assert_eq!(state.attempt_label, "Loading Attempt 2...");
}

#[test]
fn cancel_is_asked_about_and_sent_once() {
    let mut state = page_of_runs();
    assert!(matches!(state.ask_cancel(), Reaction::Toast(_)));
    state.selected_id = "b".into();
    state.can_cancel = true;
    assert!(matches!(state.ask_cancel(), Reaction::Nothing));
    assert!(state.cancel_dialog);
    match state.confirm_cancel() {
        Reaction::Send(Command::Cancel(run_id)) => assert_eq!(run_id, "b"),
        _ => panic!("the user confirmed"),
    }
    assert!(!state.cancel_dialog);
}

#[test]
fn retry_and_create_are_sent_once() {
    let mut state = page_of_runs();
    assert!(matches!(
        state.begin_retry_review("gui-retry-1"),
        Reaction::Toast("This runwatchd does not advertise retry_run_v1")
    ));
    state.retry_supported = true;
    assert!(matches!(
        state.begin_retry_review("gui-retry-1"),
        Reaction::Toast("This selected Attempt is not eligible for human Retry")
    ));
    state.retry_available = true;
    state.retry.run_id = "b".into();
    state.retry.expected_attempt_no = 1;
    assert!(matches!(
        state.begin_retry_review("gui-retry-1"),
        Reaction::Nothing
    ));
    match state.submit_retry() {
        Reaction::Send(Command::Retry(spec)) => assert_eq!(spec.request_id, "gui-retry-1"),
        _ => panic!("{}", state.retry_message),
    }
    assert!(matches!(state.submit_retry(), Reaction::Toast(_)));
    assert!(matches!(state.close_retry(), Reaction::Toast(_)));
    state.retry_unsent();
    assert!(!state.retry_pending);

    assert!(matches!(state.open_create(), Reaction::Toast(_)));
    state.manual_submit_supported = true;
    assert!(matches!(state.open_create(), Reaction::Nothing));
    assert!(matches!(
        state.submit_create(moment(), 1, 2),
        Reaction::Nothing
    ));
    assert_eq!(state.create_message, "Check the form: Command is required");
    state.create.command = "echo ok".into();
    state.create.cwd = "/work".into();
    assert!(matches!(
        state.submit_create(moment(), 1, 2),
        Reaction::Send(Command::SubmitManual(_))
    ));
    state.manual_submit_failed("pipe closed");
    assert_eq!(state.create.command, "echo ok");
    state.manual_submit_succeeded();
    assert_eq!(state.create.command, "");
    assert!(!state.create_dialog);
}

fn desk() -> Desk {
    Desk::new(
        "package siblings: complete".into(),
        true,
        false,
        LoadedGuiSettings {
            settings: GuiSettings::default(),
            warning: None,
        },
    )
}

#[test]
fn lost_daemon_keeps_the_list_and_withdraws_its_offers() {
    let mut desk = desk();
    desk.runs = page_of_runs();
    desk.runs.manual_submit_supported = true;
    let notices = desk.handle(UiEvent::DaemonUnavailable("pipe closed".into()));
    assert!(notices.is_empty());
    assert_eq!(desk.runs.table_ids.len(), 2);
    assert!(!desk.runs.manual_submit_supported);
    assert_eq!(
        desk.service,
        "runwatchd unavailable\npipe closed\n\nThe GUI will not take over scheduler polling."
    );
}

#[test]
fn results_are_told_and_choices_are_saved() {
    let mut desk = desk();
    let notices = desk.handle(UiEvent::ManualSubmitResult {
        run_id: "manual-1".into(),
        error: None,
    });
    assert_eq!(notices[0].title, "Run submitted");
    let notices = desk.handle(UiEvent::RetryResult {
        run_id: "manual-1".into(),
        error: Some("busy".into()),
    });
    assert_eq!(notices[0].kind, NoticeKind::Attention);
    assert!(matches!(desk.toggle_pause(), Command::SetPaused(true)));
    assert!(matches!(desk.press_daemon_autostart(), Reaction::Nothing));
    assert!(desk.disable_dialog);
    assert!(matches!(
        desk.disable_daemon(),
        Command::SetDaemonAutostart(false)
    ));
    assert!(matches!(
        desk.press_gui_autostart(),
        Command::SetGuiAutostart(true)
    ));
    match desk.press_choice(Choice::Success) {
        Command::SaveGuiSettings(settings) => assert!(!settings.notify_success),
        _ => panic!("a choice is saved"),
    }
    let page = GuiSettingsState::new(LoadedGuiSettings {
        settings: GuiSettings::default(),
        warning: Some("careful".into()),
    });
    assert_eq!(page.warning, "careful");
    assert_eq!(page.snapshot(), GuiSettings::default());
}
