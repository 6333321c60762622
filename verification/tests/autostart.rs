use runwatch::autostart::{
    check_termination, current_user_identity, daemon_is_enabled, daemon_task_name,
    daemon_task_xml, gui_is_enabled, gui_startup_body, gui_startup_path, install_daemon,
    next_removal, remove_daemon, require_schtasks, task_scheduler_path,
    terminate_task_owned_supervisor, wait_for_resident_runtime_stopped, write_task_xml,
    xml_escape, RemoveAction, RemoveAnswer, DEFAULT_DAEMON_INTERVAL_SEC,
};
use runwatch::paths::PathStyle;
use runwatch::supervisor::{restart_delay, supervise, SupervisorAction, SupervisorEvent, SupervisorHeartbeat};

const START: &str = "2026-09-04T16:31:00";

#[test]
fn daemon_task_xml_has_resident_user_semantics() {
    let xml = daemon_task_xml(
        "C:/Tools/A&B/runwatch.exe",
        Some("C:/Tools/A&B"),
        "LAB\\user&name",
        DEFAULT_DAEMON_INTERVAL_SEC,
        START,
    )
    .unwrap();
    assert!(xml.contains("<LogonType>InteractiveToken</LogonType>"));
    assert!(xml.contains("<MultipleInstancesPolicy>IgnoreNew</MultipleInstancesPolicy>"));
    assert!(xml.contains("<ExecutionTimeLimit>PT0S</ExecutionTimeLimit>"));
    assert!(xml.contains("<TimeTrigger>"));
    assert!(xml.contains("<Repetition>"));
    assert!(xml.contains("<Interval>PT1M</Interval>"));
    assert!(xml.contains("<StopAtDurationEnd>false</StopAtDurationEnd>"));
    assert!(!xml.contains("<Duration>"));
    assert!(!xml.contains("<RestartOnFailure>"));
    assert!(xml.contains("supervise --interval 20"));
    assert!(xml.contains("LAB\\user&amp;name"));
    assert!(xml.contains("A&amp;B/runwatch.exe"));
}

#[test]
fn daemon_task_xml_rejects_unbounded_poll_interval() {
    assert!(daemon_task_xml("C:/runwatch.exe", Some("C:/"), "user", 0, START).is_err());
    assert!(daemon_task_xml("C:/runwatch.exe", Some("C:/"), "user", 3601, START).is_err());
}

#[test]
fn task_scheduler_paths_drop_windows_verbatim_prefixes() {
    assert_eq!(
        task_scheduler_path(r"\\?\C:\Tools\runwatch.exe"),
        r"C:\Tools\runwatch.exe"
    );
    assert_eq!(
        task_scheduler_path(r"\\?\UNC\server\share\runwatch.exe"),
        r"\\server\share\runwatch.exe"
    );
}

#[test]
fn resident_stop_wait_is_bounded_and_observes_release() {
    let mut probes = 0;
    let stopped = loop {
        probes += 1;
        if let Some(stopped) = wait_for_resident_runtime_stopped(probes < 3, false) {
            break stopped;
        }
    };
    assert!(stopped);
    assert_eq!(probes, 3);

    assert_eq!(wait_for_resident_runtime_stopped(true, true), Some(false));
}

#[test]
fn supervisor_restart_backoff_is_bounded() {
    assert_eq!(restart_delay(0), 1);
    assert_eq!(restart_delay(1), 1);
    assert_eq!(restart_delay(2), 2);
    assert_eq!(restart_delay(3), 5);
    assert_eq!(restart_delay(4), 10);
    assert_eq!(restart_delay(5), 30);
    assert_eq!(restart_delay(100), 30);
}

#[test]
fn supervisor_starts_one_daemon_and_backs_off() {
    assert!(matches!(
        supervise(0, SupervisorEvent::NoDaemon),
        (0, SupervisorAction::Start)
    ));
    assert!(matches!(
        supervise(3, SupervisorEvent::OtherDaemon),
        (_, SupervisorAction::Wait(1000))
    ));
    assert!(matches!(
        supervise(1, SupervisorEvent::Exited(2)),
        (2, SupervisorAction::Wait(2000))
    ));
}

#[test]
fn escaped_text_is_plain_in_xml() {
    assert_eq!(xml_escape("a<b>&\"'"), "a&lt;b&gt;&amp;&quot;&apos;");
}

#[test]
fn task_file_is_marked_utf16() {
    assert_eq!(write_task_xml("a"), [0xff, 0xfe, 0x61, 0x00]);
}

fn answer(yes: bool) -> RemoveAnswer {
    RemoveAnswer {
        yes,
        stdout: String::new(),
        stderr: "denied".into(),
    }
}

#[test]
fn removal_of_a_missing_task_is_done_at_once() {
    let first = remove_daemon(PathStyle::Windows);
    assert!(matches!(first, RemoveAction::Query));
    assert!(matches!(
        next_removal(first, answer(false)),
        RemoveAction::Finish(Ok(false))
    ));
    assert!(matches!(
        remove_daemon(PathStyle::Posix),
        RemoveAction::Finish(_)
    ));
}

#[test]
fn registration_is_taken_away_only_after_the_daemon_stopped() {
    let mut action = remove_daemon(PathStyle::Windows);
    let mut seen = Vec::new();
    loop {
        let yes = match &action {
            RemoveAction::Query => true,
            RemoveAction::End => true,
            RemoveAction::AwaitBriefly => true,
            RemoveAction::LookAtSupervisor => false,
            RemoveAction::Terminate => true,
            RemoveAction::LookAtRuntime { .. } => false,
            RemoveAction::Await => true,
            RemoveAction::Delete => true,
            RemoveAction::Finish(result) => {
                assert_eq!(*result, Ok(true));
                break;
            }
        };
        seen.push(matches!(action, RemoveAction::Delete));
        action = next_removal(action, answer(yes));
    }
    assert_eq!(seen.iter().filter(|deletes| **deletes).count(), 1);
    assert_eq!(seen.last(), Some(&true));
}

#[test]
fn users_and_programs_are_checked() {
    assert_eq!(
        current_user_identity(Some("ada".into()), Some("LAB".into())),
        Ok("LAB\\ada".to_string())
    );
    assert!(current_user_identity(None, None).is_err());
    assert!(install_daemon(
        "C:/x.exe",
        false,
        Some("C:/"),
        "ada",
        20,
        START,
        7,
        PathStyle::Windows
    )
    .is_err());
    assert!(require_schtasks(false, "", "denied", "create")
        .unwrap_err()
        .contains("denied"));
    assert_eq!(daemon_task_name(), "runwatchd");
    assert!(!daemon_is_enabled(PathStyle::Posix, Some(true)));
    assert!(daemon_is_enabled(PathStyle::Windows, Some(true)));
    assert!(gui_is_enabled(false, true));
    assert!(!gui_is_enabled(false, false));
    assert!(gui_startup_body(r"C:\runwatch-gui.exe").contains(r"C:\runwatch-gui.exe"));
    assert!(gui_startup_path(None, PathStyle::Windows).is_err());
}

#[test]
fn only_the_supervisor_that_holds_the_lock_is_ended() {
    let beat = SupervisorHeartbeat {
        pid: 42,
        started_unix: 1,
    };
    assert_eq!(terminate_task_owned_supervisor(false, None, 7), Ok(None));
    assert_eq!(
        terminate_task_owned_supervisor(true, Some(beat), 7),
        Ok(Some(42))
    );
    assert!(terminate_task_owned_supervisor(true, None, 7).is_err());
    assert!(check_termination(42, false, true, "", "denied").is_err());
    assert_eq!(check_termination(42, true, true, "", ""), Ok(()));
}
